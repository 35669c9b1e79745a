//! Service keys: the strings under which handlers are filed.

use vstd::prelude::*;
use vstd::string::StringExecFns;

verus! {

/// The key of a handler: the service path, a dot, and the method name.
pub open spec fn service_key(path: Seq<char>, method: Seq<char>) -> Seq<char> {
    path + seq!['.'] + method
}

/// Whether `s` holds no dot.
pub open spec fn dot_free(s: Seq<char>) -> bool {
    forall|i: int| 0 <= i < s.len() ==> s[i] != '.'
}

/// Builds the key `"{path}.{method}"`.
pub fn make_service_key(path: &str, method: &str) -> (key: String)
    ensures
        key@ == service_key(path@, method@),
{
    let mut key = String::from_str(path);
    key.append(".");
    key.append(method);
    proof {
        reveal_strlit(".");
    }
    key
}

/// Two pairs whose paths hold no dot share a key only if they are the same
/// pair: the first dot of the key then marks where the path ends.
pub proof fn lemma_key_injective(
    path_a: Seq<char>,
    method_a: Seq<char>,
    path_b: Seq<char>,
    method_b: Seq<char>,
)
    requires
        dot_free(path_a),
        dot_free(path_b),
        service_key(path_a, method_a) == service_key(path_b, method_b),
    ensures
        path_a == path_b,
        method_a == method_b,
{
    let key_a = service_key(path_a, method_a);
    let key_b = service_key(path_b, method_b);
    // The shorter path is followed by the dot, where the longer path has a
    // character that is no dot: the paths are of one length.
    if path_a.len() < path_b.len() {
        assert(key_a[path_a.len() as int] == '.');
        assert(key_b[path_a.len() as int] == path_b[path_a.len() as int]);
        assert(false);
    }
    if path_b.len() < path_a.len() {
        assert(key_b[path_b.len() as int] == '.');
        assert(key_a[path_b.len() as int] == path_a[path_b.len() as int]);
        assert(false);
    }
    assert(path_a =~= path_b) by {
        assert forall|i: int| 0 <= i < path_a.len() implies path_a[i] == path_b[i] by {
            assert(key_a[i] == path_a[i]);
            assert(key_b[i] == path_b[i]);
        }
    }
    assert(method_a =~= method_b) by {
        assert(key_a.len() == path_a.len() + 1 + method_a.len());
        assert(key_b.len() == path_b.len() + 1 + method_b.len());
        assert forall|i: int| 0 <= i < method_a.len() implies method_a[i] == method_b[i] by {
            assert(key_a[path_a.len() + 1 + i] == method_a[i]);
            assert(key_b[path_b.len() + 1 + i] == method_b[i]);
        }
    }
}

} // verus!

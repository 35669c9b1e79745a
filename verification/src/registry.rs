//! The service registry: which handler answers to which key.
//!
//! The registry is a finite map from service keys to handlers. Registering
//! under a key that is already taken replaces the handler; nothing is ever
//! removed.

use crate::key::{dot_free, lemma_key_injective, make_service_key, service_key};
use vstd::hash_map::StringHashMap;
use vstd::prelude::*;

verus! {

/// The services after registering `handler` for `path` and `method`.
pub open spec fn registered<H>(
    services: Map<Seq<char>, H>,
    path: Seq<char>,
    method: Seq<char>,
    handler: H,
) -> Map<Seq<char>, H> {
    services.insert(service_key(path, method), handler)
}

/// The handler that `services` holds for `path` and `method`, if any.
pub open spec fn resolved<H>(services: Map<Seq<char>, H>, path: Seq<char>, method: Seq<char>)
    -> Option<H> {
    let key = service_key(path, method);
    if services.contains_key(key) {
        Some(services[key])
    } else {
        None
    }
}

/// A map from service keys to handlers of type `H`.
#[verifier::reject_recursive_types(H)]
pub struct Registry<H> {
    services: StringHashMap<H>,
}

impl<H> View for Registry<H> {
    type V = Map<Seq<char>, H>;

    closed spec fn view(&self) -> Map<Seq<char>, H> {
        self.services@
    }
}

impl<H> Registry<H> {
    #[verifier::type_invariant]
    spec fn finite(self) -> bool {
        self.services@.dom().finite()
    }

    /// An empty registry.
    pub fn new() -> (r: Self)
        ensures
            r@ == Map::<Seq<char>, H>::empty(),
    {
        Registry { services: StringHashMap::new() }
    }

    /// Files `handler` under the key of `path` and `method`, in place of the
    /// handler that was there, if one was.
    pub fn register(&mut self, path: &str, method: &str, handler: H)
        ensures
            final(self)@ == registered(old(self)@, path@, method@, handler),
    {
        proof {
            use_type_invariant(&*self);
        }
        let key = make_service_key(path, method);
        // The map is taken out while it changes, so that the registry is
        // whole at every step.
        let mut services = StringHashMap::new();
        std::mem::swap(&mut services, &mut self.services);
        services.insert(key, handler);
        self.services = services;
    }

    /// The handler filed under `key`, if any.
    pub fn lookup_key(&self, key: &str) -> (r: Option<&H>)
        ensures
            match r {
                Some(h) => self@.contains_key(key@) && *h == self@[key@],
                None => !self@.contains_key(key@),
            },
    {
        self.services.get(key)
    }

    /// Whether a handler is filed for `path` and `method`.
    pub fn contains(&self, path: &str, method: &str) -> (b: bool)
        ensures
            b == self@.contains_key(service_key(path@, method@)),
    {
        let key = make_service_key(path, method);
        self.services.contains_key(key.as_str())
    }

    /// The number of keys that have a handler.
    pub fn len(&self) -> (n: usize)
        ensures
            n == self@.len(),
            self@.dom().finite(),
    {
        proof {
            use_type_invariant(self);
        }
        self.services.len()
    }

    /// Whether no handler has been registered.
    pub fn is_empty(&self) -> (b: bool)
        ensures
            b == (self@.len() == 0),
            b == (self@ == Map::<Seq<char>, H>::empty()),
    {
        proof {
            use_type_invariant(self);
            if self@.len() == 0 {
                assert(self@ =~= Map::<Seq<char>, H>::empty());
            }
        }
        self.services.len() == 0
    }
}

impl<H: Copy> Registry<H> {
    /// The handler registered for `path` and `method`: the one registered
    /// last under their key, or `None` where none was.
    pub fn lookup(&self, path: &str, method: &str) -> (r: Option<H>)
        ensures
            r == resolved(self@, path@, method@),
    {
        let key = make_service_key(path, method);
        match self.services.get(key.as_str()) {
            Some(h) => Some(*h),
            None => None,
        }
    }
}

/// One call of `register`, as mathematical values.
pub struct Registration<H> {
    pub path: Seq<char>,
    pub method: Seq<char>,
    pub handler: H,
}

impl<H> Registration<H> {
    /// The key that this registration files its handler under.
    pub open spec fn key(self) -> Seq<char> {
        service_key(self.path, self.method)
    }
}

/// The services that result from making the registrations `regs`, in order,
/// on `services`.
pub open spec fn replay<H>(services: Map<Seq<char>, H>, regs: Seq<Registration<H>>) -> Map<
    Seq<char>,
    H,
>
    decreases regs.len(),
{
    if regs.len() == 0 {
        services
    } else {
        let last = regs.last();
        registered(replay(services, regs.drop_last()), last.path, last.method, last.handler)
    }
}

/// Registrations change no key but their own: a key under which none of
/// `regs` files a handler holds after them what it held before.
pub proof fn law_other_keys_untouched<H>(
    services: Map<Seq<char>, H>,
    regs: Seq<Registration<H>>,
    key: Seq<char>,
)
    requires
        forall|j: int| 0 <= j < regs.len() ==> regs[j].key() != key,
    ensures
        replay(services, regs).contains_key(key) == services.contains_key(key),
        services.contains_key(key) ==> replay(services, regs)[key] == services[key],
    decreases regs.len(),
{
    if regs.len() > 0 {
        let init = regs.drop_last();
        assert forall|j: int| 0 <= j < init.len() implies init[j].key() != key by {
            assert(init[j] == regs[j]);
        }
        law_other_keys_untouched(services, init, key);
        // The last registration is under another key, too.
        assert(regs.last() == regs[regs.len() - 1]);
    }
}

/// Last write wins: after a run of registrations, a key holds the handler of
/// the last registration that was made under it.
pub proof fn law_last_write_wins<H>(
    services: Map<Seq<char>, H>,
    regs: Seq<Registration<H>>,
    i: int,
)
    requires
        0 <= i < regs.len(),
        forall|j: int| i < j < regs.len() ==> regs[j].key() != regs[i].key(),
    ensures
        replay(services, regs).contains_key(regs[i].key()),
        replay(services, regs)[regs[i].key()] == regs[i].handler,
    decreases regs.len(),
{
    if i < regs.len() - 1 {
        // The key holds the handler already before the last registration,
        // which is under another key.
        let init = regs.drop_last();
        assert(init[i] == regs[i]);
        assert forall|j: int| i < j < init.len() implies init[j].key() != init[i].key() by {
            assert(init[j] == regs[j]);
        }
        law_last_write_wins(services, init, i);
        assert(regs.last() == regs[regs.len() - 1]);
    }
}

/// Looking up a pair returns the handler most recently registered for it,
/// provided that no later registration was made for another pair with the
/// same key (as `("a.b", "c")` and `("a", "b.c")` have).
pub proof fn law_lookup_returns_latest<H>(
    services: Map<Seq<char>, H>,
    regs: Seq<Registration<H>>,
    i: int,
    path: Seq<char>,
    method: Seq<char>,
)
    requires
        0 <= i < regs.len(),
        regs[i].path == path,
        regs[i].method == method,
        forall|j: int| i < j < regs.len() ==> !(regs[j].path == path && regs[j].method == method),
        forall|j: int|
            i < j < regs.len() && regs[j].key() == service_key(path, method) ==> regs[j].path
                == path && regs[j].method == method,
    ensures
        resolved(replay(services, regs), path, method) == Some(regs[i].handler),
{
    law_last_write_wins(services, regs, i);
}

/// Where no path holds a dot, no two pairs share a key, and looking up a pair
/// returns the handler most recently registered for it.
pub proof fn law_lookup_returns_latest_dot_free<H>(
    services: Map<Seq<char>, H>,
    regs: Seq<Registration<H>>,
    i: int,
    path: Seq<char>,
    method: Seq<char>,
)
    requires
        0 <= i < regs.len(),
        regs[i].path == path,
        regs[i].method == method,
        forall|j: int| i < j < regs.len() ==> !(regs[j].path == path && regs[j].method == method),
        forall|j: int| 0 <= j < regs.len() ==> dot_free(#[trigger] regs[j].path),
    ensures
        resolved(replay(services, regs), path, method) == Some(regs[i].handler),
{
    assert forall|j: int|
        i < j < regs.len() && regs[j].key() == service_key(path, method) implies regs[j].path
        == path && regs[j].method == method by {
        lemma_key_injective(regs[j].path, regs[j].method, path, method);
    }
    law_lookup_returns_latest(services, regs, i, path, method);
}

/// A pair under whose key nothing was ever registered is absent: looking it
/// up in the services that a run of registrations built from nothing returns
/// `None`.
pub proof fn law_unregistered_is_absent<H>(
    regs: Seq<Registration<H>>,
    path: Seq<char>,
    method: Seq<char>,
)
    requires
        forall|j: int| 0 <= j < regs.len() ==> regs[j].key() != service_key(path, method),
    ensures
        resolved(replay(Map::<Seq<char>, H>::empty(), regs), path, method) == None::<H>,
{
    law_other_keys_untouched(Map::<Seq<char>, H>::empty(), regs, service_key(path, method));
}

/// The services hold exactly what was registered: after a run of
/// registrations that started from nothing, a key has a handler if and only
/// if one of the registrations was made under it.
pub proof fn law_holds_exactly_the_registered_keys<H>(regs: Seq<Registration<H>>, key: Seq<char>)
    ensures
        replay(Map::<Seq<char>, H>::empty(), regs).contains_key(key) <==> exists|j: int|
            0 <= j < regs.len() && #[trigger] regs[j].key() == key,
    decreases regs.len(),
{
    if regs.len() > 0 {
        let init = regs.drop_last();
        let last = regs.len() - 1;
        law_holds_exactly_the_registered_keys(init, key);
        if regs[last].key() != key {
            // The key is held after the run exactly if it was held before
            // the last registration.
            if replay(Map::<Seq<char>, H>::empty(), init).contains_key(key) {
                let j = choose|j: int| 0 <= j < init.len() && #[trigger] init[j].key() == key;
                assert(regs[j] == init[j]);
            }
            if exists|j: int| 0 <= j < regs.len() && #[trigger] regs[j].key() == key {
                let j = choose|j: int| 0 <= j < regs.len() && #[trigger] regs[j].key() == key;
                assert(init[j] == regs[j]);
            }
        }
    }
}

/// Registering a pair a second time replaces its handler and adds no entry:
/// the services are what the second registration alone would have made, the
/// pair resolves to the second handler, and the number of entries is that
/// after the first registration.
pub proof fn law_reregistration_overwrites<H>(
    services: Map<Seq<char>, H>,
    path: Seq<char>,
    method: Seq<char>,
    first: H,
    second: H,
)
    requires
        services.dom().finite(),
    ensures
        registered(registered(services, path, method, first), path, method, second) == registered(
            services,
            path,
            method,
            second,
        ),
        resolved(
            registered(registered(services, path, method, first), path, method, second),
            path,
            method,
        ) == Some(second),
        registered(registered(services, path, method, first), path, method, second).len()
            == registered(services, path, method, first).len(),
{
    let once = registered(services, path, method, first);
    let twice = registered(once, path, method, second);
    assert(twice =~= registered(services, path, method, second));
    assert(twice.dom() =~= once.dom());
}

} // verus!

//! The typed handler adapter.
//!
//! A service is a function from typed arguments to a typed reply. A handler
//! works on bytes. The adapter makes the one from the other: it reads the
//! arguments from the payload in the request's format, calls the service, and
//! writes the reply in the same format. Arguments that cannot be read are the
//! handler's error; the service is then not called.

use crate::envelope::SerializeFormat;
use crate::error::ServerError;
use vstd::prelude::*;
use vstd::slice::slice_to_vec;

verus! {

/// A value that can be read from and written to a payload.
pub trait Param: Sized {
    /// Reads a value from `data`, which is serialised in the format `st`.
    fn from_slice(st: SerializeFormat, data: &[u8]) -> Result<Self, ServerError>;

    /// Writes the value in the format `st`.
    fn into_bytes(&self, st: SerializeFormat) -> Result<Vec<u8>, ServerError>;
}

/// Raw bytes stand for themselves in every format.
impl Param for Vec<u8> {
    fn from_slice(st: SerializeFormat, data: &[u8]) -> (r: Result<Self, ServerError>)
        ensures
            r matches Ok(v) && v@ == data@,
    {
        Ok(slice_to_vec(data))
    }

    fn into_bytes(&self, st: SerializeFormat) -> (r: Result<Vec<u8>, ServerError>)
        ensures
            r matches Ok(bytes) && bytes@ == self@,
    {
        Ok(self.clone())
    }
}

/// Whether `service` may be called on every value of its argument type.
pub open spec fn serves_all<A, R, F: Fn(A) -> R>(service: F) -> bool {
    forall|args: A| call_requires(service, (args,))
}

/// What a call of the adapted `service` on `payload` in `format` may return,
/// given what reading the arguments returned: the reading's error, or what
/// writing one of the service's replies to the arguments returns.
pub open spec fn typed_result<A: Param, R: Param, F: Fn(A) -> R>(
    service: F,
    format: SerializeFormat,
    decoded: Result<A, ServerError>,
    r: Result<Vec<u8>, ServerError>,
) -> bool {
    match decoded {
        Err(e) => r == Err::<Vec<u8>, ServerError>(e),
        Ok(args) => exists|reply: R|
            {
                &&& #[trigger] call_ensures(service, (args,), reply)
                &&& call_ensures(R::into_bytes, (&reply, format), r)
            },
    }
}

/// Calls the typed `service` as a handler: on the arguments read from
/// `payload` in `format`, returning its reply written in `format`.
pub fn call_typed<A, R, F>(service: &F, payload: &[u8], format: SerializeFormat) -> (r: Result<
    Vec<u8>,
    ServerError,
>) where A: Param, R: Param, F: Fn(A) -> R
    requires
        serves_all::<A, R, F>(*service),
    ensures
        exists|decoded: Result<A, ServerError>|
            {
                &&& #[trigger] call_ensures(A::from_slice, (format, payload), decoded)
                &&& typed_result::<A, R, F>(*service, format, decoded, r)
            },
{
    let decode = A::from_slice;
    let decoded = decode(format, payload);
    match decoded {
        Err(e) => Err(e),
        Ok(args) => {
            let reply = service(args);
            let encode = R::into_bytes;
            encode(&reply, format)
        },
    }
}

} // verus!

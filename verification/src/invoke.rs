//! The request invoker: from a request and its handler to the frame that
//! answers it.
//!
//! A handler takes the request's payload and serialisation format and returns
//! the reply's payload or an error. Its payload goes into the response as it
//! is; its error goes into the response's metadata, under the service error
//! key, so that the peer always gets an answer.

use crate::envelope::{
    answerable, error_reply_of, format_of_code, frame_of, law_reply_answers_its_request,
    payload_reply_of, reply_of, serialize_code, Envelope, EnvelopeView, SerializeFormat,
};
use crate::error::ServerError;
use crate::protocol::{protocol_encode, service_error_key};
use vstd::prelude::*;

verus! {

/// Whether `f` may be called on every payload in every format.
pub open spec fn accepts_all<H: Fn(&[u8], SerializeFormat) -> Result<Vec<u8>, ServerError>>(
    f: H,
) -> bool {
    forall|payload: &[u8], format: SerializeFormat| call_requires(f, (payload, format))
}

/// The format that an answerable header names.
pub open spec fn format_of(header: Seq<u8>) -> SerializeFormat {
    match format_of_code(serialize_code(header)) {
        Some(format) => format,
        None => SerializeFormat::SerializeNone,
    }
}

/// The response to `req` once its handler has returned `outcome`: with the
/// handler's payload, or with the handler's error text as the service error.
pub open spec fn completed_reply_of(req: EnvelopeView, outcome: Result<Vec<u8>, ServerError>)
    -> EnvelopeView {
    match outcome {
        Ok(payload) => payload_reply_of(req, payload@),
        Err(e) => error_reply_of(req, e.message@),
    }
}

/// Whatever a handler returned, the response answers to the request: it
/// names the same path and method and carries the same sequence bytes. A
/// payload comes without metadata; an error comes as the one metadata entry,
/// without payload.
pub proof fn law_completed_reply_answers_its_request(
    req: EnvelopeView,
    outcome: Result<Vec<u8>, ServerError>,
)
    requires
        req.header.len() == 12,
    ensures
        completed_reply_of(req, outcome).header == reply_of(req).header,
        completed_reply_of(req, outcome).service_path == req.service_path,
        completed_reply_of(req, outcome).service_method == req.service_method,
        completed_reply_of(req, outcome).header.subrange(4, 12) == req.header.subrange(4, 12),
        outcome matches Ok(payload) ==> completed_reply_of(req, outcome).payload == payload@
            && completed_reply_of(req, outcome).metadata.len() == 0,
        outcome matches Err(e) ==> completed_reply_of(req, outcome).payload.len() == 0
            && completed_reply_of(req, outcome).metadata == seq![(service_error_key(), e.message@)],
{
    law_reply_answers_its_request(req);
}

/// The response to `request` for a handler that returned `outcome`, or `None`
/// where the request cannot be answered.
pub fn complete_reply(request: &Envelope, outcome: Result<Vec<u8>, ServerError>) -> (r: Option<
    Envelope,
>)
    ensures
        match r {
            Some(reply) => answerable(request.header@) && reply@ == completed_reply_of(
                request@,
                outcome,
            ),
            None => !answerable(request.header@),
        },
{
    match outcome {
        Ok(payload) => request.payload_reply(payload),
        Err(e) => request.error_reply(e.message),
    }
}

/// Runs the handler `f` on the request and returns the frame of the
/// response, or `None`, without calling `f`, where the request cannot be
/// answered. The handler gets the request's payload and the format that its
/// header names; the frame is that of the response completed with whatever
/// the handler returned.
pub fn invoke_fn<H>(msg: &Envelope, f: &H) -> (r: Option<Vec<u8>>) where
    H: Fn(&[u8], SerializeFormat) -> Result<Vec<u8>, ServerError>,

    requires
        accepts_all(*f),
    ensures
        match r {
            Some(frame) => answerable(msg.header@) && exists|
                payload: &[u8],
                outcome: Result<Vec<u8>, ServerError>,
            |
                {
                    &&& payload@ == msg.payload@
                    &&& #[trigger] call_ensures(*f, (payload, format_of(msg.header@)), outcome)
                    &&& frame@ == frame_of(completed_reply_of(msg@, outcome))
                },
            None => !answerable(msg.header@),
        },
{
    if !msg.is_answerable() {
        return None;
    }
    let format = msg.serialize_format().unwrap();
    let payload = msg.payload.as_slice();
    let outcome = f(payload, format);
    let reply = match outcome {
        Ok(bytes) => msg.answer_with_payload(bytes),
        Err(e) => msg.answer_with_error(e.message),
    };
    Some(protocol_encode(&reply))
}

} // verus!

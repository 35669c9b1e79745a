//! The calls into the wire protocol crate.
//!
//! Nothing here is proved: each function below hands an envelope's parts to
//! `rpcx_protocol` and states, as its contract, what that crate's source shows
//! of the result. The rest of the library is verified against these
//! contracts.

use crate::envelope::{
    answerable, encodable, format_of_code, reply_of, serialize_code, Envelope, SerializeFormat,
};
use rpcx_protocol::{Message, RpcxMessage, SerializeType, SERVICE_ERROR};
use std::cell::RefCell;
use vstd::prelude::*;

verus! {

/// The frame that `RpcxMessage::encode` returns for a message with these
/// parts.
///
/// Only messages with at most one metadata entry have their frames named:
/// with more entries the order in which they are written is not fixed.
pub uninterp spec fn encoded_frame(
    header: Seq<u8>,
    service_path: Seq<char>,
    service_method: Seq<char>,
    metadata: Seq<(Seq<char>, Seq<char>)>,
    payload: Seq<u8>,
) -> Seq<u8>;

/// The metadata key under which a response reports a service error.
pub open spec fn service_error_key() -> Seq<char> {
    "__rpcx_error__"@
}

/// Reads the constant `rpcx_protocol::SERVICE_ERROR`, whose text is
/// `__rpcx_error__`.
#[verifier::external_body]
pub(crate) fn protocol_error_key() -> (key: String)
    ensures
        key@ == service_error_key(),
{
    SERVICE_ERROR.to_string()
}

/// Calls `RpcxMessage::get_serialize_type` on a message with this header. It
/// reads the high half of the fourth byte and returns the format with that
/// number, or nothing where the number is above 4.
#[verifier::external_body]
pub(crate) fn protocol_serialize_type(header: &[u8; 12]) -> (format: Option<SerializeFormat>)
    ensures
        format == format_of_code(serialize_code(header@)),
{
    let mut msg = Message::new();
    msg.header = *header;
    match msg.get_serialize_type() {
        Some(SerializeType::SerializeNone) => Some(SerializeFormat::SerializeNone),
        Some(SerializeType::JSON) => Some(SerializeFormat::JSON),
        Some(SerializeType::Protobuf) => Some(SerializeFormat::Protobuf),
        Some(SerializeType::MsgPack) => Some(SerializeFormat::MsgPack),
        Some(SerializeType::Thrift) => Some(SerializeFormat::Thrift),
        None => None,
    }
}

/// Calls `Message::get_reply` on a message with the request's header, path
/// and method (it reads nothing else). It unwraps the header's compression
/// and serialisation types, hence the precondition, and then always returns
/// a message: a fresh one with the version, both types and the sequence
/// number copied over, marked as a response of normal status, with the same
/// path and method, and with neither metadata nor payload.
#[verifier::external_body]
pub(crate) fn protocol_reply(req: &Envelope) -> (reply: Envelope)
    requires
        answerable(req.header@),
    ensures
        reply@ == reply_of(req@),
{
    let mut msg = Message::new();
    msg.header = req.header;
    msg.service_path = req.service_path.clone();
    msg.service_method = req.service_method.clone();
    let reply = msg.get_reply().unwrap();
    Envelope {
        header: reply.header,
        service_path: reply.service_path,
        service_method: reply.service_method,
        metadata: reply.metadata.into_inner().into_iter().collect(),
        payload: reply.payload,
    }
}

/// Calls `RpcxMessage::encode` on a message with the envelope's parts. It
/// unwraps the header's compression type, hence the precondition. The frame
/// starts with the twelve header bytes; what follows is a function of the
/// parts as long as the metadata entries, which are written in the order in
/// which a hash map yields them, are at most one.
#[verifier::external_body]
pub(crate) fn protocol_encode(env: &Envelope) -> (frame: Vec<u8>)
    requires
        encodable(env.header@),
    ensures
        frame@.len() >= 12,
        frame@.subrange(0, 12) == env.header@,
        env.metadata@.len() <= 1 ==> frame@ == encoded_frame(
            env@.header,
            env@.service_path,
            env@.service_method,
            env@.metadata,
            env@.payload,
        ),
{
    let mut msg = Message::new();
    msg.header = env.header;
    msg.service_path = env.service_path.clone();
    msg.service_method = env.service_method.clone();
    msg.metadata = RefCell::new(env.metadata.iter().cloned().collect());
    msg.payload = env.payload.clone();
    msg.encode()
}

} // verus!

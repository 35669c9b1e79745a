//! The message envelope: one request or one response, as plain values.
//!
//! An envelope holds what a protocol message holds: the twelve header bytes,
//! the service path and method, the metadata entries and the payload. The
//! header packs several small fields; the two that decide whether a message
//! can be answered and written out are the compression code and the
//! serialisation code.

use crate::protocol::{
    encoded_frame, protocol_encode, protocol_error_key, protocol_reply, protocol_serialize_type,
    service_error_key,
};
use vstd::prelude::*;

verus! {

/// How a payload is serialised.
#[derive(Clone, Copy, Debug, PartialEq, Eq, Structural)]
pub enum SerializeFormat {
    SerializeNone,
    JSON,
    Protobuf,
    MsgPack,
    Thrift,
}

/// The format that a serialisation code stands for, if any.
pub open spec fn format_of_code(code: u8) -> Option<SerializeFormat> {
    if code == 0 {
        Some(SerializeFormat::SerializeNone)
    } else if code == 1 {
        Some(SerializeFormat::JSON)
    } else if code == 2 {
        Some(SerializeFormat::Protobuf)
    } else if code == 3 {
        Some(SerializeFormat::MsgPack)
    } else if code == 4 {
        Some(SerializeFormat::Thrift)
    } else {
        None
    }
}

/// The compression code of a header: bits 2 to 4 of its third byte.
pub open spec fn compress_code(header: Seq<u8>) -> u8 {
    (header[2] & 0x1C) >> 2
}

/// The serialisation code of a header: the high half of its fourth byte.
pub open spec fn serialize_code(header: Seq<u8>) -> u8 {
    (header[3] & 0xF0) >> 4
}

/// A header can be written out when its compression code is a known one
/// (0, none, or 1, gzip).
pub open spec fn encodable(header: Seq<u8>) -> bool {
    header.len() == 12 && compress_code(header) <= 1
}

/// A header can be answered when, besides, its serialisation code is a known
/// one (0 to 4).
pub open spec fn answerable(header: Seq<u8>) -> bool {
    encodable(header) && serialize_code(header) <= 4
}

/// The header of the response to a request with header `h`: the magic byte,
/// the request's version, a third byte that says "response, normal status"
/// and keeps the compression code, a fourth byte that keeps the
/// serialisation code only, and the request's eight sequence bytes.
pub open spec fn reply_header(h: Seq<u8>) -> Seq<u8> {
    seq![
        0x08u8,
        h[1],
        (h[2] & 0x1C) | 0x80,
        h[3] & 0xF0,
        h[4],
        h[5],
        h[6],
        h[7],
        h[8],
        h[9],
        h[10],
        h[11],
    ]
}

/// One metadata entry as a pair of character sequences.
pub open spec fn entry_view(entry: (String, String)) -> (Seq<char>, Seq<char>) {
    (entry.0@, entry.1@)
}

/// What an envelope holds, as mathematical values.
pub struct EnvelopeView {
    pub header: Seq<u8>,
    pub service_path: Seq<char>,
    pub service_method: Seq<char>,
    pub metadata: Seq<(Seq<char>, Seq<char>)>,
    pub payload: Seq<u8>,
}

/// The empty response to `req`: it answers to the same path, method and
/// sequence number, and carries neither metadata nor payload.
pub open spec fn reply_of(req: EnvelopeView) -> EnvelopeView {
    EnvelopeView {
        header: reply_header(req.header),
        service_path: req.service_path,
        service_method: req.service_method,
        metadata: Seq::empty(),
        payload: Seq::empty(),
    }
}

/// The response to `req` that reports `text` as a service error: the empty
/// response with one metadata entry, the error key with the text.
pub open spec fn error_reply_of(req: EnvelopeView, text: Seq<char>) -> EnvelopeView {
    EnvelopeView { metadata: seq![(service_error_key(), text)], ..reply_of(req) }
}

/// The response to `req` that carries `payload`.
pub open spec fn payload_reply_of(req: EnvelopeView, payload: Seq<u8>) -> EnvelopeView {
    EnvelopeView { payload: payload, ..reply_of(req) }
}

/// The bytes that the protocol writes for an envelope; see [`encoded_frame`].
pub open spec fn frame_of(e: EnvelopeView) -> Seq<u8> {
    encoded_frame(e.header, e.service_path, e.service_method, e.metadata, e.payload)
}

/// A request or a response.
#[derive(Debug, PartialEq, Eq)]
pub struct Envelope {
    pub header: [u8; 12],
    pub service_path: String,
    pub service_method: String,
    pub metadata: Vec<(String, String)>,
    pub payload: Vec<u8>,
}

impl View for Envelope {
    type V = EnvelopeView;

    open spec fn view(&self) -> EnvelopeView {
        EnvelopeView {
            header: self.header@,
            service_path: self.service_path@,
            service_method: self.service_method@,
            metadata: self.metadata@.map_values(|e: (String, String)| entry_view(e)),
            payload: self.payload@,
        }
    }
}

/// The response to an answerable request can itself be written out and
/// answered, with the request's compression and serialisation codes.
pub proof fn lemma_reply_header_keeps_codes(h: Seq<u8>)
    requires
        h.len() == 12,
    ensures
        reply_header(h).len() == 12,
        compress_code(reply_header(h)) == compress_code(h),
        serialize_code(reply_header(h)) == serialize_code(h),
        answerable(h) ==> answerable(reply_header(h)),
        encodable(h) ==> encodable(reply_header(h)),
{
    let b2: u8 = h[2];
    let b3: u8 = h[3];
    assert((((b2 & 0x1C) | 0x80) & 0x1C) >> 2 == (b2 & 0x1C) >> 2) by (bit_vector);
    assert(((b3 & 0xF0) & 0xF0) >> 4 == (b3 & 0xF0) >> 4) by (bit_vector);
}

/// A response answers to its request: it names the same path and method,
/// carries the same sequence bytes, and is marked as a response.
pub proof fn law_reply_answers_its_request(req: EnvelopeView)
    requires
        req.header.len() == 12,
    ensures
        reply_of(req).service_path == req.service_path,
        reply_of(req).service_method == req.service_method,
        reply_of(req).header.subrange(4, 12) == req.header.subrange(4, 12),
        reply_of(req).header[2] & 0x80 == 0x80,
        reply_of(req).header[1] == req.header[1],
{
    let b2: u8 = req.header[2];
    assert(((b2 & 0x1C) | 0x80) & 0x80 == 0x80) by (bit_vector);
}

impl Clone for Envelope {
    fn clone(&self) -> (copy: Envelope)
        ensures
            copy@ == self@,
    {
        let mut metadata: Vec<(String, String)> = Vec::new();
        let mut i: usize = 0;
        while i < self.metadata.len()
            invariant
                i <= self.metadata@.len(),
                metadata@.len() == i,
                forall|j: int|
                    0 <= j < i ==> entry_view(metadata@[j]) == entry_view(self.metadata@[j]),
            decreases self.metadata@.len() - i,
        {
            let entry = &self.metadata[i];
            metadata.push((entry.0.clone(), entry.1.clone()));
            i = i + 1;
        }
        let copy = Envelope {
            header: self.header,
            service_path: self.service_path.clone(),
            service_method: self.service_method.clone(),
            metadata,
            payload: self.payload.clone(),
        };
        assert(copy@.metadata =~= self@.metadata);
        copy
    }
}

impl Envelope {
    /// Whether the header's compression code is a known one, so that the
    /// envelope can be written out.
    pub fn is_encodable(&self) -> (b: bool)
        ensures
            b == encodable(self.header@),
    {
        (self.header[2] & 0x1C) >> 2 <= 1
    }

    /// Whether the header's compression and serialisation codes are known
    /// ones, so that the envelope can be answered.
    pub fn is_answerable(&self) -> (b: bool)
        ensures
            b == answerable(self.header@),
    {
        (self.header[2] & 0x1C) >> 2 <= 1 && (self.header[3] & 0xF0) >> 4 <= 4
    }

    /// The serialisation format that the header names, if it names one.
    pub fn serialize_format(&self) -> (format: Option<SerializeFormat>)
        ensures
            format == format_of_code(serialize_code(self.header@)),
            answerable(self.header@) ==> format is Some,
    {
        protocol_serialize_type(&self.header)
    }

    /// The empty response to this request, or `None` where the request cannot
    /// be answered.
    pub fn reply(&self) -> (r: Option<Envelope>)
        ensures
            match r {
                Some(reply) => answerable(self.header@) && reply@ == reply_of(self@),
                None => !answerable(self.header@),
            },
    {
        if self.is_answerable() {
            Some(protocol_reply(self))
        } else {
            None
        }
    }

    /// The response to an answerable request that reports `text` as a
    /// service error. It has one metadata entry and can be written out.
    pub(crate) fn answer_with_error(&self, text: String) -> (reply: Envelope)
        requires
            answerable(self.header@),
        ensures
            reply@ == error_reply_of(self@, text@),
            reply.metadata@.len() == 1,
            encodable(reply.header@),
    {
        let mut reply = protocol_reply(self);
        // The empty response has no entry, as its view has none.
        assert(reply.metadata@.len() == reply@.metadata.len());
        reply.metadata.push((protocol_error_key(), text));
        proof {
            assert(reply@.metadata =~= seq![(service_error_key(), text@)]);
            lemma_reply_header_keeps_codes(self.header@);
        }
        reply
    }

    /// The response to an answerable request that carries `payload`. It has
    /// no metadata and can be written out.
    pub(crate) fn answer_with_payload(&self, payload: Vec<u8>) -> (reply: Envelope)
        requires
            answerable(self.header@),
        ensures
            reply@ == payload_reply_of(self@, payload@),
            reply.metadata@.len() == 0,
            encodable(reply.header@),
    {
        let mut reply = protocol_reply(self);
        // The empty response has no entry, as its view has none.
        assert(reply.metadata@.len() == reply@.metadata.len());
        reply.payload = payload;
        proof {
            lemma_reply_header_keeps_codes(self.header@);
        }
        reply
    }

    /// The response that reports `text` as a service error, or `None` where
    /// the request cannot be answered.
    pub fn error_reply(&self, text: String) -> (r: Option<Envelope>)
        ensures
            match r {
                Some(reply) => answerable(self.header@) && reply@ == error_reply_of(self@, text@),
                None => !answerable(self.header@),
            },
    {
        if self.is_answerable() {
            Some(self.answer_with_error(text))
        } else {
            None
        }
    }

    /// The response that carries `payload`, or `None` where the request
    /// cannot be answered.
    pub fn payload_reply(&self, payload: Vec<u8>) -> (r: Option<Envelope>)
        ensures
            match r {
                Some(reply) => answerable(self.header@) && reply@ == payload_reply_of(
                    self@,
                    payload@,
                ),
                None => !answerable(self.header@),
            },
    {
        if self.is_answerable() {
            Some(self.answer_with_payload(payload))
        } else {
            None
        }
    }

    /// The frame to put on the wire for this envelope, or `None` where its
    /// compression code is not a known one. The frame starts with the header;
    /// with at most one metadata entry it is the protocol's frame for the
    /// envelope's parts.
    pub fn encode(&self) -> (r: Option<Vec<u8>>)
        ensures
            match r {
                Some(frame) => {
                    &&& encodable(self.header@)
                    &&& frame@.len() >= 12
                    &&& frame@.subrange(0, 12) == self.header@
                    &&& self.metadata@.len() <= 1 ==> frame@ == frame_of(self@)
                },
                None => !encodable(self.header@),
            },
    {
        if self.is_encodable() {
            Some(protocol_encode(self))
        } else {
            None
        }
    }
}

impl SerializeFormat {
    /// The code that stands for this format in a header.
    pub open spec fn spec_code(self) -> u8 {
        match self {
            SerializeFormat::SerializeNone => 0,
            SerializeFormat::JSON => 1,
            SerializeFormat::Protobuf => 2,
            SerializeFormat::MsgPack => 3,
            SerializeFormat::Thrift => 4,
        }
    }

    /// The code that stands for this format in a header.
    pub fn code(self) -> (c: u8)
        ensures
            c == self.spec_code(),
            format_of_code(c) == Some(self),
    {
        match self {
            SerializeFormat::SerializeNone => 0,
            SerializeFormat::JSON => 1,
            SerializeFormat::Protobuf => 2,
            SerializeFormat::MsgPack => 3,
            SerializeFormat::Thrift => 4,
        }
    }
}

} // verus!

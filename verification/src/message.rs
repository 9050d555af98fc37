//! Outbound messages: a destination address and a bounds-checked payload
//! buffer that never exceeds the wire capacity of one datagram.

use vstd::prelude::*;
use vstd::string::StrSliceExecFns;
use vstd::utf8::encode_utf8;

verus! {

/// Capacity of one outbound datagram payload, in bytes.
pub const MSG_CAPACITY: usize = 1024;

/// A peer's address: an IPv4 address as four octets, and a UDP port.
#[derive(Clone, Copy, Debug, PartialEq, Eq)]
pub struct PeerAddr {
    pub ip: [u8; 4],
    pub port: u16,
}

/// Why an outbound message could not be built.
#[derive(Clone, Copy, Debug, PartialEq, Eq, Structural)]
pub enum MessageError {
    /// The payload would exceed `MSG_CAPACITY` bytes.
    PayloadTooLong,
}

/// An outbound message: destination plus at most `MSG_CAPACITY` payload bytes.
#[derive(Debug)]
pub struct Message {
    dst: PeerAddr,
    payload: Vec<u8>,
}

impl Message {
    /// The destination address, as seen by contracts.
    pub closed spec fn spec_dst(&self) -> PeerAddr {
        self.dst
    }

    /// The payload bytes, as seen by contracts.
    pub closed spec fn spec_payload(&self) -> Seq<u8> {
        self.payload@
    }

    #[verifier::type_invariant]
    spec fn inv(self) -> bool {
        self.payload@.len() <= MSG_CAPACITY
    }

    /// Builds a message, refusing a payload over `MSG_CAPACITY` bytes.
    pub fn new(dst: PeerAddr, payload: Vec<u8>) -> (r: Result<Message, MessageError>)
        ensures
            payload@.len() <= MSG_CAPACITY <==> r is Ok,
            r matches Ok(m) ==> m.spec_dst() == dst && m.spec_payload() == payload@,
            r matches Err(e) ==> e == MessageError::PayloadTooLong,
    {
        if payload.len() <= MSG_CAPACITY {
            Ok(Message { dst, payload })
        } else {
            Err(MessageError::PayloadTooLong)
        }
    }

    /// Builds a message whose payload is the UTF-8 encoding of `text`,
    /// refusing a text whose encoding is over `MSG_CAPACITY` bytes.
    pub fn from_text(dst: PeerAddr, text: &str) -> (r: Result<Message, MessageError>)
        ensures
            encode_utf8(text@).len() <= MSG_CAPACITY <==> r is Ok,
            r matches Ok(m) ==> m.spec_dst() == dst && m.spec_payload() == encode_utf8(text@),
            r matches Err(e) ==> e == MessageError::PayloadTooLong,
    {
        let payload = text.as_bytes_vec();
        Message::new(dst, payload)
    }

    /// The destination address.
    pub fn dst(&self) -> (r: PeerAddr)
        ensures
            r == self.spec_dst(),
    {
        self.dst
    }

    /// The valid payload bytes; never longer than `MSG_CAPACITY`.
    pub fn payload(&self) -> (r: &Vec<u8>)
        ensures
            r@ == self.spec_payload(),
            r@.len() <= MSG_CAPACITY,
    {
        proof {
            use_type_invariant(&*self);
        }
        &self.payload
    }

    /// The number of valid payload bytes; never more than `MSG_CAPACITY`.
    pub fn len(&self) -> (r: usize)
        ensures
            r == self.spec_payload().len(),
            r <= MSG_CAPACITY,
    {
        proof {
            use_type_invariant(&*self);
        }
        self.payload.len()
    }
}

} // verus!

//! Status-protocol wire encoding and decoding, through the `rosc` crate.
//! The library builds and reads plain values; only the wire format itself
//! is entrusted to `rosc`.

use vstd::prelude::*;
use vstd::string::StrSliceExecFns;
use vstd::string::StringSliceAdditionalSpecFns;
use crate::router::{InboundMessage, InboundMessageView, OscArg};

verus! {

/// The wire bytes of a status message with the given address bytes and one
/// integer argument.  `rosc::encoder::encode` computes them from these two
/// values alone.
pub uninterp spec fn osc_encoded(addr: Seq<u8>, value: int) -> Seq<u8>;

/// Relies on rosc's `encoder::encode`: encoding a single message with one
/// integer argument never fails and its bytes are a function of the
/// address bytes and the argument alone.
#[verifier::external_body]
pub(crate) fn encode_status(addr: &Vec<u8>, value: i32) -> (r: Vec<u8>)
    ensures
        r@ == osc_encoded(addr@, value as int),
{
    let addr_string = String::from_utf8_lossy(addr).into_owned();
    let packet = rosc::OscPacket::Message(rosc::OscMessage {
        addr: addr_string,
        args: vec![rosc::OscType::Int(value)],
    });
    match rosc::encoder::encode(&packet) {
        Ok(bytes) => bytes,
        Err(_) => Vec::new(),
    }
}

/// The message a datagram's bytes decode to, if they parse as a single
/// message.  `rosc::decoder::decode_udp` is a pure parse, so the result is
/// a function of the datagram bytes alone; bundles and malformed
/// datagrams decode to nothing.
pub uninterp spec fn osc_decoded(dgram: Seq<u8>) -> Option<InboundMessageView>;

/// Relies on rosc's `decoder::decode_udp`: a datagram that parses as a
/// single message yields its address (always starting with a separator,
/// hence nonempty) and its arguments in order; bundles and malformed
/// datagrams yield nothing.  Integer and string arguments keep their
/// values; arguments of other kinds keep only their positions.
#[verifier::external_body]
pub(crate) fn decode_datagram(buf: &[u8]) -> (r: Option<InboundMessage>)
    ensures
        r matches Some(m) ==> osc_decoded(buf@) == Some(m@) && m.addr@.len() > 0,
        r is None ==> osc_decoded(buf@) is None,
{
    match rosc::decoder::decode_udp(buf) {
        Ok((_, rosc::OscPacket::Message(m))) => Some(InboundMessage {
            addr: m.addr.into_bytes(),
            args: m.args.into_iter().map(|a| match a {
                rosc::OscType::Int(i) => OscArg::Int(i),
                rosc::OscType::String(s) => OscArg::Str(s),
                _ => OscArg::Other,
            }).collect(),
        }),
        _ => None,
    }
}

/// The address bytes of an outbound status message: the namespace prefix
/// followed by the path tail.
pub open spec fn spec_status_addr(tail: Seq<u8>) -> Seq<u8> {
    "/maschine/".spec_bytes() + tail
}

/// Builds an outbound status address from a path tail.
pub fn status_addr(tail: &[u8]) -> (r: Vec<u8>)
    ensures
        r@ == spec_status_addr(tail@),
{
    let mut out = "/maschine/".as_bytes_vec();
    let mut i: usize = 0;
    while i < tail.len()
        invariant
            i <= tail@.len(),
            out@ == "/maschine/".spec_bytes() + tail@.subrange(0, i as int),
        decreases tail@.len() - i,
    {
        out.push(tail[i]);
        proof {
            assert(out@ =~= "/maschine/".spec_bytes() + tail@.subrange(0, i as int + 1));
        }
        i = i + 1;
    }
    proof {
        assert(tail@.subrange(0, tail@.len() as int) =~= tail@);
    }
    out
}

} // verus!

use vstd::prelude::*;

use crate::errors::Error;

verus! {

/// The packets decoded from one RTCP datagram, held as the packet codec
/// produced them; this layer passes them through without reading them.
#[verifier::external_body]
#[derive(Debug)]
pub struct RtcpPacketList {
    pub packets: Vec<Box<dyn rtcp::packet::Packet + Send + Sync>>,
}

/// Whether the RTCP packet codec accepts these bytes as a datagram of
/// well-formed packets; the outcome depends on the bytes alone.
pub uninterp spec fn rtcp_parse_ok(data: Seq<u8>) -> bool;

/// Relies on rtcp::packet::unmarshal: splits a datagram into its RTCP
/// packets; whether it succeeds is a function of the bytes alone, and an
/// empty input is always refused.
#[verifier::external_body]
fn unmarshal_rtcp(data: &[u8]) -> (r: Result<RtcpPacketList, String>)
    ensures
        r is Ok <==> rtcp_parse_ok(data@),
        data@.len() == 0 ==> r is Err,
{
    let mut buf: &[u8] = data;
    match rtcp::packet::unmarshal(&mut buf) {
        Ok(packets) => Ok(RtcpPacketList { packets }),
        Err(e) => Err(format!("{e}")),
    }
}

/// Decodes the first `n` bytes of a read buffer — the part one RTCP read
/// filled — into packets, reporting the codec's failures as unmarshal
/// errors.
pub fn parse_rtcp(buf: &Vec<u8>, n: usize) -> (r: Result<RtcpPacketList, Error>)
    requires
        n <= buf@.len(),
    ensures
        r is Ok <==> rtcp_parse_ok(buf@.take(n as int)),
        r matches Err(e) ==> e is ErrRtcpUnmarshal,
        n == 0 ==> r is Err,
{
    let data = vstd::slice::slice_subrange(buf.as_slice(), 0, n);
    match unmarshal_rtcp(data) {
        Ok(packets) => Ok(packets),
        Err(msg) => Err(Error::ErrRtcpUnmarshal(msg)),
    }
}

} // verus!

//! The fixed 48-byte request and reply records.

use vstd::prelude::*;
use byteorder::{BigEndian, ByteOrder};
use crate::cache::{TimeCache, is_clock_reading};
use crate::calendar::true_seconds_at;

verus! {

/// Length of a request and of a reply, in bytes.
pub const PACKET_LEN: usize = 48;

/// Leap indicator of every reply: no warning.
pub const LEAP_INDICATOR: u8 = 0;

/// Protocol version of every reply.
pub const VERSION: u8 = 4;

/// Mode of every reply: server.
pub const MODE_SERVER: u8 = 4;

/// First byte of every reply: leap indicator 0 in its two high bits,
/// version 4 in the next three, mode 4 (server) in its three low bits.
pub const HEADER_BYTE: u8 = 0x24;

/// The first byte of a packet with these three fields: two bits of leap
/// indicator, three of version, three of mode, from the high end.
pub open spec fn header_byte_of(leap: int, version: int, mode: int) -> int
    recommends
        0 <= leap < 4,
        0 <= version < 8,
        0 <= mode < 8,
{
    leap * 64 + version * 8 + mode
}

/// Stratum of every reply: serving, but not synchronised.
pub const STRATUM: u8 = 15;

/// Poll interval exponent of every reply.
pub const POLL: u8 = 6;

/// Precision exponent of every reply: -20 as a signed byte.
pub const PRECISION: u8 = 0xEC;

/// Root delay and root dispersion of every reply: one second in 16.16 fixed
/// point.
pub const ROOT_FIXED: u32 = 0x0001_0000;

/// First byte of the reference identifier; the other three are zero.
pub const REFERENCE_TAG: u8 = 0x4D;

/// The four bytes of `n`, most significant first.
pub open spec fn be_bytes(n: u32) -> Seq<u8> {
    seq![
        (n / 0x100_0000) as u8,
        ((n / 0x1_0000) % 0x100) as u8,
        ((n / 0x100) % 0x100) as u8,
        (n % 0x100) as u8,
    ]
}

/// The eight bytes of a request that the reply must echo: its transmit
/// timestamp, bytes 40 to 47.
pub open spec fn origin_of(request: Seq<u8>) -> Seq<u8>
    recommends
        request.len() >= 48,
{
    request.subrange(40, 48)
}

/// A timestamp field holding `seconds` whole seconds and no fraction.
pub open spec fn timestamp_field(seconds: u32) -> Seq<u8> {
    be_bytes(seconds) + be_bytes(0)
}

/// The reply to `request` when the true time is `seconds`.
pub open spec fn response_of(request: Seq<u8>, seconds: u32) -> Seq<u8>
    recommends
        request.len() >= 48,
{
    seq![HEADER_BYTE, STRATUM, POLL, PRECISION] + be_bytes(ROOT_FIXED) + be_bytes(ROOT_FIXED)
        + seq![REFERENCE_TAG, 0u8, 0u8, 0u8] + timestamp_field(seconds) + origin_of(request)
        + timestamp_field(seconds) + timestamp_field(seconds)
}

/// `byteorder::BigEndian::write_u32` on the four bytes of `buf` from `start`
/// up to `end`: they become the bytes of `n`, most significant first, and
/// every other byte of `buf` stays as it was.
#[verifier::external_body]
fn put_u32(buf: &mut [u8; 48], start: usize, end: usize, n: u32)
    requires
        end == start + 4,
        end <= 48,
    ensures
        final(buf)@ == old(buf)@.subrange(0, start as int) + be_bytes(n) + old(buf)@.subrange(
            end as int,
            48,
        ),
{
    BigEndian::write_u32(&mut buf[start..end], n)
}

/// Builds the reply to a request of at least 48 bytes.
pub fn build_response(request: &[u8], seconds: u32) -> (response: [u8; 48])
    requires
        request@.len() >= 48,
    ensures
        response@ == response_of(request@, seconds),
        response@.len() == 48,
        response@[0] == HEADER_BYTE,
        response@.subrange(24, 32) == request@.subrange(40, 48),
{
    let mut response: [u8; 48] = [0u8; 48];
    response[0] = HEADER_BYTE;
    response[1] = STRATUM;
    response[2] = POLL;
    response[3] = PRECISION;
    put_u32(&mut response, 4, 8, ROOT_FIXED);
    put_u32(&mut response, 8, 12, ROOT_FIXED);
    response[12] = REFERENCE_TAG;
    put_u32(&mut response, 16, 20, seconds);
    put_u32(&mut response, 20, 24, 0);
    let mut i: usize = 0;
    while i < 8
        invariant
            i <= 8,
            request@.len() >= 48,
            response@.len() == 48,
            forall|k: int| 0 <= k < 24 ==> response@[k] == response_of(request@, seconds)[k],
            forall|k: int| 24 <= k < 24 + i ==> response@[k] == request@[k + 16],
        decreases 8 - i,
    {
        response[24 + i] = request[40 + i];
        i += 1;
    }
    put_u32(&mut response, 32, 36, seconds);
    put_u32(&mut response, 36, 40, 0);
    put_u32(&mut response, 40, 44, seconds);
    put_u32(&mut response, 44, 48, 0);
    assert(response@ =~= response_of(request@, seconds));
    proof {
        lemma_response_shape(request@, seconds);
    }
    response
}

/// Answers one datagram: nothing for a payload shorter than 48 bytes, else
/// the reply built from its first 48 bytes and the true time `seconds`.
pub fn handle_datagram(payload: &[u8], seconds: u32) -> (reply: Option<[u8; 48]>)
    ensures
        payload@.len() < 48 ==> reply is None,
        payload@.len() >= 48 ==> (reply matches Some(response) && response@ == response_of(
            payload@,
            seconds,
        )),
        reply matches Some(response) ==> response@[0] == HEADER_BYTE && response@.subrange(24, 32)
            == payload@.subrange(40, 48),
{
    if payload.len() < PACKET_LEN {
        None
    } else {
        Some(build_response(payload, seconds))
    }
}

/// Serves one datagram from `cache`: nothing for a payload shorter than 48
/// bytes, else the reply built from the payload and the cache's true time
/// at some reading of the local clock. The program sends the reply to the
/// datagram's source.
pub fn handle_client(request: &[u8], cache: &TimeCache) -> (reply: Option<[u8; 48]>)
    ensures
        request@.len() < 48 <==> reply is None,
        reply matches Some(response) ==> exists|local: int|
            is_clock_reading(local) && response@ == response_of(
                request@,
                #[trigger] true_seconds_at(local, cache.held_offset()) as u32,
            ),
        reply matches Some(response) ==> response@[0] == HEADER_BYTE && response@.subrange(24, 32)
            == request@.subrange(40, 48),
{
    if request.len() < PACKET_LEN {
        None
    } else {
        handle_datagram(request, cache.get_ntp_timestamp())
    }
}

/// The fixed header byte packs leap indicator 0, version 4 and mode 4, and
/// each field reads back from its bits.
pub proof fn lemma_header_byte_fields()
    ensures
        HEADER_BYTE == header_byte_of(LEAP_INDICATOR as int, VERSION as int, MODE_SERVER as int),
        HEADER_BYTE == header_byte_of(0, 4, 4),
        HEADER_BYTE / 64 == LEAP_INDICATOR,
        (HEADER_BYTE / 8) % 8 == VERSION,
        HEADER_BYTE % 8 == MODE_SERVER,
{
}

/// Every reply is 48 bytes long, starts with the fixed header byte, carries
/// the fixed fields, the true time in its three timestamps and, as its
/// origin timestamp, bytes 40 to 47 of the request, whatever else the
/// request holds.
pub proof fn lemma_response_shape(request: Seq<u8>, seconds: u32)
    requires
        request.len() >= 48,
    ensures
        response_of(request, seconds).len() == 48,
        response_of(request, seconds)[0] == HEADER_BYTE,
        response_of(request, seconds)[1] == STRATUM,
        response_of(request, seconds)[2] == POLL,
        response_of(request, seconds)[3] == PRECISION,
        response_of(request, seconds).subrange(4, 8) == be_bytes(ROOT_FIXED),
        response_of(request, seconds).subrange(8, 12) == be_bytes(ROOT_FIXED),
        response_of(request, seconds).subrange(12, 16) == seq![REFERENCE_TAG, 0u8, 0u8, 0u8],
        response_of(request, seconds).subrange(16, 24) == timestamp_field(seconds),
        response_of(request, seconds).subrange(24, 32) == request.subrange(40, 48),
        response_of(request, seconds).subrange(32, 40) == timestamp_field(seconds),
        response_of(request, seconds).subrange(40, 48) == timestamp_field(seconds),
{
    let r = response_of(request, seconds);
    assert(r.subrange(4, 8) =~= be_bytes(ROOT_FIXED));
    assert(r.subrange(8, 12) =~= be_bytes(ROOT_FIXED));
    assert(r.subrange(12, 16) =~= seq![REFERENCE_TAG, 0u8, 0u8, 0u8]);
    assert(r.subrange(16, 24) =~= timestamp_field(seconds));
    assert(r.subrange(24, 32) =~= request.subrange(40, 48));
    assert(r.subrange(32, 40) =~= timestamp_field(seconds));
    assert(r.subrange(40, 48) =~= timestamp_field(seconds));
}

/// Two requests that agree on bytes 40 to 47 get the same reply at the same
/// true time: nothing else of a request is read.
pub proof fn lemma_only_origin_is_read(first: Seq<u8>, second: Seq<u8>, seconds: u32)
    requires
        first.len() >= 48,
        second.len() >= 48,
        first.subrange(40, 48) == second.subrange(40, 48),
    ensures
        response_of(first, seconds) == response_of(second, seconds),
{
}

/// However many requests are served, and at whatever true time each one is,
/// every reply is 48 bytes long, starts with the fixed header byte and
/// echoes the origin of its own request.
pub proof fn lemma_each_reply_answers_its_own_request(requests: Seq<Seq<u8>>, seconds: Seq<u32>)
    requires
        requests.len() == seconds.len(),
        forall|i: int| 0 <= i < requests.len() ==> (#[trigger] requests[i]).len() >= 48,
    ensures
        forall|i: int|
            0 <= i < requests.len() ==> {
                let reply = #[trigger] response_of(requests[i], seconds[i]);
                &&& reply.len() == 48
                &&& reply[0] == HEADER_BYTE
                &&& reply.subrange(24, 32) == requests[i].subrange(40, 48)
            },
{
    assert forall|i: int| 0 <= i < requests.len() implies {
        let reply = #[trigger] response_of(requests[i], seconds[i]);
        &&& reply.len() == 48
        &&& reply[0] == HEADER_BYTE
        &&& reply.subrange(24, 32) == requests[i].subrange(40, 48)
    } by {
        lemma_response_shape(requests[i], seconds[i]);
    }
}

/// The big-endian bytes of a number give the number back.
pub proof fn lemma_be_bytes_value(n: u32)
    ensures
        be_bytes(n).len() == 4,
        be_bytes(n)[0] * 0x100_0000 + be_bytes(n)[1] * 0x1_0000 + be_bytes(n)[2] * 0x100
            + be_bytes(n)[3] == n,
{
}

} // verus!

//! The persistent-memory image: a two-byte little-endian length header
//! followed by that many payload bytes (the encoded profile store).
use vstd::prelude::*;

verus! {

/// Bytes of the length header.
pub const HEADER_LEN: usize = 2;

/// Payload bytes reserved in persistent memory.
pub const PAYLOAD_CAPACITY: usize = 1000;

/// The payload length that a header of bytes `lo`, `hi` announces.
pub open spec fn header_value(lo: u8, hi: u8) -> nat {
    lo as nat + 256 * hi as nat
}

/// The image that holds `payload`.
pub open spec fn image_of(payload: Seq<u8>) -> Seq<u8> {
    seq![(payload.len() % 256) as u8, (payload.len() / 256) as u8] + payload
}

/// The payload read back from `image`, or `None` where the header is
/// missing, announces more than the reserved buffer, or more than the image holds.
pub open spec fn payload_of(image: Seq<u8>) -> Option<Seq<u8>> {
    if image.len() < HEADER_LEN {
        None
    } else {
        let n = header_value(image[0], image[1]);
        if n > PAYLOAD_CAPACITY || HEADER_LEN + n > image.len() {
            None
        } else {
            Some(image.subrange(HEADER_LEN as int, HEADER_LEN + n))
        }
    }
}

/// The payload length announced by a header, if it fits the reserved buffer.
pub fn payload_length(lo: u8, hi: u8) -> (r: Option<usize>)
    ensures
        header_value(lo, hi) <= PAYLOAD_CAPACITY ==> r == Some(header_value(lo, hi) as usize),
        header_value(lo, hi) > PAYLOAD_CAPACITY ==> r is None,
{
    let n: usize = lo as usize + 256 * (hi as usize);
    if n > PAYLOAD_CAPACITY {
        None
    } else {
        Some(n)
    }
}

/// Frames `payload` for persistent memory; `None` when it exceeds the reserved buffer.
pub fn encode_image(payload: &[u8]) -> (r: Option<Vec<u8>>)
    ensures
        payload@.len() <= PAYLOAD_CAPACITY ==> r is Some && r->Some_0@ == image_of(payload@),
        payload@.len() > PAYLOAD_CAPACITY ==> r is None,
{
    let n = payload.len();
    if n > PAYLOAD_CAPACITY {
        return None;
    }
    let mut out: Vec<u8> = Vec::new();
    out.push((n % 256) as u8);
    out.push((n / 256) as u8);
    let mut i: usize = 0;
    while i < n
        invariant
            n == payload@.len(),
            i <= n,
            out@ == seq![(n % 256) as u8, (n / 256) as u8] + payload@.subrange(0, i as int),
        decreases n - i,
    {
        out.push(payload[i]);
        proof {
            assert(payload@.subrange(0, i + 1) == payload@.subrange(0, i as int).push(payload@[i as int]));
        }
        i = i + 1;
    }
    proof {
        assert(payload@.subrange(0, n as int) == payload@);
    }
    Some(out)
}

/// Reads the payload back from an image; never reads past the reserved buffer.
pub fn decode_image(image: &[u8]) -> (r: Option<Vec<u8>>)
    ensures
        r matches Some(v) ==> payload_of(image@) == Some(v@),
        r is None ==> payload_of(image@) is None,
{
    if image.len() < HEADER_LEN {
        return None;
    }
    let n = match payload_length(image[0], image[1]) {
        Some(n) => n,
        None => return None,
    };
    if n > image.len() - HEADER_LEN {
        return None;
    }
    let mut out: Vec<u8> = Vec::new();
    let mut i: usize = 0;
    while i < n
        invariant
            i <= n,
            HEADER_LEN + n <= image@.len(),
            n <= PAYLOAD_CAPACITY,
            out@ == image@.subrange(HEADER_LEN as int, HEADER_LEN + i),
        decreases n - i,
    {
        out.push(image[HEADER_LEN + i]);
        proof {
            assert(image@.subrange(HEADER_LEN as int, HEADER_LEN + i + 1) == image@.subrange(
                HEADER_LEN as int,
                HEADER_LEN + i,
            ).push(image@[HEADER_LEN + i]));
        }
        i = i + 1;
    }
    Some(out)
}

/// Reading back an image gives the payload that was framed, for every payload
/// that fits the reserved buffer.
pub proof fn lemma_image_round_trip(payload: Seq<u8>)
    requires
        payload.len() <= PAYLOAD_CAPACITY,
    ensures
        payload_of(image_of(payload)) == Some(payload),
{
    let img = image_of(payload);
    let n = payload.len();
    assert(header_value(img[0], img[1]) == n) by {
        assert(img[0] == (n % 256) as u8);
        assert(img[1] == (n / 256) as u8);
    }
    assert(img.subrange(HEADER_LEN as int, HEADER_LEN + n) == payload);
}

/// A header that announces more than the reserved buffer never yields a
/// payload, whatever bytes follow it; the store restored at boot from no
/// payload is then the empty store (see `Profiles::restore`).
pub proof fn lemma_oversized_header_rejected(image: Seq<u8>)
    requires
        image.len() >= HEADER_LEN,
        header_value(image[0], image[1]) > PAYLOAD_CAPACITY,
    ensures
        payload_of(image) is None,
{
}

} // verus!

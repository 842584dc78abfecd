//! The sector buffer: the fixed-size unit in which a record travels to and
//! from the card.

use vstd::prelude::*;
use arrayvec::ArrayVec;
use crate::fixed::{
    sector_as_slice, sector_bytes, sector_len, sector_new, sector_push,
    sector_try_extend_from_slice,
};

verus! {

/// The size in bytes of the card's largest save-data unit.
pub const SAVE_SIZE: usize = 0x2000;

/// `n` zero bytes.
pub open spec fn zeros(n: nat) -> Seq<u8> {
    Seq::new(n, |i: int| 0u8)
}

/// What a payload looks like on the card: the payload itself, followed by
/// zero bytes up to `SAVE_SIZE`.
pub open spec fn sector_image(payload: Seq<u8>) -> Seq<u8>
    recommends
        payload.len() <= SAVE_SIZE,
{
    payload + zeros((SAVE_SIZE - payload.len()) as nat)
}

/// A buffer of exactly `SAVE_SIZE` bytes.
#[derive(Debug)]
pub struct SectorBuf {
    buf: ArrayVec<u8, 8192>,
}

impl View for SectorBuf {
    type V = Seq<u8>;

    closed spec fn view(&self) -> Seq<u8> {
        sector_bytes(self.buf)
    }
}

impl SectorBuf {
    /// Every buffer is full: it holds `SAVE_SIZE` bytes.
    #[verifier::type_invariant]
    pub closed spec fn wf(&self) -> bool {
        sector_bytes(self.buf).len() == SAVE_SIZE
    }

    /// A buffer of zero bytes.
    pub fn new() -> (buf: SectorBuf)
        ensures
            buf.wf(),
            buf@ == zeros(SAVE_SIZE as nat),
    {
        let empty: [u8; 0] = [];
        let filled = SectorBuf::from_payload(empty.as_slice());
        assert(sector_image(empty@) =~= zeros(SAVE_SIZE as nat));
        filled.unwrap()
    }

    /// Lays `payload` out as a sector: the payload first, zero bytes after
    /// it. `None` exactly when the payload is longer than `SAVE_SIZE`.
    pub fn from_payload(payload: &[u8]) -> (image: Option<SectorBuf>)
        ensures
            image is Some <==> payload@.len() <= SAVE_SIZE,
            image matches Some(buf) ==> buf.wf() && buf@ == sector_image(payload@),
    {
        let mut buf = sector_new();
        match sector_try_extend_from_slice(&mut buf, payload) {
            Ok(()) => {},
            Err(_) => {
                return None;
            },
        }
        let mut len: usize = sector_len(&buf);
        assert(sector_bytes(buf) =~= payload@ + zeros(0));
        while len < SAVE_SIZE
            invariant
                len == sector_bytes(buf).len(),
                payload@.len() <= len <= SAVE_SIZE,
                sector_bytes(buf) == payload@ + zeros((len - payload@.len()) as nat),
            decreases SAVE_SIZE - len,
        {
            sector_push(&mut buf, 0u8);
            len = len + 1;
            assert(sector_bytes(buf) =~= payload@ + zeros((len - payload@.len()) as nat));
        }
        Some(SectorBuf { buf })
    }

    /// The number of bytes a buffer holds.
    pub fn capacity() -> (capacity: usize)
        ensures
            capacity == SAVE_SIZE,
    {
        SAVE_SIZE
    }

    /// The bytes of the buffer.
    pub fn as_slice(&self) -> (bytes: &[u8])
        ensures
            bytes@ == self@,
            bytes@.len() == SAVE_SIZE,
    {
        proof {
            use_type_invariant(self);
        }
        sector_as_slice(&self.buf)
    }
}

/// A sector image is one sector long.
pub proof fn sector_image_fills_sector(payload: Seq<u8>)
    requires
        payload.len() <= SAVE_SIZE,
    ensures
        sector_image(payload).len() == SAVE_SIZE,
{
}

/// The payload is the head of its sector image, and every byte after it is
/// zero.
pub proof fn sector_image_keeps_payload(payload: Seq<u8>)
    requires
        payload.len() <= SAVE_SIZE,
    ensures
        sector_image(payload).subrange(0, payload.len() as int) == payload,
        forall|i: int| payload.len() <= i < SAVE_SIZE ==> sector_image(payload)[i] == 0u8,
{
    assert(sector_image(payload).subrange(0, payload.len() as int) =~= payload);
}

/// Payloads of one length with one sector image are the same payload.
pub proof fn sector_image_is_injective(a: Seq<u8>, b: Seq<u8>)
    requires
        a.len() == b.len(),
        a.len() <= SAVE_SIZE,
        sector_image(a) == sector_image(b),
    ensures
        a == b,
{
    sector_image_keeps_payload(a);
    sector_image_keeps_payload(b);
}

} // verus!

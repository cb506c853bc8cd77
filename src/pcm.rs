//! Framing of the raw PCM stream a loopback recorder writes: an optional AU
//! header, then 32-bit little-endian samples. Samples are handed out as
//! their bit patterns; bytes that do not make up a whole sample are held
//! back until more arrive, and dropped when the stream stops.
use vstd::prelude::*;

verus! {

/// The AU magic number, `.snd`.
pub open spec fn is_au_magic(b: Seq<u8>) -> bool {
    b.len() >= 4 && b[0] == 0x2e && b[1] == 0x73 && b[2] == 0x6e && b[3] == 0x64
}

/// A big-endian 32-bit value from four bytes starting at `i`.
pub open spec fn be_u32(b: Seq<u8>, i: int) -> nat {
    (b[i] as nat) * 16777216 + (b[i + 1] as nat) * 65536 + (b[i + 2] as nat) * 256 + (b[i + 3] as nat)
}

/// A little-endian 32-bit value from four bytes starting at `i`.
pub open spec fn le_u32(b: Seq<u8>, i: int) -> nat {
    (b[i] as nat) + (b[i + 1] as nat) * 256 + (b[i + 2] as nat) * 65536 + (b[i + 3] as nat) * 16777216
}

/// The samples in `b`: one per whole group of four bytes.
pub open spec fn le_words(b: Seq<u8>) -> Seq<u32> {
    Seq::new(b.len() / 4, |i: int| le_u32(b, 4 * i) as u32)
}

/// Whether a stream starts with an AU header.
pub fn is_au_header(magic: &[u8]) -> (r: bool)
    ensures
        r == is_au_magic(magic@),
{
    magic.len() >= 4 && magic[0] == 0x2e && magic[1] == 0x73 && magic[2] == 0x6e && magic[3] == 0x64
}

/// Bytes still to skip after the first eight of an AU header, given the
/// big-endian data offset that follows the magic number.
pub fn au_bytes_to_skip(offset: &[u8]) -> (r: usize)
    requires
        offset@.len() >= 4,
    ensures
        r as nat == if be_u32(offset@, 0) > 8 { (be_u32(offset@, 0) - 8) as nat } else { 0 },
{
    let v: u64 = (offset[0] as u64) * 16777216 + (offset[1] as u64) * 65536 + (offset[2] as u64) * 256 + (offset[3] as u64);
    if v > 8 {
        (v - 8) as usize
    } else {
        0
    }
}

fn le_word_at(b: &[u8], i: usize) -> (r: u32)
    requires
        i + 4 <= b@.len(),
    ensures
        r == le_u32(b@, i as int) as u32,
        r as nat == le_u32(b@, i as int),
{
    let v: u32 = (b[i] as u32) + (b[i + 1] as u32) * 256 + (b[i + 2] as u32) * 65536 + (b[i + 3] as u32) * 16777216;
    v
}

/// Collects the samples of a stream delivered in pieces.
#[derive(Debug, Clone, Default)]
pub struct PcmDecoder {
    pending: Vec<u8>,
}

impl PcmDecoder {
    /// The bytes held back: fewer than one sample.
    pub closed spec fn pending_bytes(&self) -> Seq<u8> {
        self.pending@
    }

    pub closed spec fn wf(&self) -> bool {
        self.pending@.len() < 4
    }

    pub fn new() -> (r: Self)
        ensures
            r.wf(),
            r.pending_bytes().len() == 0,
    {
        PcmDecoder { pending: Vec::new() }
    }

    /// Takes the next piece of the stream and returns the samples it
    /// completes; what is left over waits for the next piece.
    pub fn feed(&mut self, bytes: &[u8]) -> (r: Vec<u32>)
        requires
            old(self).wf(),
            old(self).pending_bytes().len() + bytes@.len() <= usize::MAX,
        ensures
            final(self).wf(),
            ({
                let all = old(self).pending_bytes() + bytes@;
                &&& r@ == le_words(all)
                &&& final(self).pending_bytes() == all.subrange(4 * (all.len() / 4) as int, all.len() as int)
            }),
    {
        let ghost all = self.pending@ + bytes@;
        let mut buf: Vec<u8> = Vec::new();
        let mut i: usize = 0;
        while i < self.pending.len()
            invariant
                i <= self.pending@.len(),
                buf@ == self.pending@.subrange(0, i as int),
            decreases self.pending@.len() - i,
        {
            buf.push(self.pending[i]);
            i = i + 1;
            assert(buf@ =~= self.pending@.subrange(0, i as int));
        }
        let mut j: usize = 0;
        while j < bytes.len()
            invariant
                j <= bytes@.len(),
                buf@ == self.pending@ + bytes@.subrange(0, j as int),
            decreases bytes@.len() - j,
        {
            buf.push(bytes[j]);
            j = j + 1;
            assert(buf@ =~= self.pending@ + bytes@.subrange(0, j as int));
        }
        assert(buf@ =~= all);
        let n = buf.len();
        let whole = n / 4;
        let mut out: Vec<u32> = Vec::new();
        let mut k: usize = 0;
        while k < whole
            invariant
                buf@ == all,
                n == all.len(),
                whole == n / 4,
                k <= whole,
                out@ == le_words(all).subrange(0, k as int),
            decreases whole - k,
        {
            assert(4 * k + 4 <= n) by (nonlinear_arith)
                requires k < whole, whole == n / 4;
            let w = le_word_at(buf.as_slice(), 4 * k);
            out.push(w);
            k = k + 1;
            assert(out@ =~= le_words(all).subrange(0, k as int));
        }
        assert(le_words(all).subrange(0, whole as int) =~= le_words(all));
        let start = 4 * whole;
        assert(start <= n) by (nonlinear_arith)
            requires whole == n / 4, start == 4 * whole;
        let mut rest: Vec<u8> = Vec::new();
        let mut m: usize = start;
        while m < n
            invariant
                buf@ == all,
                n == all.len(),
                start <= m <= n,
                rest@ == all.subrange(start as int, m as int),
            decreases n - m,
        {
            rest.push(buf[m]);
            m = m + 1;
            assert(rest@ =~= all.subrange(start as int, m as int));
        }
        assert(n - start < 4) by (nonlinear_arith)
            requires whole == n / 4, start == 4 * whole;
        self.pending = rest;
        out
    }

    /// Ends the stream: the bytes of an incomplete last sample are dropped.
    pub fn finish(self) -> (r: usize)
        ensures
            r == self.pending_bytes().len(),
    {
        self.pending.len()
    }
}

} // verus!

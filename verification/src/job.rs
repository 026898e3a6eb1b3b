//! A print job and the raster-line transform that prepares its content.
//!
//! A raster line is a fixed-width strip of bytes; each bit addresses one
//! dot of the thermal head. Two independent transforms exist on a line:
//! mirroring, which reverses the byte order of the line and the bit
//! order of every byte (the head is mirrored both along and across the
//! line), and polarity inversion, which complements every byte when the
//! source uses the opposite ink convention. Neither transform reorders
//! lines.

use vstd::prelude::*;
use vstd::arithmetic::div_mod::lemma_fundamental_div_mod;
use crate::constants::RASTER_LINE_LENGTH;
use crate::setting::Resolution;

verus! {

/// One print job: its raster content in transmission order and the
/// options the orchestrator turns into settings. Lines are exactly
/// [`RASTER_LINE_LENGTH`] bytes each, by type.
pub struct PrintJob {
    pub cut_on_end: bool,
    pub raster_lines: Vec<[u8; RASTER_LINE_LENGTH]>,
    pub resolution: Resolution,
    pub mirrored: bool,
}

/// The byte with the bit order of `b` reversed.
pub open spec fn spec_rev_bits(b: u8) -> u8 {
    ((b & 0x01) << 7) | ((b & 0x02) << 5) | ((b & 0x04) << 3) | ((b & 0x08) << 1) | ((b & 0x10)
        >> 1) | ((b & 0x20) >> 3) | ((b & 0x40) >> 5) | ((b & 0x80) >> 7)
}

/// The byte with every bit complemented (the opposite polarity).
pub open spec fn spec_invert_byte(b: u8) -> u8 {
    !b
}

/// A line mirrored for the head: byte order reversed and the bit order
/// of every byte reversed. Polarity is untouched.
pub open spec fn spec_mirror_line(line: Seq<u8>) -> Seq<u8> {
    Seq::new(line.len(), |i: int| spec_rev_bits(line[line.len() - 1 - i]))
}

/// A line with the polarity of every byte inverted. Order is untouched.
pub open spec fn spec_invert_line(line: Seq<u8>) -> Seq<u8> {
    Seq::new(line.len(), |i: int| spec_invert_byte(line[i]))
}

/// Reversing the bit order of a byte twice restores the byte.
pub proof fn lemma_rev_bits_involutive()
    by (bit_vector)
    ensures
        forall|b: u8| #[trigger] spec_rev_bits(spec_rev_bits(b)) == b,
{
}

/// Complementing a byte twice restores the byte.
pub proof fn lemma_invert_byte_involutive()
    by (bit_vector)
    ensures
        forall|b: u8| #[trigger] spec_invert_byte(spec_invert_byte(b)) == b,
{
}

/// Bit reversal and polarity inversion commute on a byte.
pub proof fn lemma_rev_bits_invert_commute()
    by (bit_vector)
    ensures
        forall|b: u8| #[trigger] spec_rev_bits(spec_invert_byte(b)) == spec_invert_byte(
            spec_rev_bits(b),
        ),
{
}

/// Mirroring a line twice restores its byte order and bit order exactly.
/// Mirroring excludes polarity, so nothing else changes.
pub proof fn lemma_mirror_line_involutive(line: Seq<u8>)
    ensures
        spec_mirror_line(spec_mirror_line(line)) == line,
{
    lemma_rev_bits_involutive();
    assert(spec_mirror_line(spec_mirror_line(line)) =~= line);
}

/// Inverting a line's polarity twice restores the line.
pub proof fn lemma_invert_line_involutive(line: Seq<u8>)
    ensures
        spec_invert_line(spec_invert_line(line)) == line,
{
    lemma_invert_byte_involutive();
    assert(spec_invert_line(spec_invert_line(line)) =~= line);
}

/// Mirroring and polarity inversion compose independently: applying
/// them in either order gives the same line.
pub proof fn lemma_mirror_invert_commute(line: Seq<u8>)
    ensures
        spec_mirror_line(spec_invert_line(line)) == spec_invert_line(spec_mirror_line(line)),
{
    lemma_rev_bits_invert_commute();
    assert(spec_mirror_line(spec_invert_line(line)) =~= spec_invert_line(spec_mirror_line(line)));
}

/// Reverses the bit order of one byte.
pub fn rev_bits(b: u8) -> (r: u8)
    ensures
        r == spec_rev_bits(b),
{
    ((b & 0x01) << 7) | ((b & 0x02) << 5) | ((b & 0x04) << 3) | ((b & 0x08) << 1) | ((b & 0x10)
        >> 1) | ((b & 0x20) >> 3) | ((b & 0x40) >> 5) | ((b & 0x80) >> 7)
}

/// Mirrors one raster line: reverses its byte order and the bit order
/// of every byte. Polarity is untouched.
pub fn mirror_line(line: &[u8; RASTER_LINE_LENGTH]) -> (r: [u8; RASTER_LINE_LENGTH])
    ensures
        r@ == spec_mirror_line(line@),
{
    let mut out: [u8; RASTER_LINE_LENGTH] = [0u8; RASTER_LINE_LENGTH];
    let mut i: usize = 0;
    while i < RASTER_LINE_LENGTH
        invariant
            i <= RASTER_LINE_LENGTH,
            out@.len() == RASTER_LINE_LENGTH,
            line@.len() == RASTER_LINE_LENGTH,
            forall|j: int|
                0 <= j < i ==> out@[j] == spec_rev_bits(line@[RASTER_LINE_LENGTH - 1 - j]),
        decreases RASTER_LINE_LENGTH - i,
    {
        out[i] = rev_bits(line[RASTER_LINE_LENGTH - 1 - i]);
        i = i + 1;
    }
    proof {
        assert(out@ =~= spec_mirror_line(line@));
    }
    out
}

/// Inverts the polarity of one raster line: complements every byte.
/// Order is untouched.
pub fn invert_line(line: &[u8; RASTER_LINE_LENGTH]) -> (r: [u8; RASTER_LINE_LENGTH])
    ensures
        r@ == spec_invert_line(line@),
{
    let mut out: [u8; RASTER_LINE_LENGTH] = [0u8; RASTER_LINE_LENGTH];
    let mut i: usize = 0;
    while i < RASTER_LINE_LENGTH
        invariant
            i <= RASTER_LINE_LENGTH,
            out@.len() == RASTER_LINE_LENGTH,
            line@.len() == RASTER_LINE_LENGTH,
            forall|j: int| 0 <= j < i ==> out@[j] == spec_invert_byte(line@[j]),
        decreases RASTER_LINE_LENGTH - i,
    {
        out[i] = !line[i];
        i = i + 1;
    }
    proof {
        assert(out@ =~= spec_invert_line(line@));
    }
    out
}

/// Chunks a raw source byte stream into raster lines, one fixed-width
/// group per line, in stream order. Misaligned input — a length that is
/// not a multiple of the line width — is rejected, never padded or
/// silently tolerated.
pub fn chunk_raster_bytes(data: &[u8]) -> (r: Option<Vec<[u8; RASTER_LINE_LENGTH]>>)
    ensures
        r is Some <==> data@.len() as int % (RASTER_LINE_LENGTH as int) == 0,
        r matches Some(lines) ==> {
            &&& lines@.len() == data@.len() as int / (RASTER_LINE_LENGTH as int)
            &&& forall|i: int|
                0 <= i < lines@.len() ==> #[trigger] lines@[i]@ == data@.subrange(
                    i * (RASTER_LINE_LENGTH as int),
                    (i + 1) * (RASTER_LINE_LENGTH as int),
                )
        },
{
    let data_len: usize = data.len();
    if data_len % RASTER_LINE_LENGTH != 0 {
        return None;
    }
    let count = data_len / RASTER_LINE_LENGTH;
    proof {
        lemma_fundamental_div_mod(data@.len() as int, RASTER_LINE_LENGTH as int);
    }
    let mut lines: Vec<[u8; RASTER_LINE_LENGTH]> = Vec::new();
    let mut c: usize = 0;
    while c < count
        invariant
            c <= count,
            data_len == data@.len(),
            count * RASTER_LINE_LENGTH == data_len,
            count == data@.len() as int / (RASTER_LINE_LENGTH as int),
            lines@.len() == c,
            forall|i: int|
                0 <= i < c ==> #[trigger] lines@[i]@ == data@.subrange(
                    i * (RASTER_LINE_LENGTH as int),
                    (i + 1) * (RASTER_LINE_LENGTH as int),
                ),
        decreases count - c,
    {
        let mut line: [u8; RASTER_LINE_LENGTH] = [0u8; RASTER_LINE_LENGTH];
        proof {
            assert(c * RASTER_LINE_LENGTH + RASTER_LINE_LENGTH <= count * RASTER_LINE_LENGTH)
                by (nonlinear_arith)
                requires
                    c < count,
            ;
            assert(c * RASTER_LINE_LENGTH + RASTER_LINE_LENGTH <= data_len);
        }
        let base: usize = c * RASTER_LINE_LENGTH;
        let mut j: usize = 0;
        while j < RASTER_LINE_LENGTH
            invariant
                j <= RASTER_LINE_LENGTH,
                base == c * RASTER_LINE_LENGTH,
                base + RASTER_LINE_LENGTH <= data_len,
                data_len == data@.len(),
                line@.len() == RASTER_LINE_LENGTH,
                forall|k: int| 0 <= k < j ==> line@[k] == data@[base + k],
            decreases RASTER_LINE_LENGTH - j,
        {
            line[j] = data[base + j];
            j = j + 1;
        }
        proof {
            assert(line@ =~= data@.subrange(
                c * (RASTER_LINE_LENGTH as int),
                (c + 1) * (RASTER_LINE_LENGTH as int),
            ));
        }
        lines.push(line);
        c = c + 1;
    }
    Some(lines)
}

impl PrintJob {
    /// The lines the transform hands on for this job: each line mirrored
    /// when the job is mirrored, unchanged otherwise, always in the
    /// original order.
    pub open spec fn spec_wire_line(self, i: int) -> Seq<u8> {
        if self.mirrored {
            spec_mirror_line(self.raster_lines@[i]@)
        } else {
            self.raster_lines@[i]@
        }
    }

    /// Produces the job's lines as they go on the wire: mirrored when
    /// the job asks for it, byte-for-byte otherwise; line order is
    /// always the input order.
    pub fn get_raster_lines(&self) -> (r: Vec<[u8; RASTER_LINE_LENGTH]>)
        ensures
            r@.len() == self.raster_lines@.len(),
            forall|i: int| 0 <= i < r@.len() ==> #[trigger] r@[i]@ == self.spec_wire_line(i),
    {
        let mut out: Vec<[u8; RASTER_LINE_LENGTH]> = Vec::new();
        let mut i: usize = 0;
        while i < self.raster_lines.len()
            invariant
                i <= self.raster_lines@.len(),
                out@.len() == i,
                forall|j: int| 0 <= j < i ==> #[trigger] out@[j]@ == self.spec_wire_line(j),
            decreases self.raster_lines@.len() - i,
        {
            if self.mirrored {
                out.push(mirror_line(&self.raster_lines[i]));
            } else {
                out.push(self.raster_lines[i]);
            }
            i = i + 1;
        }
        out
    }
}

} // verus!

//! The 64x32 monochrome framebuffer and its XOR sprite blitter.

use vstd::prelude::*;

verus! {

broadcast use vstd::array::group_array_axioms;

/// The framebuffer: 32 rows of 64 pixels, one `u64` per row.
///
/// Bit 63 of a row is the leftmost pixel of that row; a set bit is a lit
/// pixel. Row 0 is the top of the screen.
pub struct Display {
    pub pixels: [u64; 32],
}

/// All pixels of the framebuffer are off.
pub open spec fn all_clear(p: Seq<u64>) -> bool {
    forall|i: int| 0 <= i < p.len() ==> p[i] == 0u64
}

/// The 8-pixel sprite row `b` laid out as a 64-bit framebuffer row whose
/// leftmost sprite pixel sits in column `x` (bit `63 - x`); sprite pixels
/// past the right edge wrap around to the left edge.
pub open spec fn line_of(b: u8, x: u8) -> u64
    recommends
        x < 64,
{
    if x == 0 {
        (b as u64) << 56u64
    } else {
        ((b as u64) << 56u64) >> (x as u64) | ((b as u64) << 56u64) << (((64 - x) as u64))
    }
}

/// The framebuffer and collision flag after XOR-drawing the first `k` rows of
/// the sprite `rows` with origin `(x, y)`. Sprite row `j` lands on
/// framebuffer row `(y + j) % 32`; the collision flag is set as soon as a
/// drawn line overlaps a lit pixel.
pub open spec fn draw_rows(fb: Seq<u64>, rows: Seq<u8>, x: u8, y: u8, k: int) -> (Seq<u64>, bool)
    recommends
        fb.len() == 32,
        x < 64,
        y < 32,
        0 <= k <= rows.len(),
    decreases k,
{
    if k <= 0 {
        (fb, false)
    } else {
        let (prev, hit) = draw_rows(fb, rows, x, y, k - 1);
        let r = (y + k - 1) % 32;
        let line = line_of(rows[k - 1], x);
        (prev.update(r, prev[r] ^ line), hit || (line & prev[r]) != 0u64)
    }
}

/// Exec computation of [`line_of`].
fn line_for(b: u8, x: u8) -> (line: u64)
    requires
        x < 64,
    ensures
        line == line_of(b, x),
{
    let wide: u64 = (b as u64) << 56u64;
    if x == 0 {
        wide
    } else {
        let right: u64 = wide >> (x as u64);
        let left: u64 = wide << (64 - x as u64);
        right | left
    }
}

impl Display {
    /// A framebuffer with every pixel off.
    pub fn new() -> (d: Display)
        ensures
            d.pixels@.len() == 32,
            all_clear(d.pixels@),
    {
        Display { pixels: [0u64; 32] }
    }

    /// Switch every pixel off.
    pub fn clear(&mut self)
        ensures
            all_clear(final(self).pixels@),
    {
        let mut i: usize = 0;
        while i < 32
            invariant
                i <= 32,
                forall|j: int| 0 <= j < i ==> self.pixels@[j] == 0u64,
            decreases 32 - i,
        {
            self.pixels[i] = 0;
            i += 1;
        }
    }

    /// XOR-draw a sprite of up to 15 rows, one byte per row, with its origin
    /// taken modulo the screen size; returns true iff a drawn pixel
    /// overlapped an already-lit pixel.
    pub fn blit(&mut self, x: u8, y: u8, rows: &[u8]) -> (collision: bool)
        requires
            rows@.len() <= 15,
        ensures
            final(self).pixels@ == draw_rows(
                old(self).pixels@,
                rows@,
                (x % 64) as u8,
                (y % 32) as u8,
                rows@.len() as int,
            ).0,
            collision == draw_rows(
                old(self).pixels@,
                rows@,
                (x % 64) as u8,
                (y % 32) as u8,
                rows@.len() as int,
            ).1,
    {
        let xr: u8 = x % 64;
        let yr: u8 = y % 32;
        let mut collision = false;
        let mut i: usize = 0;
        while i < rows.len()
            invariant
                xr == x % 64,
                yr == y % 32,
                i <= rows@.len() <= 15,
                self.pixels@ == draw_rows(old(self).pixels@, rows@, xr, yr, i as int).0,
                collision == draw_rows(old(self).pixels@, rows@, xr, yr, i as int).1,
            decreases rows@.len() - i,
        {
            let b: u8 = rows[i];
            let line: u64 = line_for(b, xr);
            let r: usize = (yr as usize + i) % 32;
            proof {
                assert(self.pixels@.len() == 32);
                assert(r == (yr + (i + 1) - 1) % 32);
            }
            let hit: bool = line & self.pixels[r] != 0;
            collision = collision || hit;
            self.pixels[r] = self.pixels[r] ^ line;
            i += 1;
            proof {
                assert(self.pixels@ =~= draw_rows(old(self).pixels@, rows@, xr, yr, i as int).0);
            }
        }
        collision
    }
}

/// Drawing never changes the length of the framebuffer, and a row that no
/// sprite row lands on keeps its pixels.
pub proof fn lemma_draw_rows_untouched(fb: Seq<u64>, rows: Seq<u8>, x: u8, y: u8, k: int, r: int)
    requires
        fb.len() == 32,
        y < 32,
        0 <= k <= rows.len(),
        forall|j: int| 0 <= j < k ==> #[trigger] ((y + j) % 32) != r,
    ensures
        draw_rows(fb, rows, x, y, k).0.len() == 32,
        0 <= r < 32 ==> draw_rows(fb, rows, x, y, k).0[r] == fb[r],
    decreases k,
{
    if k > 0 {
        lemma_draw_rows_untouched(fb, rows, x, y, k - 1, r);
    }
}

/// Drawing reads and writes only the rows that sprite rows land on: an update
/// to any other row commutes with the draw.
pub proof fn lemma_draw_rows_frame(
    fb: Seq<u64>,
    rows: Seq<u8>,
    x: u8,
    y: u8,
    k: int,
    r: int,
    v: u64,
)
    requires
        fb.len() == 32,
        y < 32,
        0 <= k <= rows.len(),
        0 <= r < 32,
        forall|j: int| 0 <= j < k ==> #[trigger] ((y + j) % 32) != r,
    ensures
        draw_rows(fb.update(r, v), rows, x, y, k).0 =~= draw_rows(fb, rows, x, y, k).0.update(
            r,
            v,
        ),
        draw_rows(fb.update(r, v), rows, x, y, k).1 == draw_rows(fb, rows, x, y, k).1,
    decreases k,
{
    if k > 0 {
        lemma_draw_rows_frame(fb, rows, x, y, k - 1, r, v);
        lemma_draw_rows_untouched(fb, rows, x, y, k - 1, r);
    }
}

/// XOR is an involution on a framebuffer row.
proof fn lemma_xor_involution()
    by (bit_vector)
    ensures
        forall|a: u64, b: u64| #[trigger] ((a ^ b) ^ b) == a,
{
}

/// Drawing the same sprite twice at the same origin restores the framebuffer:
/// the XOR blit is an involution.
pub proof fn lemma_draw_rows_involution(fb: Seq<u64>, rows: Seq<u8>, x: u8, y: u8, k: int)
    requires
        fb.len() == 32,
        x < 64,
        y < 32,
        0 <= k <= rows.len(),
        rows.len() <= 15,
    ensures
        draw_rows(draw_rows(fb, rows, x, y, k).0, rows, x, y, k).0 =~= fb,
    decreases k,
{
    if k > 0 {
        let a1 = draw_rows(fb, rows, x, y, k - 1).0;
        let r = (y + k - 1) % 32;
        let line = line_of(rows[k - 1], x);
        assert(forall|j: int| 0 <= j < k - 1 ==> #[trigger] ((y + j) % 32) != r) by {
            assert(forall|a: int| 0 <= a < 64 ==> #[trigger] (a % 32) == (if a < 32 {
                a
            } else {
                a - 32
            }));
        }
        lemma_draw_rows_untouched(fb, rows, x, y, k - 1, r);
        let w = a1[r] ^ line;
        let fb2 = a1.update(r, w);
        assert(fb2 == draw_rows(fb, rows, x, y, k).0);
        // The first k-1 rows of the second pass land beside row r, so that
        // pass behaves as if it had started from the first pass at k-1.
        lemma_draw_rows_frame(a1, rows, x, y, k - 1, r, w);
        lemma_draw_rows_involution(fb, rows, x, y, k - 1);
        assert(draw_rows(fb2, rows, x, y, k - 1).0 =~= fb.update(r, w));
        lemma_xor_involution();
        assert(draw_rows(fb2, rows, x, y, k).0 =~= fb.update(r, w).update(r, (fb[r] ^ line) ^ line));
        assert(draw_rows(fb2, rows, x, y, k).0 =~= fb);
    }
}

} // verus!

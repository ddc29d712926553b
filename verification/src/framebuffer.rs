//! The pixel memory that a layer of the controller scans out.

use vstd::prelude::*;

verus! {

/// Position of cell `(x, y)` in a row-major buffer with `width` words per
/// row: `x` varies fastest.
pub open spec fn cell_index(width: int, x: int, y: int) -> int {
    x + width * y
}

/// Cells of one row-major buffer do not overlap: a cell inside the area lies
/// inside the buffer, and two cells inside the area share their index only if
/// they are the same cell.
pub proof fn lemma_cell_index(width: int, height: int, x: int, y: int, u: int, v: int)
    requires
        0 <= x < width,
        0 <= y < height,
        0 <= u < width,
        0 <= v < height,
    ensures
        0 <= width * y <= cell_index(width, x, y) < width * height,
        cell_index(width, x, y) == cell_index(width, u, v) <==> x == u && y == v,
{
    assert(0 <= width * y && width * y + width <= width * height) by (nonlinear_arith)
        requires
            0 <= y < height,
            0 < width,
    ;
    if y < v {
        assert(width * y + width <= width * v) by (nonlinear_arith)
            requires
                y < v,
                0 < width,
        ;
    }
    if v < y {
        assert(width * v + width <= width * y) by (nonlinear_arith)
            requires
                v < y,
                0 < width,
        ;
    }
}

/// The area of a buffer whose sides fit 16 bits fits 32 bits.
proof fn lemma_area_fits(width: int, height: int)
    requires
        0 <= width <= 0xffff,
        0 <= height <= 0xffff,
    ensures
        0 <= width * height <= 0xfffe_0001,
{
    assert(0 <= width * height <= 0xffff * 0xffff) by (nonlinear_arith)
        requires
            0 <= width <= 0xffff,
            0 <= height <= 0xffff,
    ;
}

/// A block of `width * height` packed 16-bit pixel words, row-major. It is
/// made once, all zero, and never resized; only the controller that a buffer
/// is bound to writes to it.
pub struct Framebuffer {
    words: Vec<u16>,
    width: u16,
    height: u16,
}

impl View for Framebuffer {
    type V = Seq<u16>;

    /// The words of the buffer, row after row.
    closed spec fn view(&self) -> Seq<u16> {
        self.words@
    }
}

impl Framebuffer {
    /// Words per row.
    pub closed spec fn width(&self) -> u16 {
        self.width
    }

    /// Number of rows.
    pub closed spec fn height(&self) -> u16 {
        self.height
    }

    /// The buffer holds one word for each cell of its area.
    pub closed spec fn wf(&self) -> bool {
        self.words@.len() == self.width * self.height
    }

    /// The length of a well-formed buffer is its area.
    pub proof fn lemma_len(&self)
        requires
            self.wf(),
        ensures
            self@.len() == self.width() * self.height(),
    {
    }

    /// A zeroed buffer of `width * height` words.
    pub fn new(width: u16, height: u16) -> (buffer: Framebuffer)
        ensures
            buffer.wf(),
            buffer.width() == width,
            buffer.height() == height,
            buffer@ == Seq::new((width * height) as nat, |i: int| 0u16),
    {
        proof {
            lemma_area_fits(width as int, height as int);
        }
        let count: usize = (width as usize) * (height as usize);
        let words: Vec<u16> = vec![0u16; count];
        assert(words@ =~= Seq::new((width * height) as nat, |i: int| 0u16));
        Framebuffer { words, width, height }
    }

    /// Words from the start of one row to the start of the next.
    pub fn stride(&self) -> (stride: usize)
        ensures
            stride == self.width(),
    {
        self.width as usize
    }

    /// Number of rows.
    pub fn rows(&self) -> (rows: usize)
        ensures
            rows == self.height(),
    {
        self.height as usize
    }

    /// The words of the buffer, for reading.
    pub fn as_slice(&self) -> (words: &[u16])
        ensures
            words@ == self@,
    {
        self.words.as_slice()
    }

    /// Reads the word of cell `(x, y)`.
    pub(crate) fn load(&self, x: usize, y: usize) -> (word: u16)
        requires
            self.wf(),
            x < self.width(),
            y < self.height(),
        ensures
            word == self@[cell_index(self.width() as int, x as int, y as int)],
    {
        proof {
            lemma_area_fits(self.width as int, self.height as int);
            lemma_cell_index(self.width as int, self.height as int, x as int, y as int, 0, 0);
        }
        self.words[x + (self.width as usize) * y]
    }

    /// Stores `word` in cell `(x, y)`: one store, with no test of the
    /// coordinates.
    pub(crate) fn store(&mut self, x: usize, y: usize, word: u16)
        requires
            old(self).wf(),
            x < old(self).width(),
            y < old(self).height(),
        ensures
            final(self).wf(),
            final(self).width() == old(self).width(),
            final(self).height() == old(self).height(),
            final(self)@ == old(self)@.update(
                cell_index(old(self).width() as int, x as int, y as int),
                word,
            ),
    {
        proof {
            lemma_area_fits(self.width as int, self.height as int);
            lemma_cell_index(self.width as int, self.height as int, x as int, y as int, 0, 0);
        }
        let index: usize = x + (self.width as usize) * y;
        self.words.set(index, word);
    }
}

} // verus!

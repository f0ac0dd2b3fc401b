//! The logical pixel grid and its serialization to terminal text.
//!
//! A framebuffer holds a row-major grid of logical pixels. Each logical
//! pixel covers `xdensity` terminal cells horizontally and `ydensity`
//! terminal rows vertically, so serialization repeats every cell's text
//! `xdensity` times within a line and emits every line `ydensity` times.

use vstd::prelude::*;
use vstd::string::StringExecFns;
use crate::pixel::{Pixel, cell_text};

verus! {

/// A row-major index stays inside the grid.
pub proof fn lemma_row_major_index(x: int, y: int, w: int, h: int)
    requires
        0 <= x < w,
        0 <= y < h,
    ensures
        0 <= y * w + x < w * h,
{
    assert(0 <= y * w + x < w * h) by (nonlinear_arith)
        requires
            0 <= x < w,
            0 <= y < h,
    ;
}

/// Row `y`'s slice bounds sit inside the grid, and one past its start
/// row-major offset plus the width is the next row's offset.
pub proof fn lemma_row_bounds(y: int, w: int, h: int)
    requires
        0 <= y < h,
        0 <= w,
    ensures
        0 <= y * w,
        (y + 1) * w == y * w + w,
        (y + 1) * w <= w * h,
{
    assert(0 <= y * w && (y + 1) * w == y * w + w && (y + 1) * w <= w * h)
        by (nonlinear_arith)
        requires
            0 <= y < h,
            0 <= w,
    ;
}

/// `s` repeated `n` times, back to back.
pub open spec fn repeat_text(s: Seq<char>, n: int) -> Seq<char>
    decreases n,
{
    if n <= 0 {
        Seq::empty()
    } else {
        repeat_text(s, n - 1) + s
    }
}

/// The text of the first `n` cells of a row: each cell rendered and
/// repeated `xd` times.
pub open spec fn row_text_prefix(row: Seq<Pixel>, xd: int, n: int) -> Seq<char>
    decreases n,
{
    if n <= 0 {
        Seq::empty()
    } else {
        row_text_prefix(row, xd, n - 1) + repeat_text(cell_text(row[n - 1]), xd)
    }
}

/// The length of a repetition is the repeated text's length times the
/// count.
pub proof fn lemma_repeat_text_len(s: Seq<char>, n: int)
    requires
        n >= 0,
    ensures
        repeat_text(s, n).len() == n * s.len(),
    decreases n,
{
    let l = s.len() as int;
    if n > 0 {
        lemma_repeat_text_len(s, n - 1);
        assert((n - 1) * l + l == n * l) by (nonlinear_arith);
    } else {
        assert(n * l == 0) by (nonlinear_arith)
            requires
                n == 0,
        ;
    }
}

/// The `k`-th copy inside a repetition is the repeated text itself.
pub proof fn lemma_repeat_text_unit(s: Seq<char>, n: int, k: int)
    requires
        0 <= k < n,
    ensures
        repeat_text(s, n).subrange(k * s.len(), (k + 1) * s.len()) == s,
    decreases n,
{
    let l = s.len() as int;
    lemma_repeat_text_len(s, n - 1);
    lemma_repeat_text_len(s, n);
    assert(0 <= k * l && k * l + l == (k + 1) * l && (k + 1) * l <= n * l) by (nonlinear_arith)
        requires
            0 <= k < n,
            l >= 0,
    ;
    if k == n - 1 {
        assert(repeat_text(s, n).subrange(k * l, (k + 1) * l) =~= s);
    } else {
        lemma_repeat_text_unit(s, n - 1, k);
        assert((k + 1) * l <= (n - 1) * l) by (nonlinear_arith)
            requires
                0 <= k < n - 1,
                l >= 0,
        ;
        assert(repeat_text(s, n).subrange(k * l, (k + 1) * l) =~= repeat_text(s, n - 1).subrange(
            k * l,
            (k + 1) * l,
        ));
    }
}

/// The length of a row's text: each of the `n` cells contributes its
/// thirteen characters `xd` times.
pub proof fn lemma_row_text_prefix_len(row: Seq<Pixel>, xd: int, n: int)
    requires
        n >= 0,
        xd >= 0,
    ensures
        row_text_prefix(row, xd, n).len() == n * (xd * 13),
    decreases n,
{
    if n > 0 {
        lemma_row_text_prefix_len(row, xd, n - 1);
        crate::pixel::lemma_cell_text_len(row[n - 1]);
        lemma_repeat_text_len(cell_text(row[n - 1]), xd);
        assert((n - 1) * (xd * 13) + xd * 13 == n * (xd * 13)) by (nonlinear_arith);
    } else {
        assert(n * (xd * 13) == 0) by (nonlinear_arith)
            requires
                n == 0,
        ;
    }
}

/// The `i`-th cell's stretch inside a row's text is that cell's text
/// repeated `xd` times.
pub proof fn lemma_row_text_prefix_cell(row: Seq<Pixel>, xd: int, n: int, i: int)
    requires
        0 <= i < n,
        xd >= 0,
    ensures
        row_text_prefix(row, xd, n).subrange(i * (xd * 13), (i + 1) * (xd * 13)) == repeat_text(
            cell_text(row[i]),
            xd,
        ),
    decreases n,
{
    let u = xd * 13;
    lemma_row_text_prefix_len(row, xd, n - 1);
    lemma_row_text_prefix_len(row, xd, n);
    crate::pixel::lemma_cell_text_len(row[n - 1]);
    lemma_repeat_text_len(cell_text(row[n - 1]), xd);
    assert(0 <= i * u && i * u + u == (i + 1) * u && (i + 1) * u <= n * u) by (nonlinear_arith)
        requires
            0 <= i < n,
            u >= 0,
    ;
    if i == n - 1 {
        assert(row_text_prefix(row, xd, n).subrange(i * u, (i + 1) * u) =~= repeat_text(
            cell_text(row[i]),
            xd,
        ));
    } else {
        lemma_row_text_prefix_cell(row, xd, n - 1, i);
        assert((i + 1) * u <= (n - 1) * u) by (nonlinear_arith)
            requires
                0 <= i < n - 1,
                u >= 0,
        ;
        assert(row_text_prefix(row, xd, n).subrange(i * u, (i + 1) * u) =~= row_text_prefix(
            row,
            xd,
            n - 1,
        ).subrange(i * u, (i + 1) * u));
    }
}

/// A logical pixel grid mapped to terminal character cells through the two
/// density factors.
#[derive(Debug)]
pub struct Framebuffer {
    /// Width of the underlying terminal, in character cells.
    pub term_width: u16,
    /// Height of the underlying terminal, in character rows.
    pub term_height: u16,
    /// Terminal cells used per logical pixel, horizontally.
    pub xdensity: u16,
    /// Terminal rows used per logical pixel, vertically.
    pub ydensity: u16,
    /// Logical width of the grid.
    pub width: u16,
    /// Logical height of the grid.
    pub height: u16,
    /// The pixels, row-major: the cell at `(x, y)` sits at `y * width + x`.
    pub data: Vec<Pixel>,
}

impl Framebuffer {
    /// The grid holds exactly one pixel per cell.
    pub open spec fn wf(self) -> bool {
        self.data@.len() == self.width as int * self.height as int
    }

    /// Row `r` of the grid.
    pub open spec fn row(self, r: int) -> Seq<Pixel> {
        self.data@.subrange(r * self.width as int, (r + 1) * self.width as int)
    }

    /// The text of row `r`, newline terminator included.
    pub open spec fn row_line(self, r: int) -> Seq<char> {
        row_text_prefix(self.row(r), self.xdensity as int, self.width as int) + seq!['\n']
    }

    /// The serialized text of the first `n` rows, each emitted `ydensity`
    /// times.
    pub open spec fn text_prefix(self, n: int) -> Seq<char>
        decreases n,
    {
        if n <= 0 {
            Seq::empty()
        } else {
            self.text_prefix(n - 1) + repeat_text(self.row_line(n - 1), self.ydensity as int)
        }
    }

    /// The whole grid serialized to terminal text.
    pub open spec fn text(self) -> Seq<char> {
        self.text_prefix(self.height as int)
    }

    /// Length of one serialized output line, newline included.
    pub open spec fn line_len(self) -> int {
        self.width as int * (self.xdensity as int * 13) + 1
    }

    /// Offset of the `d`-th output copy of row `y` within the serialized
    /// text.
    pub open spec fn line_start(self, y: int, d: int) -> int {
        (y * self.ydensity as int + d) * self.line_len()
    }

    /// Offset of cell `x`'s stretch within the `d`-th output copy of row
    /// `y`.
    pub open spec fn cell_start(self, x: int, y: int, d: int) -> int {
        self.line_start(y, d) + x * (self.xdensity as int * 13)
    }

    /// A fresh all-background grid for a terminal of `width` by `height`
    /// character cells, at the fixed densities of two cells per pixel
    /// horizontally and one row per pixel vertically.
    pub fn new(width: u16, height: u16) -> (r: Framebuffer)
        requires
            (width as int / 2) * (height as int) <= u16::MAX,
        ensures
            r.term_width == width,
            r.term_height == height,
            r.xdensity == 2,
            r.ydensity == 1,
            r.width == width as int / 2,
            r.height == height,
            r.wf(),
            forall|i: int| 0 <= i < r.data@.len() ==> r.data@[i] == Pixel::Background,
    {
        let xdens: u16 = 2;
        let ydens: u16 = 1;
        let h: u16 = height / ydens;
        let w: u16 = width / xdens;
        let n: u16 = w * h;
        let mut data: Vec<Pixel> = Vec::new();
        while data.len() < n as usize
            invariant
                data@.len() <= n,
                forall|i: int| 0 <= i < data@.len() ==> data@[i] == Pixel::Background,
            decreases n - data@.len(),
        {
            data.push(Pixel::Background);
        }
        Framebuffer {
            term_width: width,
            term_height: height,
            xdensity: xdens,
            ydensity: ydens,
            width: w,
            height: h,
            data,
        }
    }

    /// Replaces the pixel at `(x, y)`; the coordinates must lie inside the
    /// grid, nothing is clamped.
    pub fn set_pixel(&mut self, x: u16, y: u16, value: Pixel)
        requires
            old(self).wf(),
            x < old(self).width,
            y < old(self).height,
        ensures
            final(self).data@ == old(self).data@.update(
                y as int * old(self).width as int + x as int,
                value,
            ),
            final(self).term_width == old(self).term_width,
            final(self).term_height == old(self).term_height,
            final(self).xdensity == old(self).xdensity,
            final(self).ydensity == old(self).ydensity,
            final(self).width == old(self).width,
            final(self).height == old(self).height,
            final(self).wf(),
    {
        // ties the grid size to the machine's index range
        let _grid_cells: usize = self.data.len();
        proof {
            lemma_row_major_index(x as int, y as int, self.width as int, self.height as int);
        }
        let index: usize = (y as usize) * (self.width as usize) + (x as usize);
        self.data.remove(index);
        self.data.insert(index, value);
        proof {
            assert(self.data@ =~= old(self).data@.update(
                y as int * old(self).width as int + x as int,
                value,
            ));
        }
    }

    /// Serializes the grid: every logical row becomes `ydensity` identical
    /// newline-terminated lines, in which every cell's text appears
    /// `xdensity` times.
    pub fn to_string(&self) -> (r: String)
        requires
            self.wf(),
        ensures
            r@ == self.text(),
    {
        let mut out = String::new();
        let mut y: u16 = 0;
        while y < self.height
            invariant
                self.wf(),
                y <= self.height,
                out@ == self.text_prefix(y as int),
            decreases self.height as int - y as int,
        {
            let ghost the_row = self.row(y as int);
            let mut line = String::new();
            let mut x: u16 = 0;
            while x < self.width
                invariant
                    self.wf(),
                    y < self.height,
                    x <= self.width,
                    the_row == self.row(y as int),
                    line@ == row_text_prefix(the_row, self.xdensity as int, x as int),
                decreases self.width as int - x as int,
            {
                // ties the grid size to the machine's index range
                let _grid_cells: usize = self.data.len();
                proof {
                    lemma_row_major_index(
                        x as int,
                        y as int,
                        self.width as int,
                        self.height as int,
                    );
                    lemma_row_bounds(y as int, self.width as int, self.height as int);
                }
                let index: usize = (y as usize) * (self.width as usize) + (x as usize);
                let cell: Pixel = self.data[index];
                let cs = cell.get_string();
                let ghost line_before = line@;
                let mut d: u16 = 0;
                while d < self.xdensity
                    invariant
                        d <= self.xdensity,
                        cs@ == cell_text(cell),
                        line@ == line_before + repeat_text(cell_text(cell), d as int),
                    decreases self.xdensity as int - d as int,
                {
                    proof {
                        assert(line@ + cs@ =~= line_before + repeat_text(
                            cell_text(cell),
                            d as int + 1,
                        ));
                    }
                    line.append(cs.as_str());
                    d = d + 1;
                }
                proof {
                    assert(cell == the_row[x as int]);
                    assert(line@ =~= row_text_prefix(
                        the_row,
                        self.xdensity as int,
                        x as int + 1,
                    ));
                }
                x = x + 1;
            }
            let ghost out_before = out@;
            let mut d: u16 = 0;
            while d < self.ydensity
                invariant
                    self.wf(),
                    y < self.height,
                    d <= self.ydensity,
                    line@ == row_text_prefix(
                        self.row(y as int),
                        self.xdensity as int,
                        self.width as int,
                    ),
                    out@ == out_before + repeat_text(self.row_line(y as int), d as int),
                decreases self.ydensity as int - d as int,
            {
                out.append(line.as_str());
                out.append("\n");
                proof {
                    reveal_strlit("\n");
                    assert("\n"@ =~= seq!['\n']);
                    assert(out@ =~= out_before + repeat_text(
                        self.row_line(y as int),
                        d as int + 1,
                    ));
                }
                d = d + 1;
            }
            proof {
                assert(out@ == self.text_prefix(y as int + 1));
            }
            y = y + 1;
        }
        out
    }
}

/// The length of the serialized text of the first `n` rows: each row
/// yields `ydensity` lines of `line_len` characters.
pub proof fn lemma_text_prefix_len(fb: Framebuffer, n: int)
    requires
        n >= 0,
    ensures
        fb.text_prefix(n).len() == n * (fb.ydensity as int * fb.line_len()),
    decreases n,
{
    let ll = fb.line_len();
    let yd = fb.ydensity as int;
    if n > 0 {
        lemma_text_prefix_len(fb, n - 1);
        lemma_row_text_prefix_len(fb.row(n - 1), fb.xdensity as int, fb.width as int);
        lemma_repeat_text_len(fb.row_line(n - 1), yd);
        assert((n - 1) * (yd * ll) + yd * ll == n * (yd * ll)) by (nonlinear_arith);
    } else {
        assert(n * (yd * ll) == 0) by (nonlinear_arith)
            requires
                n == 0,
        ;
    }
}

/// The `d`-th output copy of row `y` inside the serialized text of the
/// first `n` rows is that row's line.
pub proof fn lemma_text_prefix_line(fb: Framebuffer, n: int, y: int, d: int)
    requires
        0 <= y < n,
        0 <= d < fb.ydensity,
    ensures
        fb.text_prefix(n).subrange(fb.line_start(y, d), fb.line_start(y, d) + fb.line_len())
            == fb.row_line(y),
    decreases n,
{
    let ll = fb.line_len();
    let yd = fb.ydensity as int;
    let ls = fb.line_start(y, d);
    lemma_text_prefix_len(fb, n);
    lemma_text_prefix_len(fb, n - 1);
    lemma_row_text_prefix_len(fb.row(y), fb.xdensity as int, fb.width as int);
    assert(0 <= ls && ls + ll == (y * yd + d + 1) * ll && (y * yd + d + 1) * ll <= n * (yd * ll))
        by (nonlinear_arith)
        requires
            ls == (y * yd + d) * ll,
            0 <= y < n,
            0 <= d < yd,
            ll >= 1,
    ;
    if y == n - 1 {
        lemma_row_text_prefix_len(fb.row(n - 1), fb.xdensity as int, fb.width as int);
        lemma_repeat_text_len(fb.row_line(n - 1), yd);
        lemma_repeat_text_unit(fb.row_line(y), yd, d);
        assert(((n - 1) * yd + d) * ll == (n - 1) * (yd * ll) + d * ll && ((n - 1) * yd + d + 1)
            * ll == (n - 1) * (yd * ll) + (d + 1) * ll) by (nonlinear_arith);
        assert(fb.text_prefix(n).subrange(ls, ls + ll) =~= repeat_text(
            fb.row_line(y),
            yd,
        ).subrange(d * ll, (d + 1) * ll));
    } else {
        lemma_text_prefix_line(fb, n - 1, y, d);
        assert(ls + ll <= (n - 1) * (yd * ll)) by (nonlinear_arith)
            requires
                ls == (y * yd + d) * ll,
                0 <= y < n - 1,
                0 <= d < yd,
                ll >= 1,
        ;
        assert(fb.text_prefix(n).subrange(ls, ls + ll) =~= fb.text_prefix(n - 1).subrange(
            ls,
            ls + ll,
        ));
    }
}

/// In the serialized text, cell `(x, y)` shows as its text repeated
/// `xdensity` times, at its stretch of each of the row's output lines.
#[verifier::rlimit(60)]
pub proof fn lemma_text_shows_cell(fb: Framebuffer, x: int, y: int, d: int)
    requires
        fb.wf(),
        0 <= x < fb.width,
        0 <= y < fb.height,
        0 <= d < fb.ydensity,
    ensures
        fb.text().len() == fb.height as int * (fb.ydensity as int * fb.line_len()),
        fb.text().subrange(
            fb.cell_start(x, y, d),
            fb.cell_start(x, y, d) + fb.xdensity as int * 13,
        ) == repeat_text(cell_text(fb.data@[y * fb.width as int + x]), fb.xdensity as int),
{
    let xd = fb.xdensity as int;
    let u = xd * 13;
    let w = fb.width as int;
    let ls = fb.line_start(y, d);
    let cs = fb.cell_start(x, y, d);
    lemma_text_prefix_len(fb, fb.height as int);
    lemma_text_prefix_line(fb, fb.height as int, y, d);
    lemma_row_text_prefix_len(fb.row(y), xd, w);
    lemma_row_text_prefix_cell(fb.row(y), xd, w, x);
    lemma_row_bounds(y, w, fb.height as int);
    assert(fb.row(y)[x] == fb.data@[y * w + x]);
    assert(0 <= x * u && x * u + u == (x + 1) * u && (x + 1) * u <= w * u) by (nonlinear_arith)
        requires
            0 <= x < w,
            u >= 0,
    ;
    assert(0 <= ls && ls + fb.line_len() <= fb.height as int * (fb.ydensity as int
        * fb.line_len())) by (nonlinear_arith)
        requires
            ls == (y * fb.ydensity as int + d) * fb.line_len(),
            0 <= y < fb.height as int,
            0 <= d < fb.ydensity as int,
            fb.line_len() >= 1,
    ;
    assert(fb.row_line(y).subrange(x * u, (x + 1) * u) =~= row_text_prefix(
        fb.row(y),
        xd,
        w,
    ).subrange(x * u, (x + 1) * u));
    assert(fb.text().subrange(cs, cs + u) =~= fb.row_line(y).subrange(x * u, (x + 1) * u));
}

/// Distinct cells sit at distinct row-major indices.
pub proof fn lemma_row_major_injective(x1: int, y1: int, x2: int, y2: int, w: int)
    requires
        0 <= x1 < w,
        0 <= x2 < w,
        0 <= y1,
        0 <= y2,
        x1 != x2 || y1 != y2,
    ensures
        y1 * w + x1 != y2 * w + x2,
{
    assert(y1 * w + x1 != y2 * w + x2) by (nonlinear_arith)
        requires
            0 <= x1 < w,
            0 <= x2 < w,
            0 <= y1,
            0 <= y2,
            x1 != x2 || y1 != y2,
    ;
}

/// Writing one pixel and then serializing round-trips: the written pixel's
/// text appears, repeated `xdensity` times, at the written cell's stretch
/// of each of its `ydensity` output lines, and every other cell's stretch
/// reads exactly as it did before the write.
pub proof fn lemma_set_pixel_serialize_round_trip(
    pre: Framebuffer,
    post: Framebuffer,
    x: int,
    y: int,
    value: Pixel,
)
    requires
        pre.wf(),
        0 <= x < pre.width,
        0 <= y < pre.height,
        post.width == pre.width,
        post.height == pre.height,
        post.xdensity == pre.xdensity,
        post.ydensity == pre.ydensity,
        post.data@ == pre.data@.update(y * pre.width as int + x, value),
    ensures
        post.wf(),
        forall|d: int|
            0 <= d < post.ydensity ==> post.text().subrange(
                #[trigger] post.cell_start(x, y, d),
                post.cell_start(x, y, d) + post.xdensity as int * 13,
            ) == repeat_text(cell_text(value), post.xdensity as int),
        forall|x2: int, y2: int, d: int|
            0 <= x2 < post.width && 0 <= y2 < post.height && 0 <= d < post.ydensity && (x2 != x
                || y2 != y) ==> post.text().subrange(
                #[trigger] post.cell_start(x2, y2, d),
                post.cell_start(x2, y2, d) + post.xdensity as int * 13,
            ) == pre.text().subrange(
                pre.cell_start(x2, y2, d),
                pre.cell_start(x2, y2, d) + pre.xdensity as int * 13,
            ),
{
    let w = pre.width as int;
    let h = pre.height as int;
    lemma_row_major_index(x, y, w, h);
    assert forall|d: int| 0 <= d < post.ydensity implies post.text().subrange(
        #[trigger] post.cell_start(x, y, d),
        post.cell_start(x, y, d) + post.xdensity as int * 13,
    ) == repeat_text(cell_text(value), post.xdensity as int) by {
        lemma_text_shows_cell(post, x, y, d);
    }
    assert forall|x2: int, y2: int, d: int|
        0 <= x2 < post.width && 0 <= y2 < post.height && 0 <= d < post.ydensity && (x2 != x || y2
            != y) implies post.text().subrange(
        #[trigger] post.cell_start(x2, y2, d),
        post.cell_start(x2, y2, d) + post.xdensity as int * 13,
    ) == pre.text().subrange(
        pre.cell_start(x2, y2, d),
        pre.cell_start(x2, y2, d) + pre.xdensity as int * 13,
    ) by {
        lemma_row_major_index(x2, y2, w, h);
        lemma_row_major_injective(x2, y2, x, y, w);
        lemma_text_shows_cell(post, x2, y2, d);
        lemma_text_shows_cell(pre, x2, y2, d);
    }
}

/// The terminal-sized drawing context: remembers the terminal dimensions so
/// a fresh framebuffer of the same size can replace a drawn one.
#[derive(Debug)]
pub struct TetrisContext {
    pub term_width: u16,
    pub term_height: u16,
    pub framebuffer: Framebuffer,
}

impl TetrisContext {
    /// The terminal size to use: the detected one, or 40 by 40 cells when
    /// none could be detected.
    pub open spec fn spec_effective_size(size: Option<(u16, u16)>) -> (u16, u16) {
        match size {
            Some(s) => s,
            None => (40u16, 40u16),
        }
    }

    /// Builds the context for a detected terminal size, falling back to a
    /// fixed 40 by 40 cells when the size is unknown, with a fresh
    /// all-background framebuffer of that size.
    pub fn init_with_size(size: Option<(u16, u16)>) -> (r: TetrisContext)
        requires
            (Self::spec_effective_size(size).0 as int / 2) * (Self::spec_effective_size(size).1
                as int) <= u16::MAX,
        ensures
            (r.term_width, r.term_height) == Self::spec_effective_size(size),
            r.framebuffer.term_width == r.term_width,
            r.framebuffer.term_height == r.term_height,
            r.framebuffer.xdensity == 2,
            r.framebuffer.ydensity == 1,
            r.framebuffer.width == r.term_width as int / 2,
            r.framebuffer.height == r.term_height,
            r.framebuffer.wf(),
            forall|i: int|
                0 <= i < r.framebuffer.data@.len() ==> r.framebuffer.data@[i]
                    == Pixel::Background,
    {
        let (w, h): (u16, u16) = match size {
            Some(s) => s,
            None => (40, 40),
        };
        TetrisContext { term_width: w, term_height: h, framebuffer: Framebuffer::new(w, h) }
    }

    /// Forgets the drawn frame: puts a fresh all-background framebuffer of
    /// the remembered terminal size in place of the current one. The caller
    /// displays the old frame's text first.
    pub fn next_frame(&mut self)
        requires
            (old(self).term_width as int / 2) * (old(self).term_height as int) <= u16::MAX,
        ensures
            final(self).term_width == old(self).term_width,
            final(self).term_height == old(self).term_height,
            final(self).framebuffer.term_width == old(self).term_width,
            final(self).framebuffer.term_height == old(self).term_height,
            final(self).framebuffer.xdensity == 2,
            final(self).framebuffer.ydensity == 1,
            final(self).framebuffer.width == old(self).term_width as int / 2,
            final(self).framebuffer.height == old(self).term_height,
            final(self).framebuffer.wf(),
            forall|i: int|
                0 <= i < final(self).framebuffer.data@.len() ==> final(self).framebuffer.data@[i]
                    == Pixel::Background,
    {
        self.framebuffer = Framebuffer::new(self.term_width, self.term_height);
    }
}

} // verus!

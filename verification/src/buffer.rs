use crate::plot_utils::Trace;
use crate::text::push_rgb;
use crate::text::rgb_text;
use crate::vec3::Vec3;
use vstd::prelude::*;
use vstd::string::StringExecFns;

verus! {

/// Code point of the braille pattern with no dot raised.
pub const BRAILLE_START: u16 = 0x2800;

/// Dots across one character cell.
pub const BRAILLE_WIDTH: usize = 2;

/// Dots down one character cell.
pub const BRAILLE_HEIGHT: usize = 4;

/// The colour dots are drawn in unless another is chosen.
pub open spec fn foreground_default() -> Vec3<u8> {
    Vec3 { x: 0, y: 0, z: 255 }
}

/// The colour dots are drawn on unless another is chosen.
pub open spec fn background_default() -> Vec3<u8> {
    Vec3 { x: 220, y: 220, z: 220 }
}

/// Which bit of a braille pattern stands for the dot in column `x` and row
/// `y` of a character cell: the first three rows take bits 0 to 5, column by
/// column, and the fourth row bits 6 and 7.
pub open spec fn dot_bit(x: int, y: int) -> u8 {
    if 0 <= x < 2 && 0 <= y < 3 {
        (3 * x + y) as u8
    } else if 0 <= x < 2 && y == 3 {
        (6 + x) as u8
    } else {
        0
    }
}

/// A grid of dots as a terminal shows it: each character cell covers two
/// dots across and four down.
pub struct Dots {
    pub width: int,
    pub height: int,
    pub lit: Seq<bool>,
    pub foreground: Vec3<u8>,
    pub background: Vec3<u8>,
}

impl Dots {
    /// Where the dot in column `p.0` of row `p.1` is stored, if it is on
    /// the grid.
    pub open spec fn cell_index(self, p: (int, int)) -> Option<int> {
        if 0 <= p.0 < self.width && 0 <= p.1 < self.height {
            Some(self.width * p.1 + p.0)
        } else {
            None
        }
    }

    /// Whether the dot in column `x` of row `y` is on the grid and raised.
    pub open spec fn is_lit(self, x: int, y: int) -> bool {
        match self.cell_index((x, y)) {
            Some(i) => self.lit[i],
            None => false,
        }
    }

    /// The grid with the dot at `p` raised, if `p` is on the grid.
    pub open spec fn with_point(self, p: (int, int)) -> Dots {
        match self.cell_index(p) {
            Some(i) => Dots {
                width: self.width,
                height: self.height,
                lit: self.lit.update(i, true),
                foreground: self.foreground,
                background: self.background,
            },
            None => self,
        }
    }

    /// The grid with the first `n` of the points `(xs[k], ys[k])` raised.
    pub open spec fn with_points(self, xs: Seq<usize>, ys: Seq<usize>, n: nat) -> Dots
        decreases n,
    {
        if n == 0 {
            self
        } else {
            self.with_points(xs, ys, (n - 1) as nat).with_point(
                (xs[n - 1] as int, ys[n - 1] as int),
            )
        }
    }

    /// The grid with the first `n` points of the line from `from` to `to`
    /// raised.
    pub open spec fn with_trace(self, from: (int, int), to: (int, int), n: nat) -> Dots
        decreases n,
    {
        if n == 0 {
            self
        } else {
            self.with_trace(from, to, (n - 1) as nat).with_point(
                Trace::start(from, to).after((n - 1) as nat).at,
            )
        }
    }

    /// The grid with every point of the line from `from` to `to` raised.
    pub open spec fn with_line(self, from: (int, int), to: (int, int)) -> Dots {
        self.with_trace(from, to, (Trace::start(from, to).span() + 1) as nat)
    }

    /// The grid with the first `n` segments of the line strip through the
    /// points `(xs[k], ys[k])` raised.
    pub open spec fn with_strip(self, xs: Seq<usize>, ys: Seq<usize>, n: nat) -> Dots
        decreases n,
    {
        if n == 0 {
            self
        } else {
            self.with_strip(xs, ys, (n - 1) as nat).with_line(
                (xs[n - 1] as int, ys[n - 1] as int),
                (xs[n as int] as int, ys[n as int] as int),
            )
        }
    }

    /// The braille pattern of the character cell in column `cx` of row `cy`,
    /// taking in the first `n` of its eight dots, row by row.
    pub open spec fn pattern(self, cx: int, cy: int, n: nat) -> u8
        decreases n,
    {
        if n == 0 {
            0
        } else {
            let dx = (n - 1) % 2;
            let dy = (n - 1) / 2;
            let rest = self.pattern(cx, cy, (n - 1) as nat);
            if self.is_lit(cx * 2 + dx, cy * 4 + dy) {
                rest | (1u8 << dot_bit(dx, dy))
            } else {
                rest
            }
        }
    }

    /// The braille character that shows the character cell in column `cx` of
    /// row `cy`.
    pub open spec fn glyph(self, cx: int, cy: int) -> char {
        (BRAILLE_START + self.pattern(cx, cy, 8)) as char
    }

    /// The first `n` characters of row `cy`.
    pub open spec fn row_text(self, cy: int, n: nat) -> Seq<char>
        decreases n,
    {
        if n == 0 {
            Seq::empty()
        } else {
            self.row_text(cy, (n - 1) as nat).push(self.glyph(n - 1, cy))
        }
    }

    /// The first `rows` rows of characters, each ended by a line break.
    pub open spec fn text(self, rows: nat) -> Seq<char>
        decreases rows,
    {
        if rows == 0 {
            Seq::empty()
        } else {
            self.text((rows - 1) as nat) + self.row_text(
                rows - 1,
                (self.width / 2) as nat,
            ).push('\n')
        }
    }
}

impl Dots {
    /// Everything a terminal is sent to show the grid: the sequences that
    /// select the two colours, the text of the grid between hiding the
    /// cursor at the top left corner and showing it again, and the sequence
    /// that resets the colours.
    pub open spec fn frame(self) -> Seq<char> {
        "\x1b[38;2;"@ + rgb_text(self.foreground.x, self.foreground.y, self.foreground.z) + "m"@
            + "\x1b[48;2;"@ + rgb_text(self.background.x, self.background.y, self.background.z)
            + "m"@ + "\x1b[?25l\x1b[0H"@ + self.text((self.height / 4) as nat) + "\x1b[?25h"@
            + "\x1b[0m"@
    }
}

/// One dot of the grid: its two colours and whether it is raised.
#[derive(Clone, Copy)]
pub struct Dot {
    pub fg: Vec3<u8>,
    pub bg: Vec3<u8>,
    pub active: bool,
}

impl Dot {
    /// A dot in the colours `fg` on `bg`, raised if `active`.
    pub fn build(fg: Vec3<u8>, bg: Vec3<u8>, active: bool) -> (r: Dot)
        ensures
            r.fg == fg,
            r.bg == bg,
            r.active == active,
    {
        Dot { fg, bg, active }
    }
}

impl Default for Dot {
    /// A lowered dot in the default colours.
    fn default() -> (r: Self)
        ensures
            r.fg == foreground_default(),
            r.bg == background_default(),
            !r.active,
    {
        Dot::build(Vec3::build(0, 0, 255), Vec3::build(220, 220, 220), false)
    }
}

/// A grid of braille dots that is drawn on by screen coordinates and shown
/// as text, one character for every two by four dots.
pub struct Buffer {
    height: usize,
    width: usize,
    dots: Vec<Dot>,
    text: Vec<Option<char>>,
    foreground: Vec3<u8>,
    background: Vec3<u8>,
}

impl Buffer {
    #[verifier::type_invariant]
    spec fn well_formed(&self) -> bool {
        &&& self.dots@.len() == self.width * self.height
        &&& self.text@.len() == self.width * self.height
    }

    /// Size, raised dots and colours of the grid.
    pub closed spec fn view(&self) -> Dots {
        Dots {
            width: self.width as int,
            height: self.height as int,
            lit: Seq::new(self.dots@.len(), |i: int| self.dots@[i].active),
            foreground: self.foreground,
            background: self.background,
        }
    }

    /// The largest screen coordinate a line strip may pass through.
    pub open spec fn limit() -> int {
        isize::MAX / 8
    }

    /// A grid for a terminal area of `width_terminal` by `height_terminal`
    /// characters, with no dot raised.
    pub fn build(width_terminal: usize, height_terminal: usize) -> (r: Self)
        requires
            width_terminal * BRAILLE_WIDTH <= usize::MAX,
            height_terminal * BRAILLE_HEIGHT <= usize::MAX,
            width_terminal * BRAILLE_WIDTH * (height_terminal * BRAILLE_HEIGHT) <= usize::MAX,
        ensures
            r@.width == width_terminal * BRAILLE_WIDTH,
            r@.height == height_terminal * BRAILLE_HEIGHT,
            r@.lit.len() == r@.width * r@.height,
            forall|i: int| 0 <= i < r@.lit.len() ==> !r@.lit[i],
            r@.foreground == foreground_default(),
            r@.background == background_default(),
    {
        let width = width_terminal * BRAILLE_WIDTH;
        let height = height_terminal * BRAILLE_HEIGHT;
        let cells = width * height;
        let mut dots: Vec<Dot> = Vec::new();
        let mut text: Vec<Option<char>> = Vec::new();
        let mut i: usize = 0;
        while i < cells
            invariant
                i <= cells,
                dots@.len() == i,
                text@.len() == i,
                forall|j: int| 0 <= j < i ==> !dots@[j].active,
            decreases cells - i,
        {
            dots.push(Dot::default());
            text.push(None);
            i += 1;
        }
        Buffer {
            height,
            width,
            dots,
            text,
            foreground: Vec3::build(0, 0, 255),
            background: Vec3::build(220, 220, 220),
        }
    }

    /// Sets the colour the text is shown in and hands the buffer back for
    /// chaining.
    pub fn set_fg_color(&mut self, color: Vec3<u8>) -> (ret: &mut Self)
        ensures
            ret@ == (Dots {
                width: old(self)@.width,
                height: old(self)@.height,
                lit: old(self)@.lit,
                foreground: color,
                background: old(self)@.background,
            }),
            *final(self) == *final(ret),
    {
        proof {
            use_type_invariant(&*self);
        }
        self.foreground = color;
        self
    }

    /// Sets the colour the text is shown on and hands the buffer back for
    /// chaining.
    pub fn set_bg_color(&mut self, color: Vec3<u8>) -> (ret: &mut Self)
        ensures
            ret@ == (Dots {
                width: old(self)@.width,
                height: old(self)@.height,
                lit: old(self)@.lit,
                foreground: old(self)@.foreground,
                background: color,
            }),
            *final(self) == *final(ret),
    {
        proof {
            use_type_invariant(&*self);
        }
        self.background = color;
        self
    }

    /// Number of characters across.
    pub fn width_chars(&self) -> (r: usize)
        ensures
            r == self@.width / 2,
    {
        self.width / BRAILLE_WIDTH
    }

    /// Number of characters down.
    pub fn height_chars(&self) -> (r: usize)
        ensures
            r == self@.height / 4,
    {
        self.height / BRAILLE_HEIGHT
    }

    /// Lowers every dot.
    pub fn clear(&mut self)
        ensures
            final(self)@.width == old(self)@.width,
            final(self)@.height == old(self)@.height,
            final(self)@.foreground == old(self)@.foreground,
            final(self)@.background == old(self)@.background,
            final(self)@.lit.len() == old(self)@.lit.len(),
            forall|i: int| 0 <= i < final(self)@.lit.len() ==> !final(self)@.lit[i],
    {
        proof {
            use_type_invariant(&*self);
        }
        let mut i: usize = 0;
        while i < self.dots.len()
            invariant
                i <= self.dots@.len(),
                self.dots@.len() == old(self).dots@.len(),
                self.text == old(self).text,
                self.width == old(self).width,
                self.height == old(self).height,
                self.foreground == old(self).foreground,
                self.background == old(self).background,
                self.dots@.len() == self.width * self.height,
                self.text@.len() == self.width * self.height,
                forall|j: int| 0 <= j < i ==> !self.dots@[j].active,
            decreases self.dots@.len() - i,
        {
            self.dots[i] = Dot::default();
            i += 1;
        }
    }

    fn index(&self, x: usize, y: usize) -> (r: usize)
        requires
            self.width * y + x <= usize::MAX,
        ensures
            r == self.width * y + x,
    {
        assert(0 <= self.width * y) by (nonlinear_arith)
            requires
                0 <= y,
                0 <= self.width,
        ;
        self.width * y + x
    }

    fn inbounds(&self, x: usize, y: usize) -> (r: bool)
        ensures
            r == (x < self.width && y < self.height),
    {
        x < self.width && y < self.height
    }

    /// A dot on the grid has its place in the storage.
    proof fn lemma_index_in_range(&self, x: int, y: int)
        requires
            self.dots@.len() == self.width * self.height,
            0 <= x < self.width,
            0 <= y < self.height,
        ensures
            0 <= self.width * y + x < self.dots@.len(),
            self.width * y + x <= usize::MAX,
    {
        assert(self.dots@.len() == self.dots.len());
        assert(self.width * y + self.width <= self.width * self.height) by (nonlinear_arith)
            requires
                0 <= y < self.height,
                0 <= self.width,
        ;
        assert(0 <= self.width * y) by (nonlinear_arith)
            requires
                0 <= y,
                0 <= self.width,
        ;
    }

    /// Stores `dot` in column `x` of row `y` and tells whether that place is
    /// on the grid; off the grid nothing changes.
    fn set(&mut self, x: usize, y: usize, dot: Dot) -> (r: bool)
        ensures
            r == (old(self)@.cell_index((x as int, y as int)) is Some),
            final(self).width == old(self).width,
            final(self).height == old(self).height,
            final(self).text == old(self).text,
            final(self).foreground == old(self).foreground,
            final(self).background == old(self).background,
            r ==> final(self).dots@ == old(self).dots@.update(
                old(self)@.cell_index((x as int, y as int))->0,
                dot,
            ),
            !r ==> final(self).dots@ == old(self).dots@,
    {
        proof {
            use_type_invariant(&*self);
        }
        if !self.inbounds(x, y) {
            return false;
        }
        proof {
            self.lemma_index_in_range(x as int, y as int);
        }
        let index = self.index(x, y);
        self.dots[index] = dot;
        true
    }

    fn get_dot(&self, x: usize, y: usize) -> (r: Option<Dot>)
        ensures
            r == (match self@.cell_index((x as int, y as int)) {
                Some(i) => Some(self.dots@[i]),
                None => None,
            }),
    {
        proof {
            use_type_invariant(self);
        }
        if !self.inbounds(x, y) {
            return None;
        }
        proof {
            self.lemma_index_in_range(x as int, y as int);
        }
        let index = self.index(x, y);
        Some(self.dots[index])
    }

    fn get_dot_bit_position(&self, x: usize, y: usize) -> (r: u8)
        ensures
            r == dot_bit(x as int, y as int),
    {
        match (x, y) {
            (0, 0) => 0,
            (0, 1) => 1,
            (0, 2) => 2,
            (1, 0) => 3,
            (1, 1) => 4,
            (1, 2) => 5,
            (0, 3) => 6,
            (1, 3) => 7,
            _ => 0,
        }
    }
}

impl Buffer {
    /// Raising a stored dot raises the dot of the grid at its place.
    proof fn lemma_set_raises(before: Buffer, after: Buffer, p: (int, int), dot: Dot)
        requires
            dot.active,
            before.dots@.len() == before.width * before.height,
            after.width == before.width,
            after.height == before.height,
            after.foreground == before.foreground,
            after.background == before.background,
            match before@.cell_index(p) {
                Some(i) => after.dots@ == before.dots@.update(i, dot),
                None => after.dots@ == before.dots@,
            },
        ensures
            after@ == before@.with_point(p),
    {
        match before@.cell_index(p) {
            Some(i) => {
                before.lemma_index_in_range(p.0, p.1);
                assert(after@.lit =~= before@.lit.update(i, true));
            },
            None => {
                assert(after@.lit =~= before@.lit);
            },
        }
    }

    /// Raises the dot at each of the screen positions `(xs[k], ys[k])`;
    /// positions off the grid are passed over.
    pub fn plot_points_2d(&mut self, xs: &[usize], ys: &[usize])
        requires
            xs@.len() == ys@.len(),
        ensures
            final(self)@ == old(self)@.with_points(xs@, ys@, xs@.len()),
    {
        proof {
            use_type_invariant(&*self);
        }
        let mut k: usize = 0;
        while k < xs.len()
            invariant
                k <= xs@.len(),
                xs@.len() == ys@.len(),
                self.dots@.len() == self.width * self.height,
                self@ == old(self)@.with_points(xs@, ys@, k as nat),
            decreases xs@.len() - k,
        {
            let ghost before = *self;
            let dot = Dot::build(Vec3::build(0, 0, 255), Vec3::build(220, 220, 220), true);
            self.set(xs[k], ys[k], dot);
            proof {
                use_type_invariant(&*self);
                Self::lemma_set_raises(before, *self, (xs@[k as int] as int, ys@[k as int] as int), dot);
            }
            k += 1;
        }
    }

    /// Raises the dots of the line strip through the screen positions
    /// `(xs[k], ys[k])`, one straight line from each position to the next.
    pub fn plot_linstrip_2d(&mut self, xs: &[usize], ys: &[usize])
        requires
            xs@.len() == ys@.len(),
            forall|k: int| 0 <= k < xs@.len() ==> xs@[k] <= Self::limit(),
            forall|k: int| 0 <= k < ys@.len() ==> ys@[k] <= Self::limit(),
        ensures
            xs@.len() == 0 ==> final(self)@ == old(self)@,
            xs@.len() > 0 ==> final(self)@ == old(self)@.with_strip(
                xs@,
                ys@,
                (xs@.len() - 1) as nat,
            ),
    {
        if xs.len() == 0 {
            return ;
        }
        let mut k: usize = 0;
        while k < xs.len() - 1
            invariant
                k <= xs@.len() - 1,
                xs@.len() == ys@.len(),
                forall|k: int| 0 <= k < xs@.len() ==> xs@[k] <= Self::limit(),
                forall|k: int| 0 <= k < ys@.len() ==> ys@[k] <= Self::limit(),
                self@ == old(self)@.with_strip(xs@, ys@, k as nat),
            decreases xs@.len() - 1 - k,
        {
            self.bresen_plot_line(
                xs[k] as isize,
                ys[k] as isize,
                xs[k + 1] as isize,
                ys[k + 1] as isize,
                Dot::build(Vec3::build(0, 0, 255), Vec3::build(220, 220, 220), true),
            );
            k += 1;
        }
    }

    /// Raises the dots of the straight line from `(x0, y0)` to `(x1, y1)`,
    /// as far as they lie on the grid.
    fn bresen_plot_line(&mut self, x0: isize, y0: isize, x1: isize, y1: isize, dot: Dot)
        requires
            dot.active,
            -Self::limit() <= x0 <= Self::limit(),
            -Self::limit() <= y0 <= Self::limit(),
            -Self::limit() <= x1 <= Self::limit(),
            -Self::limit() <= y1 <= Self::limit(),
        ensures
            final(self)@ == old(self)@.with_line(
                (x0 as int, y0 as int),
                (x1 as int, y1 as int),
            ),
    {
        let ghost from = (x0 as int, y0 as int);
        let ghost to = (x1 as int, y1 as int);
        let ghost start = Trace::start(from, to);
        let ghost mut n: nat = 0;
        let mut x0 = x0;
        let mut y0 = y0;
        let dx = if x1 - x0 < 0 {
            -(x1 - x0)
        } else {
            x1 - x0
        };
        let dy = if y1 - y0 < 0 {
            y1 - y0
        } else {
            -(y1 - y0)
        };
        let sx: isize = if x0 < x1 {
            1
        } else {
            -1
        };
        let sy: isize = if y0 < y1 {
            1
        } else {
            -1
        };
        let mut err = dx + dy;
        proof {
            use_type_invariant(&*self);
            Trace::lemma_start_on_course(from, to);
            assert(0 * start.dy() == 0 && 0 * start.dx() == 0);
        }
        loop
            invariant_except_break
                n <= start.span(),
                self@ == old(self)@.with_trace(from, to, n),
                start.after(n).at == (x0 as int, y0 as int),
                err == start.after(n).err(),
            invariant
                start == Trace::start(from, to),
                start.on_course(),
                start.remaining() == start.span(),
                !start.done,
                self.dots@.len() == self.width * self.height,
                dot.active,
                dx == start.dx(),
                dy == start.dy(),
                sx == start.sx(),
                sy == start.sy(),
                x1 == to.0,
                y1 == to.1,
                0 <= dx <= 2 * Self::limit(),
                -2 * Self::limit() <= dy <= 0,
                -Self::limit() <= to.0 <= Self::limit(),
                -Self::limit() <= to.1 <= Self::limit(),
                -Self::limit() <= from.0 <= Self::limit(),
                -Self::limit() <= from.1 <= Self::limit(),
            ensures
                self@ == old(self)@.with_line(from, to),
            decreases start.span() - n,
        {
            let ghost here = start.after(n);
            let ghost before = *self;
            proof {
                start.lemma_after(n);
                here.lemma_at_end_iff_none_remaining();
            }
            if x0 >= 0 && y0 >= 0 {
                self.set(x0 as usize, y0 as usize, dot);
            }
            proof {
                use_type_invariant(&*self);
                Self::lemma_set_raises(before, *self, here.at, dot);
            }
            if x0 == x1 && y0 == y1 {
                break ;
            }
            proof {
                here.lemma_advance_on_course();
            }
            let e2 = 2 * err;
            if e2 >= dy {
                if x0 == x1 {
                    // a horizontal move is due only short of the last column
                    proof {
                        assert(here.advance().rx() == here.rx() - 1);
                        assert(false);
                    }
                    break ;
                }
                err += dy;
                x0 += sx;
            }
            if e2 <= dx {
                if y0 == y1 {
                    // a vertical move is due only short of the last row
                    proof {
                        assert(here.advance().ry() == here.ry() - 1);
                        assert(false);
                    }
                    break ;
                }
                err += dx;
                y0 += sy;
            }
            proof {
                n = n + 1;
            }
        }
    }

    /// The braille character for the character cell in column `cx` of row
    /// `cy`.
    fn get_braille_char(&self, cx: usize, cy: usize) -> (r: char)
        requires
            cx < self@.width / 2,
            cy < self@.height / 4,
        ensures
            r == self@.glyph(cx as int, cy as int),
    {
        let mut pattern: u8 = 0;
        let mut dy: usize = 0;
        while dy < BRAILLE_HEIGHT
            invariant
                dy <= 4,
                cx < self@.width / 2,
                cy < self@.height / 4,
                pattern == self@.pattern(cx as int, cy as int, (dy * 2) as nat),
            decreases 4 - dy,
        {
            let mut dx: usize = 0;
            while dx < BRAILLE_WIDTH
                invariant
                    dx <= 2,
                    dy < 4,
                    cx < self@.width / 2,
                    cy < self@.height / 4,
                    pattern == self@.pattern(cx as int, cy as int, (dy * 2 + dx) as nat),
                decreases 2 - dx,
            {
                proof {
                    let n = dy * 2 + dx;
                    assert(n % 2 == dx && n / 2 == dy);
                }
                let dot_bit = self.get_dot_bit_position(dx, dy);
                let x = cx * BRAILLE_WIDTH + dx;
                let y = cy * BRAILLE_HEIGHT + dy;
                proof {
                    use_type_invariant(self);
                    if x < self.width && y < self.height {
                        self.lemma_index_in_range(x as int, y as int);
                    }
                    assert(self@.is_lit(x as int, y as int) == (match self@.cell_index(
                        (x as int, y as int),
                    ) {
                        Some(i) => self.dots@[i].active,
                        None => false,
                    }));
                }
                if let Some(dotstate) = self.get_dot(x, y) {
                    if dotstate.active {
                        pattern |= 1_u8 << dot_bit;
                    }
                }
                dx += 1;
            }
            dy += 1;
        }
        let unicode_char = BRAILLE_START + pattern as u16;
        match char::from_u32(unicode_char as u32) {
            Some(c) => c,
            None => ' ',
        }
    }

    /// The grid as text: one line of braille characters for every four rows
    /// of dots, each line ended by a line break.
    pub fn render_to_string(&self) -> (result: String)
        ensures
            result@ == self@.text((self@.height / 4) as nat),
    {
        let mut result = String::new();
        let rows = self.height_chars();
        let columns = self.width_chars();
        let mut cy: usize = 0;
        while cy < rows
            invariant
                cy <= rows,
                rows == self@.height / 4,
                columns == self@.width / 2,
                result@ == self@.text(cy as nat),
            decreases rows - cy,
        {
            let ghost above = result@;
            let mut cx: usize = 0;
            while cx < columns
                invariant
                    cx <= columns,
                    cy < rows,
                    rows == self@.height / 4,
                    columns == self@.width / 2,
                    result@ == above + self@.row_text(cy as int, cx as nat),
                decreases columns - cx,
            {
                let chr = self.get_braille_char(cx, cy);
                result.push(chr);
                proof {
                    assert(result@ =~= above + self@.row_text(cy as int, (cx + 1) as nat));
                }
                cx += 1;
            }
            result.push('\n');
            proof {
                assert(result@ =~= self@.text((cy + 1) as nat));
            }
            cy += 1;
        }
        result
    }
}

impl Buffer {
    /// The text that shows the grid on a terminal, colours and cursor
    /// handling included.
    pub fn frame(&self) -> (r: String)
        ensures
            r@ == self@.frame(),
    {
        let mut out = String::from_str("\x1b[38;2;");
        push_rgb(&mut out, self.foreground.x, self.foreground.y, self.foreground.z);
        out.append("m");
        out.append("\x1b[48;2;");
        push_rgb(&mut out, self.background.x, self.background.y, self.background.z);
        out.append("m");
        out.append("\x1b[?25l\x1b[0H");
        let text = self.render_to_string();
        out.append(text.as_str());
        out.append("\x1b[?25h");
        out.append("\x1b[0m");
        proof {
            assert(out@ =~= self@.frame());
        }
        out
    }
}

} // verus!

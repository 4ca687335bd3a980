use crate::scalar::Floating;
use crate::scalar::FloatingSpec;
use crate::text::push_rgb;
use crate::text::rgb_text;
use crate::vector::Vec3;
use vstd::prelude::*;
use vstd::string::StringExecFns;

verus! {

/// What a [`Buffer`] holds: its size and its values, row by row.
pub struct Grid<T> {
    pub width: int,
    pub height: int,
    pub cells: Seq<T>,
}

impl<T> Grid<T> {
    /// Whether column `x` of row `y` lies on the grid.
    pub open spec fn inbounds(self, x: int, y: int) -> bool {
        0 <= x < self.width && 0 <= y < self.height
    }

    /// Where the value in column `x` of row `y` is stored.
    pub open spec fn index(self, x: int, y: int) -> int {
        self.width * y + x
    }

    /// The value in column `x` of row `y`.
    pub open spec fn at(self, x: int, y: int) -> T {
        self.cells[self.index(x, y)]
    }

    /// The grid with `value` at `p`, if `p` is on the grid.
    pub open spec fn with(self, p: (int, int), value: T) -> Grid<T> {
        if self.inbounds(p.0, p.1) {
            Grid {
                width: self.width,
                height: self.height,
                cells: self.cells.update(self.index(p.0, p.1), value),
            }
        } else {
            self
        }
    }
}

/// A rectangular grid of values, stored row by row.
pub struct Buffer<T> {
    pub buff: Vec<T>,
    pub height: usize,
    pub width: usize,
}

impl<T> Buffer<T> where T: Copy + Clone {
    /// Size and values of the grid.
    pub open spec fn view(&self) -> Grid<T> {
        Grid { width: self.width as int, height: self.height as int, cells: self.buff@ }
    }

    /// The grid holds one value for each of its `width * height` cells.
    pub open spec fn wf(&self) -> bool {
        self.buff@.len() == self.width * self.height
    }

    /// A cell on the grid has its place in the storage.
    pub proof fn lemma_index_in_range(&self, x: int, y: int)
        requires
            self.wf(),
            self@.inbounds(x, y),
        ensures
            0 <= self@.index(x, y) < self@.cells.len(),
            self@.index(x, y) <= usize::MAX,
    {
        assert(self.buff@.len() == self.buff.len());
        assert(self.width * y + self.width <= self.width * self.height) by (nonlinear_arith)
            requires
                0 <= y < self.height,
                0 <= self.width,
        ;
        assert(0 <= self.width * y) by (nonlinear_arith)
            requires
                0 <= y,
                0 <= self.width,
        ;
    }

    /// A grid of `height` rows and `width` columns with `fill` in every cell.
    pub fn build(height: usize, width: usize, fill: T) -> (r: Buffer<T>)
        requires
            height * width <= usize::MAX,
        ensures
            r.wf(),
            r@.height == height,
            r@.width == width,
            forall|i: int| 0 <= i < r@.cells.len() ==> r@.cells[i] == fill,
    {
        assert(height * width == width * height) by (nonlinear_arith);
        let mut buff: Vec<T> = Vec::new();
        let cells = height * width;
        let mut i: usize = 0;
        while i < cells
            invariant
                i <= cells,
                buff@.len() == i,
                forall|j: int| 0 <= j < i ==> buff@[j] == fill,
            decreases cells - i,
        {
            buff.push(fill);
            i += 1;
        }
        Buffer { height, width, buff }
    }

    /// Writes `data` to the cell in column `x` of row `y` and tells whether
    /// that cell is on the grid; off the grid nothing changes.
    pub fn set(&mut self, x: usize, y: usize, data: T) -> (r: bool)
        requires
            old(self).wf(),
        ensures
            final(self).wf(),
            r == old(self)@.inbounds(x as int, y as int),
            final(self)@ == old(self)@.with((x as int, y as int), data),
    {
        if !self.inbounds(x, y) {
            return false;
        }
        proof {
            self.lemma_index_in_range(x as int, y as int);
        }
        let index = self.index(x, y);
        self.buff[index] = data;
        true
    }

    /// The value in column `x` of row `y`, if that cell is on the grid.
    pub fn get(&self, x: usize, y: usize) -> (r: Option<T>)
        requires
            self.wf(),
        ensures
            r == if self@.inbounds(x as int, y as int) {
                Some(self@.at(x as int, y as int))
            } else {
                None
            },
    {
        if !self.inbounds(x, y) {
            return None;
        }
        proof {
            self.lemma_index_in_range(x as int, y as int);
        }
        let index = self.index(x, y);
        Some(self.buff[index])
    }

    /// The value stored for column `x` of row `y`.
    pub fn get_unchecked(&self, x: usize, y: usize) -> (r: T)
        requires
            self@.index(x as int, y as int) < self@.cells.len(),
        ensures
            r == self@.at(x as int, y as int),
    {
        assert(self.buff@.len() == self.buff.len());
        let index = self.index(x, y);
        self.buff[index]
    }

    fn index(&self, x: usize, y: usize) -> (r: usize)
        requires
            self.width * y + x <= usize::MAX,
        ensures
            r == self@.index(x as int, y as int),
    {
        assert(0 <= self.width * y) by (nonlinear_arith)
            requires
                0 <= y,
                0 <= self.width,
        ;
        self.width * y + x
    }

    fn inbounds(&self, x: usize, y: usize) -> (r: bool)
        ensures
            r == self@.inbounds(x as int, y as int),
    {
        x < self.width && y < self.height
    }
}

/// Where a line trace stands: the segment it follows, the point it will
/// hand out next, and whether it has handed out the last one.
pub struct Trace {
    pub from: (int, int),
    pub to: (int, int),
    pub at: (int, int),
    pub done: bool,
}

impl Trace {
    /// Horizontal extent of the segment.
    pub open spec fn dx(self) -> int {
        if self.from.0 < self.to.0 {
            self.to.0 - self.from.0
        } else {
            self.from.0 - self.to.0
        }
    }

    /// Vertical extent of the segment, negated.
    pub open spec fn dy(self) -> int {
        if self.from.1 < self.to.1 {
            self.from.1 - self.to.1
        } else {
            self.to.1 - self.from.1
        }
    }

    /// Horizontal direction of travel.
    pub open spec fn sx(self) -> int {
        if self.from.0 < self.to.0 {
            1
        } else {
            -1
        }
    }

    /// Vertical direction of travel.
    pub open spec fn sy(self) -> int {
        if self.from.1 < self.to.1 {
            1
        } else {
            -1
        }
    }

    /// Number of points the trace hands out after the first: the larger of
    /// the two extents of the segment.
    pub open spec fn span(self) -> int {
        if self.dx() >= -self.dy() {
            self.dx()
        } else {
            -self.dy()
        }
    }

    /// The error term at the current point: it starts at `dx + dy`, and each
    /// horizontal move adds `dy` to it, each vertical move `dx`.
    pub open spec fn err(self) -> int {
        let nx = if self.at.0 < self.from.0 {
            self.from.0 - self.at.0
        } else {
            self.at.0 - self.from.0
        };
        let ny = if self.at.1 < self.from.1 {
            self.from.1 - self.at.1
        } else {
            self.at.1 - self.from.1
        };
        self.dx() + self.dy() + nx * self.dy() + ny * self.dx()
    }

    /// The trace at the start of the segment from `from` to `to`.
    pub open spec fn start(from: (int, int), to: (int, int)) -> Trace {
        Trace { from, to, at: from, done: false }
    }

    /// The trace once the current point has been handed out: at the end of
    /// the segment it is done, elsewhere it moves one cell horizontally when
    /// twice the error term is at least `dy`, and one cell vertically when it
    /// is at most `dx`.
    pub open spec fn advance(self) -> Trace {
        if self.at == self.to {
            Trace { from: self.from, to: self.to, at: self.to, done: true }
        } else {
            let e2 = 2 * self.err();
            let x = if e2 >= self.dy() {
                self.at.0 + self.sx()
            } else {
                self.at.0
            };
            let y = if e2 <= self.dx() {
                self.at.1 + self.sy()
            } else {
                self.at.1
            };
            Trace { from: self.from, to: self.to, at: (x, y), done: false }
        }
    }

    /// The trace after `n` points have been handed out.
    pub open spec fn after(self, n: nat) -> Trace
        decreases n,
    {
        if n == 0 {
            self
        } else {
            self.after((n - 1) as nat).advance()
        }
    }

    /// Horizontal moves still to make.
    pub open spec fn rx(self) -> int {
        if self.from.0 < self.to.0 {
            self.to.0 - self.at.0
        } else {
            self.at.0 - self.to.0
        }
    }

    /// Vertical moves still to make.
    pub open spec fn ry(self) -> int {
        if self.from.1 < self.to.1 {
            self.to.1 - self.at.1
        } else {
            self.at.1 - self.to.1
        }
    }

    /// Moves still to make along the longer extent of the segment.
    pub open spec fn remaining(self) -> int {
        if self.dx() >= -self.dy() {
            self.rx()
        } else {
            self.ry()
        }
    }

    /// The current point lies between the two ends of the segment, and the
    /// error term keeps it next to the ideal line: a move along the longer
    /// extent is due at every point.
    pub open spec fn on_course(self) -> bool {
        &&& 0 <= self.rx() <= self.dx()
        &&& 0 <= self.ry() <= -self.dy()
        &&& 2 * self.dy() <= self.err() <= 2 * self.dx()
        &&& self.dx() >= -self.dy() ==> 2 * self.err() >= self.dy()
        &&& -self.dy() >= self.dx() ==> 2 * self.err() <= self.dx()
    }

    /// A trace starts on course.
    pub proof fn lemma_start_on_course(from: (int, int), to: (int, int))
        ensures
            Trace::start(from, to).on_course(),
            Trace::start(from, to).remaining() == Trace::start(from, to).span(),
    {
        let t = Trace::start(from, to);
        assert(0 * t.dy() == 0);
        assert(0 * t.dx() == 0);
    }

    /// A move keeps the trace on course: the point moves by at most one cell
    /// in each direction, never past the end of the segment, and always one
    /// cell along the longer extent.
    pub proof fn lemma_advance_on_course(self)
        requires
            self.on_course(),
            self.at != self.to,
        ensures
            self.advance().on_course(),
            self.advance().remaining() == self.remaining() - 1,
            self.advance().at.0 == self.at.0 || self.advance().at.0 == self.at.0 + self.sx(),
            self.advance().at.1 == self.at.1 || self.advance().at.1 == self.at.1 + self.sy(),
            self.advance().err() == self.err() + (if 2 * self.err() >= self.dy() {
                self.dy()
            } else {
                0
            }) + (if 2 * self.err() <= self.dx() {
                self.dx()
            } else {
                0
            }),
    {
        let dx = self.dx();
        let dy = self.dy();
        let rx = self.rx();
        let ry = self.ry();
        let nx = dx - rx;
        let ny = -dy - ry;
        let err = self.err();
        assert(err == dx + dy + nx * dy + ny * dx);
        let next = self.advance();
        if 2 * err >= dy {
            // a horizontal move is never due once the column of the end is reached
            if rx == 0 {
                assert(nx * dy + ny * dx == -(ry * dx)) by (nonlinear_arith)
                    requires
                        nx == dx,
                        ny == -dy - ry,
                ;
                assert(ry * dx >= dx) by (nonlinear_arith)
                    requires
                        ry >= 1,
                        dx >= 0,
                ;
                assert(false);
            }
            assert((nx + 1) * dy == nx * dy + dy) by (nonlinear_arith);
        }
        if 2 * err <= dx {
            // a vertical move is never due once the row of the end is reached
            if ry == 0 {
                assert(nx * dy + ny * dx == -(rx * dy)) by (nonlinear_arith)
                    requires
                        nx == dx - rx,
                        ny == -dy,
                ;
                assert(-(rx * dy) >= -dy) by (nonlinear_arith)
                    requires
                        rx >= 1,
                        dy <= 0,
                ;
                assert(false);
            }
            assert((ny + 1) * dx == ny * dx + dx) by (nonlinear_arith);
        }
    }

    /// While moves remain, the trace is on course, not done, and short of the
    /// end of the segment by exactly the moves that remain.
    pub proof fn lemma_after(self, n: nat)
        requires
            self.on_course(),
            !self.done,
            n <= self.remaining(),
        ensures
            self.after(n).on_course(),
            !self.after(n).done,
            self.after(n).from == self.from,
            self.after(n).to == self.to,
            self.after(n).remaining() == self.remaining() - n,
        decreases n,
    {
        if n > 0 {
            self.lemma_after((n - 1) as nat);
            let prev = self.after((n - 1) as nat);
            prev.lemma_at_end_iff_none_remaining();
            prev.lemma_advance_on_course();
        }
    }

    /// On course, the current point is the end of the segment exactly when no
    /// moves remain.
    pub proof fn lemma_at_end_iff_none_remaining(self)
        requires
            self.on_course(),
        ensures
            self.at == self.to <==> self.remaining() == 0,
    {
        let dx = self.dx();
        let dy = self.dy();
        let rx = self.rx();
        let ry = self.ry();
        let nx = dx - rx;
        let ny = -dy - ry;
        let err = self.err();
        assert(err == dx + dy + nx * dy + ny * dx);
        if rx == 0 && ry >= 1 {
            assert(nx * dy + ny * dx == -(ry * dx)) by (nonlinear_arith)
                requires
                    nx == dx,
                    ny == -dy - ry,
            ;
            assert(ry * dx >= dx) by (nonlinear_arith)
                requires
                    ry >= 1,
                    dx >= 0,
            ;
        }
        if ry == 0 && rx >= 1 {
            assert(nx * dy + ny * dx == -(rx * dy)) by (nonlinear_arith)
                requires
                    nx == dx - rx,
                    ny == -dy,
            ;
            assert(-(rx * dy) >= -dy) by (nonlinear_arith)
                requires
                    rx >= 1,
                    dy <= 0,
            ;
        }
    }
}

/// Walks the cells of a straight line between two grid points, one cell per
/// call, by Bresenham's method.
pub struct LineTracer {
    x0: isize,
    y0: isize,
    x1: isize,
    y1: isize,
    dx: isize,
    dy: isize,
    sx: isize,
    sy: isize,
    err: isize,
    done: bool,
}

impl LineTracer {
    /// The largest magnitude a coordinate of either end of a line may have.
    pub open spec fn limit() -> int {
        isize::MAX / 8
    }

    #[verifier::type_invariant]
    spec fn well_formed(&self) -> bool {
        let t = self@;
        &&& -Self::limit() <= t.from.0 <= Self::limit()
        &&& -Self::limit() <= t.from.1 <= Self::limit()
        &&& -Self::limit() <= t.to.0 <= Self::limit()
        &&& -Self::limit() <= t.to.1 <= Self::limit()
        &&& self.dx == t.dx()
        &&& self.dy == t.dy()
        &&& self.sx == t.sx()
        &&& self.sy == t.sy()
        &&& !self.done ==> t.on_course() && self.err == t.err()
    }

    /// The segment being traced and the progress along it.
    pub closed spec fn view(&self) -> Trace {
        Trace {
            from: (
                if self.sx == 1 {
                    self.x1 - self.dx
                } else {
                    self.x1 + self.dx
                },
                if self.sy == 1 {
                    self.y1 + self.dy
                } else {
                    self.y1 - self.dy
                },
            ),
            to: (self.x1 as int, self.y1 as int),
            at: if self.done {
                (self.x1 as int, self.y1 as int)
            } else {
                (self.x0 as int, self.y0 as int)
            },
            done: self.done,
        }
    }

    /// A trace of the line from `(x0, y0)` to `(x1, y1)`, about to hand out
    /// its first point.
    pub fn build(x0: isize, y0: isize, x1: isize, y1: isize) -> (r: Self)
        requires
            -Self::limit() <= x0 <= Self::limit(),
            -Self::limit() <= y0 <= Self::limit(),
            -Self::limit() <= x1 <= Self::limit(),
            -Self::limit() <= y1 <= Self::limit(),
        ensures
            r@ == Trace::start((x0 as int, y0 as int), (x1 as int, y1 as int)),
    {
        let dx = if x1 - x0 < 0 {
            -(x1 - x0)
        } else {
            x1 - x0
        };
        let dy = if y1 - y0 < 0 {
            y1 - y0
        } else {
            -(y1 - y0)
        };
        let sx: isize = if x0 < x1 {
            1
        } else {
            -1
        };
        let sy: isize = if y0 < y1 {
            1
        } else {
            -1
        };
        let err = dx + dy;
        proof {
            let t = Trace::start((x0 as int, y0 as int), (x1 as int, y1 as int));
            Trace::lemma_start_on_course((x0 as int, y0 as int), (x1 as int, y1 as int));
            assert(t.dx() == dx && t.dy() == dy && t.sx() == sx && t.sy() == sy);
            assert(0 * t.dy() == 0 && 0 * t.dx() == 0);
            assert(t.err() == dx + dy);
            assert(t.from.0 == (if sx == 1 {
                x1 - dx
            } else {
                x1 + dx
            }));
            assert(t.from.1 == (if sy == 1 {
                y1 + dy
            } else {
                y1 - dy
            }));
        }
        LineTracer { x0, y0, x1, y1, dx, dy, sx, sy, err, done: false }
    }

    /// Hands out the current point and moves on to the next; after the end
    /// of the line has been handed out, there is no further point.
    pub fn step(&mut self) -> (r: Option<(isize, isize)>)
        ensures
            old(self)@.done ==> r is None && final(self)@ == old(self)@,
            !old(self)@.done ==> {
                &&& r matches Some(p)
                &&& (p.0 as int, p.1 as int) == old(self)@.at
                &&& final(self)@ == old(self)@.advance()
            },
    {
        proof {
            use_type_invariant(&*self);
        }
        if self.done {
            return None;
        }
        let point = (self.x0, self.y0);
        let at_end = self.x0 == self.x1 && self.y0 == self.y1;
        proof {
            if !at_end {
                self@.lemma_advance_on_course();
            }
        }
        let e2 = 2 * self.err;
        let mut err = self.err;
        let mut x0 = self.x0;
        let mut y0 = self.y0;
        if e2 >= self.dy {
            err += self.dy;
            x0 += self.sx;
        }
        if e2 <= self.dx {
            err += self.dx;
            y0 += self.sy;
        }
        *self = LineTracer {
            x0,
            y0,
            x1: self.x1,
            y1: self.y1,
            dx: self.dx,
            dy: self.dy,
            sx: self.sx,
            sy: self.sy,
            err,
            done: at_end,
        };
        Some(point)
    }

    /// All points that are left, in order: from the current point to the end
    /// of the line, one for each move along the longer extent and one more.
    pub fn points(self) -> (r: Vec<(isize, isize)>)
        ensures
            self@.done ==> r@.len() == 0,
            !self@.done ==> {
                &&& r@.len() == self@.remaining() + 1
                &&& forall|k: int|
                    0 <= k < r@.len() ==> ((#[trigger] r@[k]).0 as int, r@[k].1 as int)
                        == self@.after(k as nat).at
                &&& (r@.last().0 as int, r@.last().1 as int) == self@.to
            },
    {
        let ghost start = self@;
        let mut tracer = self;
        let mut out: Vec<(isize, isize)> = Vec::new();
        proof {
            use_type_invariant(&tracer);
        }
        if tracer.done {
            return out;
        }
        loop
            invariant_except_break
                out@.len() <= start.remaining(),
                tracer@ == start.after(out@.len() as nat),
            invariant
                !start.done,
                start.on_course(),
                forall|k: int|
                    0 <= k < out@.len() ==> ((#[trigger] out@[k]).0 as int, out@[k].1 as int)
                        == start.after(k as nat).at,
            ensures
                out@.len() == start.remaining() + 1,
                (out@.last().0 as int, out@.last().1 as int) == start.to,
            decreases start.remaining() - out@.len(),
        {
            proof {
                start.lemma_after(out@.len() as nat);
                start.after(out@.len() as nat).lemma_at_end_iff_none_remaining();
            }
            if let Some(point) = tracer.step() {
                out.push(point);
            }
            if tracer.done {
                break ;
            }
        }
        out
    }

    /// The next point of the line, if any is left: the same as
    /// [`LineTracer::step`].
    pub fn next(&mut self) -> (r: Option<(isize, isize)>)
        ensures
            old(self)@.done ==> r is None && final(self)@ == old(self)@,
            !old(self)@.done ==> {
                &&& r matches Some(p)
                &&& (p.0 as int, p.1 as int) == old(self)@.at
                &&& final(self)@ == old(self)@.advance()
            },
    {
        self.step()
    }
}

/// A half-open range of scalars, from `min` up to but not including `max`.
pub struct Interval<T> {
    pub min: T,
    pub max: T,
}

impl<T> Interval<T> where T: Floating + Copy {
    /// The interval from `min` up to `max`.
    pub fn build(min: T, max: T) -> (r: Interval<T>)
        ensures
            r.min == min,
            r.max == max,
    {
        Interval { min, max }
    }

    /// Whether `value` is at least `min` and below `max`.
    pub fn contains(&self, value: T) -> (r: bool)
        requires
            T::is_arithmetic(),
        ensures
            r == (self.min.le_spec(value) && value.lt_spec(self.max)),
    {
        self.min.at_most(value) && value.less_than(self.max)
    }

    /// How far `value` lies between `min` and `max`, as a fraction of the
    /// length of the interval.
    pub fn normalized_coordinate(&self, value: T) -> (r: T)
        requires
            T::is_arithmetic(),
        ensures
            r == value.sub_spec(self.min).div_spec(self.max.sub_spec(self.min)),
    {
        value.minus(self.min).over(self.max.minus(self.min))
    }
}

/// A colour: red in `x`, green in `y`, blue in `z`.
pub type Color = Vec3<u8>;

/// The terminal escape sequence that selects `color` as foreground colour.
pub open spec fn ansi_front(color: Color) -> Seq<char> {
    "\x1b[38;2;"@ + rgb_text(color.x, color.y, color.z) + "m"@
}

/// The terminal escape sequence that selects `color` as background colour.
pub open spec fn ansi_back(color: Color) -> Seq<char> {
    "\x1b[48;2;"@ + rgb_text(color.x, color.y, color.z) + "m"@
}

impl Color {
    /// The escape sequence that makes a terminal draw in this colour.
    pub fn to_ansi_front(self) -> (r: String)
        ensures
            r@ == ansi_front(self),
    {
        let mut text = String::from_str("\x1b[38;2;");
        push_rgb(&mut text, self.x, self.y, self.z);
        text.append("m");
        text
    }

    /// The escape sequence that makes a terminal draw on this colour.
    pub fn to_ansi_back(self) -> (r: String)
        ensures
            r@ == ansi_back(self),
    {
        let mut text = String::from_str("\x1b[48;2;");
        push_rgb(&mut text, self.x, self.y, self.z);
        text.append("m");
        text
    }
}

/// The pair of colours that newly drawn cells get.
pub struct Brush {
    pub front: Vec3<u8>,
    pub back: Vec3<u8>,
}

impl Brush {
    /// A brush that draws in `fg` on `bg`.
    pub fn build(fg: Color, bg: Color) -> (r: Self)
        ensures
            r.front == fg,
            r.back == bg,
    {
        Brush { front: fg, back: bg }
    }

    /// Sets the foreground colour and hands the brush back for chaining.
    pub fn front_color(&mut self, r: u8, g: u8, b: u8) -> (ret: &mut Self)
        ensures
            ret.front == (Vec3 { x: r, y: g, z: b }),
            ret.back == old(self).back,
            *final(self) == *final(ret),
    {
        self.front = Vec3::build(r, g, b);
        self
    }

    /// Sets the background colour and hands the brush back for chaining.
    pub fn back_color(&mut self, r: u8, g: u8, b: u8) -> (ret: &mut Self)
        ensures
            ret.back == (Vec3 { x: r, y: g, z: b }),
            ret.front == old(self).front,
            *final(self) == *final(ret),
    {
        self.back = Vec3::build(r, g, b);
        self
    }
}

/// One cell of a plot: its two colours and whether anything is drawn in it.
#[derive(Clone, Copy, PartialEq)]
pub struct Cell {
    pub front: Color,
    pub back: Color,
    pub active: bool,
}

impl Cell {
    /// A drawn cell with the given colours.
    pub fn build(front: Color, back: Color) -> (r: Self)
        ensures
            r.front == front,
            r.back == back,
            r.active,
    {
        Cell { front, back, active: true }
    }
}

} // verus!

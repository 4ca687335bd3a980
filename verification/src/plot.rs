use crate::plot_utils::ansi_back;
use crate::plot_utils::ansi_front;
use crate::plot_utils::Brush;
use crate::plot_utils::Buffer;
use crate::plot_utils::Cell;
use crate::plot_utils::Color;
use crate::plot_utils::Grid;
use crate::plot_utils::LineTracer;
use crate::plot_utils::Trace;
use crate::vector::Vec3;
use vstd::prelude::*;
use vstd::string::StringExecFns;

verus! {

/// Code point of the braille pattern with no dot raised.
pub const BRAILLE_START: u16 = 0x2800;

/// Cells across one character.
pub const BRAILLE_WIDTH: usize = 2;

/// Cells down one character.
pub const BRAILLE_HEIGHT: usize = 4;

/// Cells in one character.
pub const BRAILLE_COUNT: usize = 8;

/// The colour cells are drawn in unless the brush says otherwise.
pub open spec fn foreground_default() -> Color {
    Vec3 { x: 0, y: 0, z: 255 }
}

/// The colour cells are drawn on unless the brush says otherwise.
pub open spec fn background_default() -> Color {
    Vec3 { x: 220, y: 220, z: 220 }
}

/// Which bit of a braille pattern stands for the cell in column `x` and row
/// `y` of a character: the first three rows take bits 0 to 5, column by
/// column, and the fourth row bits 6 and 7.
pub open spec fn braille_bit_spec(x: int, y: int) -> int {
    if y < 3 {
        3 * x + y
    } else {
        6 + x
    }
}

/// The braille pattern of the character whose top left cell is `(x, y)`,
/// taking in the first `n` of its eight cells, row by row.
pub open spec fn pattern(grid: Grid<Cell>, x: int, y: int, n: nat) -> u8
    decreases n,
{
    if n == 0 {
        0
    } else {
        let dx = (n - 1) % 2;
        let dy = (n - 1) / 2;
        let rest = pattern(grid, x, y, (n - 1) as nat);
        if grid.at(x + dx, y + dy).active {
            rest | (1u8 << (braille_bit_spec(dx, dy) as u8))
        } else {
            rest
        }
    }
}

/// The braille character that shows the two by four cells whose top left
/// cell is `(x, y)`.
pub open spec fn glyph(grid: Grid<Cell>, x: int, y: int) -> char {
    (BRAILLE_START + pattern(grid, x, y, 8)) as char
}

/// Componentwise sum of the foreground colours of the active cells among
/// the first `n` cells of the character whose top left cell is `(x, y)`.
pub open spec fn front_sum(grid: Grid<Cell>, x: int, y: int, n: nat) -> (int, int, int)
    decreases n,
{
    if n == 0 {
        (0, 0, 0)
    } else {
        let cell = grid.at(x + (n - 1) % 2, y + (n - 1) / 2);
        let rest = front_sum(grid, x, y, (n - 1) as nat);
        if cell.active {
            (rest.0 + cell.front.x, rest.1 + cell.front.y, rest.2 + cell.front.z)
        } else {
            rest
        }
    }
}

/// Componentwise sum of the background colours of the first `n` cells of the
/// character whose top left cell is `(x, y)`.
pub open spec fn back_sum(grid: Grid<Cell>, x: int, y: int, n: nat) -> (int, int, int)
    decreases n,
{
    if n == 0 {
        (0, 0, 0)
    } else {
        let cell = grid.at(x + (n - 1) % 2, y + (n - 1) / 2);
        let rest = back_sum(grid, x, y, (n - 1) as nat);
        (rest.0 + cell.back.x, rest.1 + cell.back.y, rest.2 + cell.back.z)
    }
}

/// Number of active cells among the first `n` cells of the character whose
/// top left cell is `(x, y)`.
pub open spec fn active_count(grid: Grid<Cell>, x: int, y: int, n: nat) -> int
    decreases n,
{
    if n == 0 {
        0
    } else {
        let cell = grid.at(x + (n - 1) % 2, y + (n - 1) / 2);
        active_count(grid, x, y, (n - 1) as nat) + if cell.active {
            1int
        } else {
            0int
        }
    }
}

/// The foreground colour of a character: the mean of the foreground colours
/// of its active cells, rounded down, and black when it has none.
pub open spec fn mean_front(grid: Grid<Cell>, x: int, y: int) -> Color {
    let sum = front_sum(grid, x, y, 8);
    let count = active_count(grid, x, y, 8);
    let by = if count < 1 {
        1
    } else {
        count
    };
    Vec3 { x: (sum.0 / by) as u8, y: (sum.1 / by) as u8, z: (sum.2 / by) as u8 }
}

/// The background colour of a character: the mean of the background colours
/// of its eight cells, rounded down.
pub open spec fn mean_back(grid: Grid<Cell>, x: int, y: int) -> Color {
    let sum = back_sum(grid, x, y, 8);
    Vec3 { x: (sum.0 / 8) as u8, y: (sum.1 / 8) as u8, z: (sum.2 / 8) as u8 }
}

/// The grid `grid` with `cell` stored at the first `n` points of the line
/// from `from` to `to`.
pub open spec fn traced(
    grid: Grid<Cell>,
    from: (int, int),
    to: (int, int),
    cell: Cell,
    n: nat,
) -> Grid<Cell>
    decreases n,
{
    if n == 0 {
        grid
    } else {
        traced(grid, from, to, cell, (n - 1) as nat).with(
            Trace::start(from, to).after((n - 1) as nat).at,
            cell,
        )
    }
}

/// The first `n` characters of the row of characters `cy`, each preceded by
/// the escape sequences for the colours in which it differs from the
/// character before it, together with the colours in force at the end.
/// `front` and `back` are the colours in force at the start of the row.
pub open spec fn row_text(grid: Grid<Cell>, cy: int, n: nat, front: Color, back: Color) -> (
    Seq<char>,
    Color,
    Color,
)
    decreases n,
{
    if n == 0 {
        (Seq::empty(), front, back)
    } else {
        let before = row_text(grid, cy, (n - 1) as nat, front, back);
        let x = (n - 1) * 2;
        let y = cy * 4;
        let f = mean_front(grid, x, y);
        let b = mean_back(grid, x, y);
        let with_front = if f != before.1 {
            before.0 + ansi_front(f)
        } else {
            before.0
        };
        let with_back = if b != before.2 {
            with_front + ansi_back(b)
        } else {
            with_front
        };
        (with_back.push(glyph(grid, x, y)), f, b)
    }
}

/// The first `rows` rows of characters, each ended by a line break, together
/// with the colours in force at the end.
pub open spec fn rows_text(grid: Grid<Cell>, rows: nat, front: Color, back: Color) -> (
    Seq<char>,
    Color,
    Color,
)
    decreases rows,
{
    if rows == 0 {
        (Seq::empty(), front, back)
    } else {
        let above = rows_text(grid, (rows - 1) as nat, front, back);
        let row = row_text(grid, rows - 1, (grid.width / 2) as nat, above.1, above.2);
        (above.0 + row.0.push('\n'), row.1, row.2)
    }
}

/// What showing the canvas adds to the text for the terminal: the cursor is
/// sent home and hidden, the colours of the brush are selected, the rows of
/// characters follow, and the cursor is shown again with all colours reset.
pub open spec fn display_text(grid: Grid<Cell>, brush: Brush) -> Seq<char> {
    "\x1b[H\x1b[?25l"@ + ansi_front(brush.front) + ansi_back(brush.back) + rows_text(
        grid,
        (grid.height / 4) as nat,
        brush.front,
        brush.back,
    ).0 + "\x1b[?25h\x1b[0m"@
}

/// A canvas of cells that is drawn on with a brush and shown as coloured
/// braille text, one character for every two by four cells.
pub struct Plot {
    plot: Buffer<Cell>,
    brush: Brush,
    output_string: String,
}

impl Plot {
    /// The canvas holds whole characters: an even number of columns and a
    /// multiple of four rows, with one cell stored for each place.
    pub closed spec fn wf(&self) -> bool {
        &&& self.plot.wf()
        &&& self.plot.width % 2 == 0
        &&& self.plot.height % 4 == 0
    }

    /// Size and cells of the canvas.
    pub closed spec fn grid(&self) -> Grid<Cell> {
        self.plot@
    }

    /// The colours that newly drawn cells get.
    pub closed spec fn brush(&self) -> Brush {
        self.brush
    }

    /// The text put together for the terminal so far.
    pub closed spec fn output(&self) -> Seq<char> {
        self.output_string@
    }

    /// The largest coordinate a line may start or end at.
    pub open spec fn limit() -> int {
        isize::MAX / 8
    }

    /// A canvas for a terminal area of `height` by `width` characters with
    /// nothing drawn, the default brush, and the sequence that wipes the
    /// terminal as its text.
    pub fn build(height: usize, width: usize) -> (r: Self)
        requires
            height * BRAILLE_HEIGHT <= usize::MAX,
            width * BRAILLE_WIDTH <= usize::MAX,
            height * BRAILLE_HEIGHT * (width * BRAILLE_WIDTH) <= usize::MAX,
        ensures
            r.wf(),
            r.grid().height == height * BRAILLE_HEIGHT,
            r.grid().width == width * BRAILLE_WIDTH,
            r.grid().cells.len() == r.grid().width * r.grid().height,
            forall|i: int|
                0 <= i < r.grid().cells.len() ==> r.grid().cells[i] == (Cell {
                    front: foreground_default(),
                    back: background_default(),
                    active: false,
                }),
            r.brush() == (Brush { front: foreground_default(), back: background_default() }),
            r.output() == "\x1b[2J"@,
    {
        Plot {
            plot: Buffer::build(
                height * BRAILLE_HEIGHT,
                width * BRAILLE_WIDTH,
                Cell {
                    front: Vec3::build(0, 0, 255),
                    back: Vec3::build(220, 220, 220),
                    active: false,
                },
            ),
            brush: Brush::build(Vec3::build(0, 0, 255), Vec3::build(220, 220, 220)),
            output_string: String::from_str("\x1b[2J"),
        }
    }

    /// The brush, to be changed in place.
    pub fn set_brush(&mut self) -> (ret: &mut Brush)
        ensures
            *ret == old(self).brush(),
            final(self).brush() == *final(ret),
            final(self).wf() == old(self).wf(),
            final(self).grid() == old(self).grid(),
            final(self).output() == old(self).output(),
    {
        &mut self.brush
    }

    /// Gives the brush its default colours again.
    pub fn brush_default(&mut self)
        ensures
            final(self).brush() == (Brush {
                front: foreground_default(),
                back: background_default(),
            }),
            final(self).wf() == old(self).wf(),
            final(self).grid() == old(self).grid(),
            final(self).output() == old(self).output(),
    {
        self.brush = Brush::build(Vec3::build(0, 0, 255), Vec3::build(220, 220, 220));
    }

    /// Wipes the canvas: every cell takes the colours of the brush and is
    /// no longer drawn, and the text put together so far is dropped.
    pub fn clear(&mut self)
        requires
            old(self).wf(),
        ensures
            final(self).wf(),
            final(self).grid().width == old(self).grid().width,
            final(self).grid().height == old(self).grid().height,
            final(self).grid().cells.len() == old(self).grid().cells.len(),
            forall|i: int|
                0 <= i < final(self).grid().cells.len() ==> final(self).grid().cells[i] == (Cell {
                    front: old(self).brush().front,
                    back: old(self).brush().back,
                    active: false,
                }),
            final(self).brush() == old(self).brush(),
            final(self).output() == Seq::<char>::empty(),
    {
        let blank = Cell { front: self.brush.front, back: self.brush.back, active: false };
        let mut i: usize = 0;
        while i < self.plot.buff.len()
            invariant
                i <= self.plot.buff@.len(),
                self.plot.buff@.len() == old(self).plot.buff@.len(),
                self.plot.wf(),
                self.plot.width == old(self).plot.width,
                self.plot.height == old(self).plot.height,
                self.brush == old(self).brush,
                blank == (Cell {
                    front: old(self).brush.front,
                    back: old(self).brush.back,
                    active: false,
                }),
                forall|j: int| 0 <= j < i ==> self.plot.buff@[j] == blank,
            decreases self.plot.buff@.len() - i,
        {
            self.plot.buff[i] = blank;
            i += 1;
        }
        self.output_string = String::new();
    }

    /// Draws the cell in column `x` of row `y` with the brush and tells
    /// whether that cell is on the canvas.
    pub fn plot_point(&mut self, x: usize, y: usize) -> (r: bool)
        requires
            old(self).wf(),
        ensures
            final(self).wf(),
            r == old(self).grid().inbounds(x as int, y as int),
            final(self).grid() == old(self).grid().with(
                (x as int, y as int),
                Cell { front: old(self).brush().front, back: old(self).brush().back, active: true },
            ),
            final(self).brush() == old(self).brush(),
            final(self).output() == old(self).output(),
    {
        let cell = Cell::build(self.brush.front, self.brush.back);
        self.plot.set(x, y, cell)
    }
}

fn same_color(a: Color, b: Color) -> (r: bool)
    ensures
        r == (a == b),
{
    a.x == b.x && a.y == b.y && a.z == b.z
}

impl Plot {
    /// The cells of the canvas.
    pub fn plot(&self) -> (r: &Buffer<Cell>)
        ensures
            r@ == self.grid(),
            self.wf() ==> r.wf(),
    {
        &self.plot
    }

    /// Draws the straight line from `(x0, y0)` to `(x1, y1)` with the brush,
    /// as far as it lies on the canvas.
    pub fn plot_line(&mut self, x0: usize, y0: usize, x1: usize, y1: usize)
        requires
            old(self).wf(),
            x0 <= Self::limit(),
            y0 <= Self::limit(),
            x1 <= Self::limit(),
            y1 <= Self::limit(),
        ensures
            final(self).wf(),
            final(self).grid() == traced(
                old(self).grid(),
                (x0 as int, y0 as int),
                (x1 as int, y1 as int),
                Cell { front: old(self).brush().front, back: old(self).brush().back, active: true },
                (Trace::start((x0 as int, y0 as int), (x1 as int, y1 as int)).span() + 1) as nat,
            ),
            final(self).brush() == old(self).brush(),
            final(self).output() == old(self).output(),
    {
        let ghost from = (x0 as int, y0 as int);
        let ghost to = (x1 as int, y1 as int);
        let ghost start = Trace::start(from, to);
        let tracer = LineTracer::build(x0 as isize, y0 as isize, x1 as isize, y1 as isize);
        let points = tracer.points();
        let cell = Cell::build(self.brush.front, self.brush.back);
        proof {
            Trace::lemma_start_on_course(from, to);
        }
        let mut k: usize = 0;
        while k < points.len()
            invariant
                k <= points@.len(),
                points@.len() == start.span() + 1,
                start == Trace::start(from, to),
                start.on_course(),
                !start.done,
                start.remaining() == start.span(),
                from.0 >= 0 && from.1 >= 0 && to.0 >= 0 && to.1 >= 0,
                forall|j: int|
                    0 <= j < points@.len() ==> ((#[trigger] points@[j]).0 as int, points@[j].1 as int)
                        == start.after(j as nat).at,
                self.wf(),
                self.brush == old(self).brush,
                self.output_string == old(self).output_string,
                self.plot@ == traced(old(self).grid(), from, to, cell, k as nat),
            decreases points@.len() - k,
        {
            let (x, y) = points[k];
            proof {
                start.lemma_after(k as nat);
                let here = start.after(k as nat);
                assert(0 <= here.rx() <= here.dx());
                assert(0 <= here.ry() <= -here.dy());
                assert(x >= 0 && y >= 0);
            }
            self.plot.set(x as usize, y as usize, cell);
            k += 1;
        }
    }

    /// Which bit of a braille pattern stands for the cell in column `x` and
    /// row `y` of a character.
    fn braille_bit(&self, x: usize, y: usize) -> (r: usize)
        requires
            x < 2,
            y < 4,
        ensures
            r == braille_bit_spec(x as int, y as int),
    {
        match (y, x) {
            (0, 0) => 0,
            (0, _) => 3,
            (1, 0) => 1,
            (1, _) => 4,
            (2, 0) => 2,
            (2, _) => 5,
            (_, 0) => 6,
            (_, _) => 7,
        }
    }

    /// The braille character that shows the two by four cells whose top left
    /// cell is `(x, y)`.
    fn to_braille(&self, x: usize, y: usize) -> (r: char)
        requires
            self.wf(),
            x + 1 < self.grid().width,
            y + 3 < self.grid().height,
        ensures
            r == glyph(self.grid(), x as int, y as int),
    {
        let mut braille_byte: u8 = 0;
        let mut dy: usize = 0;
        while dy < BRAILLE_HEIGHT
            invariant
                dy <= 4,
                self.wf(),
                x + 1 < self.grid().width,
                y + 3 < self.grid().height,
                braille_byte == pattern(self.grid(), x as int, y as int, (dy * 2) as nat),
            decreases 4 - dy,
        {
            let mut dx: usize = 0;
            while dx < BRAILLE_WIDTH
                invariant
                    dx <= 2,
                    dy < 4,
                    self.wf(),
                    x + 1 < self.grid().width,
                    y + 3 < self.grid().height,
                    braille_byte == pattern(
                        self.grid(),
                        x as int,
                        y as int,
                        (dy * 2 + dx) as nat,
                    ),
                decreases 2 - dx,
            {
                proof {
                    let n = dy * 2 + dx;
                    assert(n % 2 == dx && n / 2 == dy);
                    self.plot.lemma_index_in_range((x + dx) as int, (y + dy) as int);
                }
                if self.plot.get_unchecked(x + dx, y + dy).active {
                    braille_byte |= 1 << self.braille_bit(dx, dy);
                }
                dx += 1;
            }
            dy += 1;
        }
        match char::from_u32((BRAILLE_START + braille_byte as u16) as u32) {
            Some(c) => c,
            None => ' ',
        }
    }
}

impl Plot {
    /// The colours in which the character whose top left cell is `(x, y)`
    /// is shown: the mean foreground of its drawn cells and the mean
    /// background of all its cells.
    fn braille_average_color(&self, x: usize, y: usize) -> (r: (Color, Color))
        requires
            self.wf(),
            x + 1 < self.grid().width,
            y + 3 < self.grid().height,
        ensures
            r.0 == mean_front(self.grid(), x as int, y as int),
            r.1 == mean_back(self.grid(), x as int, y as int),
    {
        let mut front: Vec3<u16> = Vec3::zeros();
        let mut back: Vec3<u16> = Vec3::zeros();
        let mut counter: u16 = 0;
        let ghost grid = self.grid();
        let mut dy: usize = 0;
        while dy < BRAILLE_HEIGHT
            invariant
                dy <= 4,
                self.wf(),
                grid == self.grid(),
                x + 1 < grid.width,
                y + 3 < grid.height,
                counter == active_count(grid, x as int, y as int, (dy * 2) as nat),
                (front.x as int, front.y as int, front.z as int) == front_sum(
                    grid,
                    x as int,
                    y as int,
                    (dy * 2) as nat,
                ),
                (back.x as int, back.y as int, back.z as int) == back_sum(
                    grid,
                    x as int,
                    y as int,
                    (dy * 2) as nat,
                ),
                counter <= dy * 2,
                front.x <= 255 * counter && front.y <= 255 * counter && front.z <= 255 * counter,
                back.x <= 510 * dy && back.y <= 510 * dy && back.z <= 510 * dy,
            decreases 4 - dy,
        {
            let mut dx: usize = 0;
            while dx < BRAILLE_WIDTH
                invariant
                    dx <= 2,
                    dy < 4,
                    self.wf(),
                    grid == self.grid(),
                    x + 1 < grid.width,
                    y + 3 < grid.height,
                    counter == active_count(grid, x as int, y as int, (dy * 2 + dx) as nat),
                    (front.x as int, front.y as int, front.z as int) == front_sum(
                        grid,
                        x as int,
                        y as int,
                        (dy * 2 + dx) as nat,
                    ),
                    (back.x as int, back.y as int, back.z as int) == back_sum(
                        grid,
                        x as int,
                        y as int,
                        (dy * 2 + dx) as nat,
                    ),
                    counter <= dy * 2 + dx,
                    front.x <= 255 * counter && front.y <= 255 * counter && front.z <= 255
                        * counter,
                    back.x <= 255 * (dy * 2 + dx) && back.y <= 255 * (dy * 2 + dx) && back.z
                        <= 255 * (dy * 2 + dx),
                decreases 2 - dx,
            {
                proof {
                    let n = dy * 2 + dx;
                    assert(n % 2 == dx && n / 2 == dy);
                    self.plot.lemma_index_in_range((x + dx) as int, (y + dy) as int);
                }
                let cell = self.plot.get_unchecked(x + dx, y + dy);
                if cell.active {
                    front = front + cell.front.cast();
                    counter += 1;
                }
                back = back + cell.back.cast();
                dx += 1;
            }
            dy += 1;
        }
        let by = if counter < 1 {
            1
        } else {
            counter
        };
        front = front / by;
        back = back / (BRAILLE_COUNT as u16);
        (
            Vec3::build(front.x as u8, front.y as u8, front.z as u8),
            Vec3::build(back.x as u8, back.y as u8, back.z as u8),
        )
    }
}

impl Plot {
    /// Adds the canvas as coloured braille text to the text for the terminal
    /// and returns all of that text.
    pub fn display(&mut self) -> (r: String)
        requires
            old(self).wf(),
        ensures
            final(self).wf(),
            final(self).grid() == old(self).grid(),
            final(self).brush() == old(self).brush(),
            final(self).output() == old(self).output() + display_text(
                old(self).grid(),
                old(self).brush(),
            ),
            r@ == final(self).output(),
    {
        let ghost grid = self.grid();
        let ghost begun = self.output_string@;
        let mut curr_front = self.brush.front;
        let mut curr_back = self.brush.back;
        self.output_string.append("\x1b[H\x1b[?25l");
        let selected_front = self.brush.front.to_ansi_front();
        self.output_string.append(selected_front.as_str());
        let selected_back = self.brush.back.to_ansi_back();
        self.output_string.append(selected_back.as_str());
        let ghost head = self.output_string@;
        let rows = self.plot.height / BRAILLE_HEIGHT;
        let columns = self.plot.width / BRAILLE_WIDTH;
        let mut cy: usize = 0;
        while cy < rows
            invariant
                cy <= rows,
                self.wf(),
                self.grid() == grid,
                self.brush == old(self).brush,
                rows == grid.height / 4,
                columns == grid.width / 2,
                grid.width % 2 == 0,
                grid.height % 4 == 0,
                ({
                    let done = rows_text(
                        grid,
                        cy as nat,
                        old(self).brush().front,
                        old(self).brush().back,
                    );
                    &&& self.output_string@ == head + done.0
                    &&& curr_front == done.1
                    &&& curr_back == done.2
                }),
            decreases rows - cy,
        {
            let ghost above = self.output_string@;
            let ghost row_front = curr_front;
            let ghost row_back = curr_back;
            let mut cx: usize = 0;
            while cx < columns
                invariant
                    cx <= columns,
                    cy < rows,
                    self.wf(),
                    self.grid() == grid,
                    self.brush == old(self).brush,
                    rows == grid.height / 4,
                    columns == grid.width / 2,
                    grid.width % 2 == 0,
                    grid.height % 4 == 0,
                    ({
                        let done = row_text(grid, cy as int, cx as nat, row_front, row_back);
                        &&& self.output_string@ == above + done.0
                        &&& curr_front == done.1
                        &&& curr_back == done.2
                    }),
                decreases columns - cx,
            {
                let x = cx * BRAILLE_WIDTH;
                let y = cy * BRAILLE_HEIGHT;
                let ghost before = self.output_string@;
                let (front, back) = self.braille_average_color(x, y);
                if !same_color(front, curr_front) {
                    let code = front.to_ansi_front();
                    self.output_string.append(code.as_str());
                    curr_front = front;
                }
                if !same_color(back, curr_back) {
                    let code = back.to_ansi_back();
                    self.output_string.append(code.as_str());
                    curr_back = back;
                }
                let glyph = self.to_braille(x, y);
                self.output_string.push(glyph);
                proof {
                    let done = row_text(grid, cy as int, (cx + 1) as nat, row_front, row_back);
                    assert(self.output_string@ =~= above + done.0);
                }
                cx += 1;
            }
            self.output_string.push('\n');
            proof {
                let done = rows_text(
                    grid,
                    (cy + 1) as nat,
                    old(self).brush().front,
                    old(self).brush().back,
                );
                assert(self.output_string@ =~= head + done.0);
            }
            cy += 1;
        }
        self.output_string.append("\x1b[?25h\x1b[0m");
        proof {
            assert(self.output_string@ =~= begun + display_text(grid, old(self).brush()));
        }
        self.output_string.clone()
    }
}

} // verus!

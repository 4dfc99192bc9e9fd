//! A model of the terminal frame buffer: a grid of cells, each holding
//! a character, a style identifier, and a `skip` flag. The compositor
//! never overwrites a cell whose `skip` flag is set, which is how a
//! protocol-painted image area is protected from text writes.

use vstd::prelude::*;

use crate::rect::Rect;
use crate::style::SpanStyle;

verus! {

/// One terminal cell.
#[derive(Clone, Copy, Debug, PartialEq, Eq, Structural)]
pub struct Cell {
    pub ch: char,
    pub style: SpanStyle,
    pub skip: bool,
}

/// The frame buffer: `height` rows of `width` cells, row-major.
pub struct Buffer {
    pub width: u16,
    pub height: u16,
    pub rows: Vec<Vec<Cell>>,
}

impl Buffer {
    /// Every row is present and has exactly `width` cells.
    pub open spec fn wf(self) -> bool {
        &&& self.rows@.len() == self.height
        &&& forall|r: int| 0 <= r < self.rows@.len() ==> (#[trigger] self.rows@[r])@.len() == self.width
    }

    /// The cell at column `cx`, row `cy`.
    pub open spec fn cell_at(self, cx: int, cy: int) -> Cell {
        self.rows@[cy]@[cx]
    }

    /// A rectangle lies inside the buffer.
    pub open spec fn spec_fits(self, rect: Rect) -> bool {
        rect.spec_right() <= self.width && rect.spec_bottom() <= self.height
    }

    /// A fresh buffer, filled with blank unprotected cells of the
    /// application style.
    pub fn new(width: u16, height: u16) -> (r: Buffer)
        ensures
            r.wf(),
            r.width == width,
            r.height == height,
            forall|cx: int, cy: int|
                0 <= cx < width && 0 <= cy < height ==> r.cell_at(cx, cy) == (Cell {
                    ch: ' ',
                    style: SpanStyle::App,
                    skip: false,
                }),
    {
        let blank = Cell { ch: ' ', style: SpanStyle::App, skip: false };
        let mut rows: Vec<Vec<Cell>> = Vec::new();
        let mut y: u16 = 0;
        while y < height
            invariant
                y <= height,
                rows@.len() == y,
                forall|r: int| 0 <= r < y ==> (#[trigger] rows@[r])@.len() == width,
                forall|r: int, c: int|
                    0 <= r < y && 0 <= c < width ==> #[trigger] (rows@[r])@[c] == blank,
            decreases height - y,
        {
            let mut row: Vec<Cell> = Vec::new();
            let mut x: u16 = 0;
            while x < width
                invariant
                    x <= width,
                    row@.len() == x,
                    forall|c: int| 0 <= c < x ==> #[trigger] row@[c] == blank,
                decreases width - x,
            {
                row.push(blank);
                x = x + 1;
            }
            rows.push(row);
            y = y + 1;
        }
        Buffer { width, height, rows }
    }
}

/// Blank every cell of `rect`: the character becomes a space and the
/// style the given one, while the `skip` flag is kept as it was.
/// Cells outside `rect` are untouched.
pub fn clear_area(frame: &mut Buffer, rect: Rect, style: SpanStyle)
    requires
        old(frame).wf(),
        rect.wf(),
        old(frame).spec_fits(rect),
    ensures
        final(frame).wf(),
        final(frame).width == old(frame).width,
        final(frame).height == old(frame).height,
        forall|cx: int, cy: int|
            0 <= cx < final(frame).width && 0 <= cy < final(frame).height
                ==> #[trigger] final(frame).cell_at(cx, cy) == if rect.spec_contains(cx, cy) {
                Cell { ch: ' ', style, skip: old(frame).cell_at(cx, cy).skip }
            } else {
                old(frame).cell_at(cx, cy)
            },
{
    let bottom = rect.bottom();
    let mut y: u16 = rect.y;
    while y < bottom
        invariant
            old(frame).wf(),
            rect.wf(),
            old(frame).spec_fits(rect),
            rect.y <= y <= bottom,
            bottom == rect.spec_bottom(),
            frame.wf(),
            frame.width == old(frame).width,
            frame.height == old(frame).height,
            forall|cx: int, cy: int|
                0 <= cx < frame.width && 0 <= cy < frame.height ==> #[trigger] frame.cell_at(
                    cx,
                    cy,
                ) == if rect.spec_contains(cx, cy) && cy < y {
                    Cell { ch: ' ', style, skip: old(frame).cell_at(cx, cy).skip }
                } else {
                    old(frame).cell_at(cx, cy)
                },
        decreases bottom - y,
    {
        let mut row: Vec<Cell> = Vec::new();
        let right = rect.right();
        let mut x: u16 = 0;
        while x < frame.width
            invariant
                frame.wf(),
                rect.wf(),
                y < frame.height,
                right == rect.spec_right(),
                rect.spec_right() <= frame.width,
                x <= frame.width,
                row@.len() == x,
                forall|c: int|
                    0 <= c < x ==> #[trigger] row@[c] == if rect.spec_left() <= c
                        < rect.spec_right() {
                        Cell { ch: ' ', style, skip: frame.cell_at(c, y as int).skip }
                    } else {
                        frame.cell_at(c, y as int)
                    },
            decreases frame.width - x,
        {
            let old_cell = frame.rows[y as usize][x as usize];
            if rect.x <= x && x < right {
                row.push(Cell { ch: ' ', style, skip: old_cell.skip });
            } else {
                row.push(old_cell);
            }
            x = x + 1;
        }
        let ghost pre = *frame;
        frame.rows[y as usize] = row;
        proof {
            assert forall|cx: int, cy: int|
                0 <= cx < frame.width && 0 <= cy < frame.height implies #[trigger] frame.cell_at(
                cx,
                cy,
            ) == if rect.spec_contains(cx, cy) && cy < y + 1 {
                Cell { ch: ' ', style, skip: old(frame).cell_at(cx, cy).skip }
            } else {
                old(frame).cell_at(cx, cy)
            } by {
                if cy == y as int {
                    assert(frame.cell_at(cx, cy) == row@[cx]);
                    assert(pre.cell_at(cx, cy) == old(frame).cell_at(cx, cy));
                } else {
                    assert(frame.cell_at(cx, cy) == pre.cell_at(cx, cy));
                }
            }
        }
        y = y + 1;
    }
}

/// Set the `skip` flag on every cell of `rect`, so the compositor
/// leaves those cells alone; character and style are untouched, as is
/// everything outside `rect`.
pub fn protect_area(frame: &mut Buffer, rect: Rect)
    requires
        old(frame).wf(),
        rect.wf(),
        old(frame).spec_fits(rect),
    ensures
        final(frame).wf(),
        final(frame).width == old(frame).width,
        final(frame).height == old(frame).height,
        forall|cx: int, cy: int|
            0 <= cx < final(frame).width && 0 <= cy < final(frame).height
                ==> #[trigger] final(frame).cell_at(cx, cy) == if rect.spec_contains(cx, cy) {
                Cell {
                    ch: old(frame).cell_at(cx, cy).ch,
                    style: old(frame).cell_at(cx, cy).style,
                    skip: true,
                }
            } else {
                old(frame).cell_at(cx, cy)
            },
{
    let bottom = rect.bottom();
    let mut y: u16 = rect.y;
    while y < bottom
        invariant
            old(frame).wf(),
            rect.wf(),
            old(frame).spec_fits(rect),
            rect.y <= y <= bottom,
            bottom == rect.spec_bottom(),
            frame.wf(),
            frame.width == old(frame).width,
            frame.height == old(frame).height,
            forall|cx: int, cy: int|
                0 <= cx < frame.width && 0 <= cy < frame.height ==> #[trigger] frame.cell_at(
                    cx,
                    cy,
                ) == if rect.spec_contains(cx, cy) && cy < y {
                    Cell {
                        ch: old(frame).cell_at(cx, cy).ch,
                        style: old(frame).cell_at(cx, cy).style,
                        skip: true,
                    }
                } else {
                    old(frame).cell_at(cx, cy)
                },
        decreases bottom - y,
    {
        let mut row: Vec<Cell> = Vec::new();
        let right = rect.right();
        let mut x: u16 = 0;
        while x < frame.width
            invariant
                frame.wf(),
                rect.wf(),
                y < frame.height,
                right == rect.spec_right(),
                rect.spec_right() <= frame.width,
                x <= frame.width,
                row@.len() == x,
                forall|c: int|
                    0 <= c < x ==> #[trigger] row@[c] == if rect.spec_left() <= c
                        < rect.spec_right() {
                        Cell {
                            ch: frame.cell_at(c, y as int).ch,
                            style: frame.cell_at(c, y as int).style,
                            skip: true,
                        }
                    } else {
                        frame.cell_at(c, y as int)
                    },
            decreases frame.width - x,
        {
            let old_cell = frame.rows[y as usize][x as usize];
            if rect.x <= x && x < right {
                row.push(Cell { ch: old_cell.ch, style: old_cell.style, skip: true });
            } else {
                row.push(old_cell);
            }
            x = x + 1;
        }
        let ghost pre = *frame;
        frame.rows[y as usize] = row;
        proof {
            assert forall|cx: int, cy: int|
                0 <= cx < frame.width && 0 <= cy < frame.height implies #[trigger] frame.cell_at(
                cx,
                cy,
            ) == if rect.spec_contains(cx, cy) && cy < y + 1 {
                Cell {
                    ch: old(frame).cell_at(cx, cy).ch,
                    style: old(frame).cell_at(cx, cy).style,
                    skip: true,
                }
            } else {
                old(frame).cell_at(cx, cy)
            } by {
                if cy == y as int {
                    assert(frame.cell_at(cx, cy) == row@[cx]);
                    assert(pre.cell_at(cx, cy) == old(frame).cell_at(cx, cy));
                } else {
                    assert(frame.cell_at(cx, cy) == pre.cell_at(cx, cy));
                }
            }
        }
        y = y + 1;
    }
}

} // verus!

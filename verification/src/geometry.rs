//! Rectangles on the terminal's cell grid, and what it means for a row of
//! rectangles to tile an area.

use vstd::prelude::*;

verus! {

/// The axis along which an area is cut into parts.
#[derive(Clone, Copy, Debug, PartialEq, Eq, Structural)]
pub enum Direction {
    /// Parts stand side by side, from left to right.
    Horizontal,
    /// Parts are stacked, from top to bottom.
    Vertical,
}

/// A rectangle of terminal cells: its top left corner and its size.
#[derive(Clone, Copy, Debug, PartialEq, Eq, Structural)]
pub struct Rect {
    pub x: u16,
    pub y: u16,
    pub width: u16,
    pub height: u16,
}

impl Rect {
    /// The first coordinate of the rectangle along `direction`.
    pub open spec fn start(self, direction: Direction) -> int {
        match direction {
            Direction::Horizontal => self.x as int,
            Direction::Vertical => self.y as int,
        }
    }

    /// The number of cells the rectangle spans along `direction`.
    pub open spec fn length(self, direction: Direction) -> int {
        match direction {
            Direction::Horizontal => self.width as int,
            Direction::Vertical => self.height as int,
        }
    }

    /// The first coordinate past the rectangle along `direction`. The grid
    /// ends at `u16::MAX`, and so does a rectangle that would reach beyond it.
    pub open spec fn end(self, direction: Direction) -> int {
        if self.start(direction) + self.length(direction) > u16::MAX {
            u16::MAX as int
        } else {
            self.start(direction) + self.length(direction)
        }
    }

    /// Whether the rectangle lies on the grid as a whole, in both directions.
    pub open spec fn on_grid(self) -> bool {
        &&& self.x + self.width <= u16::MAX
        &&& self.y + self.height <= u16::MAX
    }

    /// Whether `self` and `other` have the same position and size across
    /// `direction`: the same rows for a horizontal cut, the same columns for
    /// a vertical one.
    pub open spec fn same_band(self, other: Rect, direction: Direction) -> bool {
        match direction {
            Direction::Horizontal => self.y == other.y && self.height == other.height,
            Direction::Vertical => self.x == other.x && self.width == other.width,
        }
    }

    /// Whether the cell at column `column` and row `row` belongs to the
    /// rectangle.
    pub open spec fn contains(self, column: int, row: int) -> bool {
        &&& self.x <= column < self.end(Direction::Horizontal)
        &&& self.y <= row < self.end(Direction::Vertical)
    }
}

/// Each part but the last ends where the next one begins.
pub open spec fn chained(parts: Seq<Rect>, direction: Direction) -> bool {
    forall|i: int|
        0 <= i < parts.len() - 1 ==> #[trigger] parts[i].start(direction) + parts[i].length(
            direction,
        ) == parts[i + 1].start(direction)
}

/// `parts` tile `area` along `direction`: there is at least one part, the
/// first begins where the area begins, each next part begins where the one
/// before it ends, the last ends where the area ends, and every part spans
/// the area across the direction.
pub open spec fn tiles(area: Rect, direction: Direction, parts: Seq<Rect>) -> bool {
    &&& parts.len() > 0
    &&& parts[0].start(direction) == area.start(direction)
    &&& chained(parts, direction)
    &&& parts.last().start(direction) + parts.last().length(direction) == area.end(direction)
    &&& forall|i: int| 0 <= i < parts.len() ==> (#[trigger] parts[i]).same_band(area, direction)
}

/// The cells that `parts` span along `direction`, all parts taken together.
pub open spec fn total_length(parts: Seq<Rect>, direction: Direction) -> int
    decreases parts.len(),
{
    if parts.len() == 0 {
        0
    } else {
        total_length(parts.drop_last(), direction) + parts.last().length(direction)
    }
}

proof fn lemma_chained_total(parts: Seq<Rect>, direction: Direction)
    requires
        parts.len() > 0,
        chained(parts, direction),
    ensures
        total_length(parts, direction) == parts.last().start(direction) + parts.last().length(
            direction,
        ) - parts[0].start(direction),
    decreases parts.len(),
{
    let front = parts.drop_last();
    if front.len() == 0 {
        assert(total_length(front, direction) == 0);
    } else {
        assert forall|i: int| 0 <= i < front.len() - 1 implies #[trigger] front[i].start(direction)
            + front[i].length(direction) == front[i + 1].start(direction) by {
            assert(parts[i].start(direction) + parts[i].length(direction) == parts[i + 1].start(
                direction,
            ));
        }
        lemma_chained_total(front, direction);
        let k = parts.len() - 2;
        assert(parts[k].start(direction) + parts[k].length(direction) == parts[k + 1].start(
            direction,
        ));
    }
}

proof fn lemma_chained_ordered(parts: Seq<Rect>, direction: Direction, i: int, j: int)
    requires
        chained(parts, direction),
        0 <= i < j < parts.len(),
    ensures
        parts[i].start(direction) + parts[i].length(direction) <= parts[j].start(direction),
    decreases j - i,
{
    if i + 1 < j {
        lemma_chained_ordered(parts, direction, i, j - 1);
    }
    assert(parts[j - 1].start(direction) + parts[j - 1].length(direction) == parts[j - 1
        + 1].start(direction));
}

proof fn lemma_chained_reaches(parts: Seq<Rect>, direction: Direction, at: int, k: int) -> (i: int)
    requires
        chained(parts, direction),
        0 <= k < parts.len(),
        parts[0].start(direction) <= at < parts[k].start(direction) + parts[k].length(direction),
    ensures
        0 <= i <= k,
        parts[i].start(direction) <= at < parts[i].start(direction) + parts[i].length(direction),
    decreases k,
{
    if parts[k].start(direction) <= at {
        k
    } else {
        assert(parts[k - 1].start(direction) + parts[k - 1].length(direction) == parts[k - 1
            + 1].start(direction));
        lemma_chained_reaches(parts, direction, at, k - 1)
    }
}

/// The parts of a tiling add up to the area: together they span exactly the
/// cells between the area's start and its end, which is the area's whole
/// length wherever the area lies on the grid.
pub proof fn lemma_tiles_total_length(area: Rect, direction: Direction, parts: Seq<Rect>)
    requires
        tiles(area, direction, parts),
    ensures
        total_length(parts, direction) == area.end(direction) - area.start(direction),
        area.start(direction) + area.length(direction) <= u16::MAX ==> total_length(
            parts,
            direction,
        ) == area.length(direction),
{
    lemma_chained_total(parts, direction);
}

/// The parts of a tiling come one after the other: an earlier part ends
/// before or where a later one begins, and every part lies between the
/// area's start and its end.
pub proof fn lemma_tiles_in_order(
    area: Rect,
    direction: Direction,
    parts: Seq<Rect>,
    i: int,
    j: int,
)
    requires
        tiles(area, direction, parts),
        0 <= i < j < parts.len(),
    ensures
        area.start(direction) <= parts[i].start(direction),
        parts[i].end(direction) <= parts[j].start(direction),
        parts[j].end(direction) <= area.end(direction),
{
    lemma_chained_ordered(parts, direction, i, j);
    if i > 0 {
        lemma_chained_ordered(parts, direction, 0, i);
    }
    if j < parts.len() - 1 {
        lemma_chained_ordered(parts, direction, j, parts.len() - 1);
    }
}

/// No two parts of a tiling overlap: a cell of one part belongs to no other.
pub proof fn lemma_tiles_no_overlap(
    area: Rect,
    direction: Direction,
    parts: Seq<Rect>,
    i: int,
    j: int,
    column: int,
    row: int,
)
    requires
        tiles(area, direction, parts),
        0 <= i < parts.len(),
        0 <= j < parts.len(),
        i != j,
        parts[i].contains(column, row),
    ensures
        !parts[j].contains(column, row),
{
    if i < j {
        lemma_tiles_in_order(area, direction, parts, i, j);
    } else {
        lemma_tiles_in_order(area, direction, parts, j, i);
    }
}

/// A tiling leaves no gap and does not reach beyond the area: a cell belongs
/// to the area exactly if it belongs to one of the parts.
pub proof fn lemma_tiles_no_gap(
    area: Rect,
    direction: Direction,
    parts: Seq<Rect>,
    column: int,
    row: int,
)
    requires
        tiles(area, direction, parts),
    ensures
        area.contains(column, row) <==> exists|i: int|
            0 <= i < parts.len() && (#[trigger] parts[i]).contains(column, row),
{
    let last = parts.len() - 1;
    if area.contains(column, row) {
        let at = match direction {
            Direction::Horizontal => column,
            Direction::Vertical => row,
        };
        let i = lemma_chained_reaches(parts, direction, at, last);
        assert(parts[i].same_band(area, direction));
        assert(parts[i].contains(column, row));
    }
    if exists|i: int| 0 <= i < parts.len() && (#[trigger] parts[i]).contains(column, row) {
        let i = choose|i: int| 0 <= i < parts.len() && (#[trigger] parts[i]).contains(column, row);
        assert(parts[i].same_band(area, direction));
        if 0 < i {
            lemma_chained_ordered(parts, direction, 0, i);
        }
        if i < last {
            lemma_chained_ordered(parts, direction, i, last);
        }
    }
}

} // verus!

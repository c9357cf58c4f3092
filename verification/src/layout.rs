//! Cutting an area into parts by percentages.
//!
//! The cut itself is made by ratatui's constraint layout. This module validates
//! the percentages first, and states what holds of the parts of every cut.

use crate::geometry::{tiles, Direction, Rect};
use vstd::prelude::*;

verus! {

/// Why a list of percentages cannot cut an area.
#[derive(Clone, Copy, Debug, PartialEq, Eq, Structural)]
pub enum ConfigError {
    /// The list is empty: there is no part to give the area to.
    NoSlots,
    /// The percentages do not add up to one hundred.
    NotHundredPercent,
}

/// The sum of `percentages`.
pub open spec fn percent_sum(percentages: Seq<u16>) -> int
    decreases percentages.len(),
{
    if percentages.len() == 0 {
        0
    } else {
        percent_sum(percentages.drop_last()) + percentages.last()
    }
}

/// Percentages that share out an area completely: at least one, and one
/// hundred in all.
pub open spec fn shares_whole(percentages: Seq<u16>) -> bool {
    percentages.len() > 0 && percent_sum(percentages) == 100
}

/// Whether `cells` is a whole number of cells nearest to `percent`
/// hundredths of `length`. Where the share falls halfway between two whole
/// numbers, both are nearest.
pub open spec fn nearest_cells(cells: int, length: int, percent: int) -> bool {
    -50 <= 100 * cells - length * percent <= 50
}

/// Whether `percent` hundredths of `length` fall halfway between two whole
/// numbers of cells.
pub open spec fn halfway(length: int, percent: int) -> bool {
    (length * percent) % 100 == 50
}

/// `parts` share out `area` along `direction` by `percentages`: there is
/// one part for each percentage, and each part begins at the cell nearest
/// to the share of the area that the percentages before it add up to.
pub open spec fn apportions(
    area: Rect,
    direction: Direction,
    percentages: Seq<u16>,
    parts: Seq<Rect>,
) -> bool {
    &&& parts.len() == percentages.len()
    &&& forall|i: int|
        0 <= i < parts.len() ==> nearest_cells(
            (#[trigger] parts[i]).start(direction) - area.start(direction),
            area.end(direction) - area.start(direction),
            percent_sum(percentages.take(i)),
        )
}

/// Calls ratatui's `Layout::split` on a layout of percentage constraints
/// with no margin, built by `Constraint::from_percentages`,
/// `Layout::default`, `Layout::direction` and `Layout::constraints`, and
/// hands back its rectangles.
///
/// What is taken on trust of that function, for percentages that add up to
/// one hundred:
/// - it returns one rectangle for each constraint;
/// - it requires of its solver that the first part begins at the area's
///   start, that each next part begins where the one before it ends, and
///   that the last part ends at the area's end (`Rect::right` or
///   `Rect::bottom`, which stop at `u16::MAX`);
/// - across the direction it copies the area's position and size into
///   every part;
/// - it asks for each part the percentage's share of the area's length,
///   which all parts can have at once, and rounds where each part begins
///   to the nearest cell.
///
/// Nothing is said of which way a share that falls halfway between two
/// cells is rounded: the solver works in floating point and walks hash
/// maps, and the same cut may come out either way. Percentages that do not
/// add up to one hundred are left out: the constraints then contradict
/// each other, and the layout alone does not settle which of them gives
/// way.
#[verifier::external_body]
pub(crate) fn layout_split(area: Rect, direction: Direction, percentages: &[u16]) -> (parts: Vec<
    Rect,
>)
    requires
        shares_whole(percentages@),
    ensures
        tiles(area, direction, parts@),
        apportions(area, direction, percentages@, parts@),
{
    let direction = match direction {
        Direction::Horizontal => ratatui::layout::Direction::Horizontal,
        Direction::Vertical => ratatui::layout::Direction::Vertical,
    };
    let constraints = ratatui::layout::Constraint::from_percentages(percentages.iter().copied());
    let area = ratatui::layout::Rect { x: area.x, y: area.y, width: area.width, height: area.height };
    let layout = ratatui::layout::Layout::default().direction(direction).constraints(constraints);
    let parts = layout.split(area);
    parts.iter().map(|p| Rect { x: p.x, y: p.y, width: p.width, height: p.height }).collect()
}

proof fn lemma_percent_sum_prefix(percentages: Seq<u16>, n: int)
    requires
        0 <= n <= percentages.len(),
    ensures
        0 <= percent_sum(percentages.take(n)) <= percent_sum(percentages),
        n < percentages.len() ==> percent_sum(percentages.take(n + 1)) == percent_sum(
            percentages.take(n),
        ) + percentages[n],
    decreases percentages.len() - n,
{
    if n == percentages.len() {
        assert(percentages.take(n) =~= percentages);
        lemma_percent_sum_nonnegative(percentages);
    } else {
        assert(percentages.take(n + 1).drop_last() =~= percentages.take(n));
        lemma_percent_sum_nonnegative(percentages.take(n));
        lemma_percent_sum_prefix(percentages, n + 1);
    }
}

proof fn lemma_percent_sum_nonnegative(percentages: Seq<u16>)
    ensures
        0 <= percent_sum(percentages),
    decreases percentages.len(),
{
    if percentages.len() > 0 {
        lemma_percent_sum_nonnegative(percentages.drop_last());
    }
}

/// Validates that `percentages` can share out an area: that there is at least
/// one, and that they add up to one hundred.
pub fn validate_percentages(percentages: &[u16]) -> (result: Result<(), ConfigError>)
    ensures
        match result {
            Ok(()) => shares_whole(percentages@),
            Err(ConfigError::NoSlots) => percentages@.len() == 0,
            Err(ConfigError::NotHundredPercent) => {
                &&& percentages@.len() > 0
                &&& percent_sum(percentages@) != 100
            },
        },
{
    if percentages.len() == 0 {
        return Err(ConfigError::NoSlots);
    }
    let mut total: u16 = 0;
    let mut i: usize = 0;
    while i < percentages.len()
        invariant
            i <= percentages@.len(),
            total == percent_sum(percentages@.take(i as int)),
            total <= 100,
        decreases percentages@.len() - i,
    {
        proof {
            lemma_percent_sum_prefix(percentages@, i as int);
            lemma_percent_sum_prefix(percentages@, i + 1);
        }
        if percentages[i] > 100 - total {
            return Err(ConfigError::NotHundredPercent);
        }
        total = total + percentages[i];
        i = i + 1;
    }
    proof {
        assert(percentages@.take(i as int) =~= percentages@);
    }
    if total == 100 {
        Ok(())
    } else {
        Err(ConfigError::NotHundredPercent)
    }
}

/// Cuts `area` along `direction` into one part for each of `percentages`,
/// in their order.
///
/// Percentages that do not share out the whole area are refused. Otherwise
/// the parts tile the area: nothing of it is left over and no two parts
/// overlap. Each part begins at the cell nearest to its exact place, so it
/// gets its share of the area to within one cell. Where an exact place
/// falls halfway between two cells, either may be taken, and two cuts of
/// the same area need not agree on it.
pub fn split(area: Rect, direction: Direction, percentages: &[u16]) -> (result: Result<
    Vec<Rect>,
    ConfigError,
>)
    ensures
        match result {
            Ok(parts) => {
                &&& shares_whole(percentages@)
                &&& tiles(area, direction, parts@)
                &&& apportions(area, direction, percentages@, parts@)
            },
            Err(ConfigError::NoSlots) => percentages@.len() == 0,
            Err(ConfigError::NotHundredPercent) => {
                &&& percentages@.len() > 0
                &&& percent_sum(percentages@) != 100
            },
        },
{
    match validate_percentages(percentages) {
        Ok(()) => Ok(layout_split(area, direction, percentages)),
        Err(error) => Err(error),
    }
}

/// Away from the halfway case there is one nearest whole number of cells:
/// the share, rounded.
pub proof fn lemma_nearest_cells_is_rounded(cells: int, length: int, percent: int)
    requires
        nearest_cells(cells, length, percent),
        !halfway(length, percent),
    ensures
        cells == (length * percent + 50) / 100,
{
}

/// Every part of a cut gets its share of the area to within one cell.
pub proof fn lemma_part_near_share(
    area: Rect,
    direction: Direction,
    percentages: Seq<u16>,
    parts: Seq<Rect>,
    i: int,
)
    requires
        shares_whole(percentages),
        tiles(area, direction, parts),
        apportions(area, direction, percentages, parts),
        0 <= i < parts.len(),
    ensures
        -100 <= 100 * parts[i].length(direction) - (area.end(direction) - area.start(direction))
            * percentages[i] <= 100,
{
    let length = area.end(direction) - area.start(direction);
    let before = percent_sum(percentages.take(i));
    let after = percent_sum(percentages.take(i + 1));
    lemma_percent_sum_prefix(percentages, i);
    assert(length * after == length * before + length * percentages[i]) by (nonlinear_arith)
        requires
            after == before + percentages[i],
    ;
    let begin = parts[i].start(direction) - area.start(direction);
    assert(nearest_cells(begin, length, before));
    if i + 1 < parts.len() {
        let next = parts[i + 1].start(direction) - area.start(direction);
        assert(nearest_cells(next, length, after));
        assert(parts[i].start(direction) + parts[i].length(direction) == parts[i + 1].start(
            direction,
        ));
    } else {
        assert(percentages.take(i + 1) =~= percentages);
        assert(after == 100);
        assert(parts[i] == parts.last());
        assert(begin + parts[i].length(direction) == length);
    }
}

/// A cut is determined by the area and the percentages wherever no part
/// begins halfway between two cells: two cuts of one area by the same
/// percentages then consist of the same parts.
pub proof fn lemma_parts_determined(
    area: Rect,
    direction: Direction,
    percentages: Seq<u16>,
    first: Seq<Rect>,
    second: Seq<Rect>,
)
    requires
        tiles(area, direction, first),
        apportions(area, direction, percentages, first),
        tiles(area, direction, second),
        apportions(area, direction, percentages, second),
        forall|i: int|
            0 <= i < percentages.len() ==> !halfway(
                area.end(direction) - area.start(direction),
                #[trigger] percent_sum(percentages.take(i)),
            ),
    ensures
        first == second,
{
    let length = area.end(direction) - area.start(direction);
    assert forall|i: int| 0 <= i < first.len() implies first[i].start(direction) == second[i].start(
        direction,
    ) by {
        let before = percent_sum(percentages.take(i));
        lemma_nearest_cells_is_rounded(
            first[i].start(direction) - area.start(direction),
            length,
            before,
        );
        lemma_nearest_cells_is_rounded(
            second[i].start(direction) - area.start(direction),
            length,
            before,
        );
    }
    assert forall|i: int| 0 <= i < first.len() implies first[i] == second[i] by {
        assert(first[i].same_band(area, direction));
        assert(second[i].same_band(area, direction));
        if i + 1 < first.len() {
            assert(first[i].start(direction) + first[i].length(direction) == first[i + 1].start(
                direction,
            ));
            assert(second[i].start(direction) + second[i].length(direction) == second[i
                + 1].start(direction));
            assert(first[i + 1].start(direction) == second[i + 1].start(direction));
        }
        assert(first[i].start(direction) == second[i].start(direction));
    }
    assert(first =~= second);
}

} // verus!

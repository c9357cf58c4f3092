//! The dashboard's two regions, a left and a right column, each divided
//! into vertically stacked panels.

use crate::block::{
    title_with_hotkey, Alignment, Block, BorderType, Borders, Color, Padding, Position,
};
use crate::geometry::{
    lemma_tiles_no_gap, lemma_tiles_no_overlap, lemma_tiles_total_length, tiles, total_length,
    Direction, Rect,
};
use crate::layout::{
    apportions, halfway, layout_split, lemma_part_near_share, lemma_parts_determined,
    percent_sum, shares_whole,
};
use std::marker::PhantomData;
use vstd::prelude::*;
use vstd::string::StringExecFns;

verus! {

/// `String::push` appends the character to the end of the string.
pub assume_specification[ String::push ](s: &mut String, ch: char)
    ensures
        final(s)@ == old(s)@.push(ch),
;

/// What is declared of a region as a whole.
#[derive(Clone, Copy, Debug, PartialEq, Eq, Structural)]
pub struct RegionInfo {
    /// The share of the frame's width that the region takes, in percent.
    pub width_percentage: u16,
}

/// What is declared of one panel of a region.
#[derive(Clone, Copy, Debug, PartialEq, Eq)]
pub struct RegionRectInfo {
    /// The panel's place among the region's rectangles, counted from the top.
    pub index: usize,
    /// The title shown on the panel's border.
    pub title: &'static str,
    /// The share of the region's height that the panel takes, in percent.
    pub height_percentage: u16,
    /// The key shown beside the title.
    pub hotkey: char,
}

/// The height percentages of a region's panels, from the top down.
pub open spec fn height_percentages<T: GetRegionInfo>() -> Seq<u16> {
    Seq::new(T::panel_count(), |i: int| T::panels()[i].rect_info().height_percentage)
}

/// A closed set of panel positions that make up one region.
pub trait GetRegionInfo: Sized {
    /// What is declared of the region.
    spec fn region_info() -> RegionInfo;

    /// The number of panels in the region.
    spec fn panel_count() -> nat;

    /// The region's panels, from the top down.
    spec fn panels() -> Seq<Self>;

    /// What is declared of the panel at this position.
    spec fn rect_info(&self) -> RegionRectInfo;

    /// The declaration is sound: the panels are numbered from zero in their
    /// order, every position is one of them, and their heights share out the
    /// whole region.
    proof fn lemma_declaration()
        ensures
            Self::panels().len() == Self::panel_count(),
            forall|i: int|
                0 <= i < Self::panels().len() ==> (#[trigger] Self::panels()[i]).rect_info().index
                    == i,
            forall|position: Self|
                #![trigger position.rect_info()]
                {
                    &&& position.rect_info().index < Self::panel_count()
                    &&& Self::panels()[position.rect_info().index as int] == position
                },
            shares_whole(
                Seq::new(
                    Self::panel_count(),
                    |i: int| Self::panels()[i].rect_info().height_percentage,
                ),
            ),
    ;

    fn get_region_info() -> (info: RegionInfo)
        ensures
            info == Self::region_info(),
    ;

    fn get_rect_info(&self) -> (info: RegionRectInfo)
        ensures
            info == self.rect_info(),
            info.index < Self::panel_count(),
    ;
}

/// The panels of the left region.
#[derive(Clone, Copy, Debug, PartialEq, Eq, Structural)]
pub enum LeftRegion {
    Top,
    Middle,
    Bottom,
}

impl GetRegionInfo for LeftRegion {
    open spec fn region_info() -> RegionInfo {
        RegionInfo { width_percentage: 25 }
    }

    open spec fn panel_count() -> nat {
        3
    }

    open spec fn panels() -> Seq<Self> {
        seq![LeftRegion::Top, LeftRegion::Middle, LeftRegion::Bottom]
    }

    proof fn lemma_declaration() {
        let heights = Seq::new(
            Self::panel_count(),
            |i: int| Self::panels()[i].rect_info().height_percentage,
        );
        assert(heights.drop_last().drop_last().drop_last().len() == 0);
        reveal_with_fuel(percent_sum, 4);
    }

    open spec fn rect_info(&self) -> RegionRectInfo {
        match self {
            LeftRegion::Top => RegionRectInfo {
                index: 0,
                title: "Backend",
                height_percentage: 30,
                hotkey: 'b',
            },
            LeftRegion::Middle => RegionRectInfo {
                index: 1,
                title: "Benches",
                height_percentage: 60,
                hotkey: 'n',
            },
            LeftRegion::Bottom => RegionRectInfo {
                index: 2,
                title: "Action",
                height_percentage: 10,
                hotkey: 'a',
            },
        }
    }

    fn get_region_info() -> (info: RegionInfo) {
        RegionInfo { width_percentage: 25 }
    }

    fn get_rect_info(&self) -> (info: RegionRectInfo) {
        match self {
            LeftRegion::Top => RegionRectInfo {
                index: 0,
                title: "Backend",
                height_percentage: 30,
                hotkey: 'b',
            },
            LeftRegion::Middle => RegionRectInfo {
                index: 1,
                title: "Benches",
                height_percentage: 60,
                hotkey: 'n',
            },
            LeftRegion::Bottom => RegionRectInfo {
                index: 2,
                title: "Action",
                height_percentage: 10,
                hotkey: 'a',
            },
        }
    }
}

/// The panels of the right region.
#[derive(Clone, Copy, Debug, PartialEq, Eq, Structural)]
pub enum RightRegion {
    Top,
    Bottom,
}

impl GetRegionInfo for RightRegion {
    open spec fn region_info() -> RegionInfo {
        RegionInfo { width_percentage: (100 - LeftRegion::region_info().width_percentage) as u16 }
    }

    open spec fn panel_count() -> nat {
        2
    }

    open spec fn panels() -> Seq<Self> {
        seq![RightRegion::Top, RightRegion::Bottom]
    }

    proof fn lemma_declaration() {
        let heights = Seq::new(
            Self::panel_count(),
            |i: int| Self::panels()[i].rect_info().height_percentage,
        );
        assert(heights.drop_last().drop_last().len() == 0);
        reveal_with_fuel(percent_sum, 3);
    }

    open spec fn rect_info(&self) -> RegionRectInfo {
        match self {
            RightRegion::Top => RegionRectInfo {
                index: 0,
                title: "Results",
                height_percentage: 90,
                hotkey: 'r',
            },
            RightRegion::Bottom => RegionRectInfo {
                index: 1,
                title: "Progress",
                height_percentage: 10,
                hotkey: 'p',
            },
        }
    }

    fn get_region_info() -> (info: RegionInfo) {
        RegionInfo { width_percentage: 100 - LeftRegion::get_region_info().width_percentage }
    }

    fn get_rect_info(&self) -> (info: RegionRectInfo) {
        match self {
            RightRegion::Top => RegionRectInfo {
                index: 0,
                title: "Results",
                height_percentage: 90,
                hotkey: 'r',
            },
            RightRegion::Bottom => RegionRectInfo {
                index: 1,
                title: "Progress",
                height_percentage: 10,
                hotkey: 'p',
            },
        }
    }
}

/// A region: its declaration, bound to the rectangles that were computed
/// for its panels from the current frame.
///
/// A region always holds one rectangle for each of its panels, so that a
/// lookup by position cannot miss.
pub struct Region<T: GetRegionInfo> {
    rects: Vec<Rect>,
    info: RegionInfo,
    _t: PhantomData<T>,
}

impl<T: GetRegionInfo> View for Region<T> {
    type V = Seq<Rect>;

    /// The rectangles of the region's panels, from the top down.
    closed spec fn view(&self) -> Seq<Rect> {
        self.rects@
    }
}

impl<T: GetRegionInfo> Region<T> {
    #[verifier::type_invariant]
    spec fn complete(self) -> bool {
        &&& self.rects@.len() == T::panel_count()
        &&& self.info == T::region_info()
    }

    /// Binds the rectangles of a region's panels, given from the top down,
    /// to the region's declaration.
    pub fn new(rects: Vec<Rect>) -> (region: Self)
        requires
            rects@.len() == T::panel_count(),
        ensures
            region@ == rects@,
    {
        Self { rects, info: T::get_region_info(), _t: PhantomData }
    }

    /// What is declared of the region as a whole.
    pub fn info(&self) -> (info: RegionInfo)
        ensures
            info == T::region_info(),
    {
        proof {
            use_type_invariant(self);
        }
        self.info
    }

    /// The rectangle of the panel at `position`.
    pub fn rect(&self, position: T) -> (rect: Rect)
        ensures
            self@.len() == T::panel_count(),
            position.rect_info().index < self@.len(),
            rect == self@[position.rect_info().index as int],
    {
        proof {
            use_type_invariant(self);
        }
        self.rects[position.get_rect_info().index]
    }

    /// The decoration of the panel at `position`: its title followed by its
    /// hotkey in brackets, in the dashboard's panel style.
    pub fn block(&self, position: T) -> (block: Block)
        ensures
            block.is_panel(position.rect_info().title@, position.rect_info().hotkey),
    {
        let info = position.get_rect_info();
        let mut title = info.title.to_owned();
        title.append(" (");
        title.push(info.hotkey);
        title.append(")");
        proof {
            reveal_strlit(" (");
            reveal_strlit(")");
            assert(title@ =~= title_with_hotkey(info.title@, info.hotkey));
        }
        Block {
            title,
            title_position: Position::Top,
            title_alignment: Alignment::Center,
            borders: Borders { top: true, right: true, bottom: true, left: true },
            border_color: Color::DarkGray,
            border_type: BorderType::Rounded,
            padding: Padding { left: 10, right: 10, top: 2, bottom: 2 },
            background: Color::Black,
        }
    }
}

/// The rectangles of the whole dashboard: the left and the right region.
pub struct Regions<L: GetRegionInfo, R: GetRegionInfo> {
    pub left: Region<L>,
    pub right: Region<R>,
}

impl<L: GetRegionInfo, R: GetRegionInfo> Regions<L, R> {
    /// Binds the rectangles computed for the panels of each region, given
    /// from the top down.
    pub fn new_with_rect(left_rects: Vec<Rect>, right_rects: Vec<Rect>) -> (regions: Self)
        requires
            left_rects@.len() == L::panel_count(),
            right_rects@.len() == R::panel_count(),
        ensures
            regions.left@ == left_rects@,
            regions.right@ == right_rects@,
    {
        Self { left: Region::new(left_rects), right: Region::new(right_rects) }
    }
}

/// One step of drawing the dashboard: a decorated panel and the rectangle
/// to draw it into.
#[derive(Clone, Debug, PartialEq, Eq)]
pub struct Panel {
    pub block: Block,
    pub rect: Rect,
}

impl Panel {
    /// Whether this is the panel at `position` of `region`: that position's
    /// decoration, and the rectangle that the region holds for it.
    pub open spec fn shows<T: GetRegionInfo>(self, region: Region<T>, position: T) -> bool {
        &&& self.block.is_panel(position.rect_info().title@, position.rect_info().hotkey)
        &&& self.rect == region@[position.rect_info().index as int]
    }
}

impl Regions<LeftRegion, RightRegion> {
    /// The width percentages of the two columns, left first.
    pub open spec fn width_percentages() -> Seq<u16> {
        seq![LeftRegion::region_info().width_percentage, RightRegion::region_info().width_percentage]
    }

    /// The two columns of `frame` that the regions stand in, left first:
    /// each as wide as its region's panels and as high as the frame.
    pub open spec fn columns(self, frame: Rect) -> Seq<Rect> {
        seq![
            Rect {
                x: self.left@[0].x,
                y: frame.y,
                width: self.left@[0].width,
                height: frame.height,
            },
            Rect {
                x: self.right@[0].x,
                y: frame.y,
                width: self.right@[0].width,
                height: frame.height,
            },
        ]
    }

    /// Whether these are regions of `frame`: the frame is cut into the two
    /// columns by their width percentages, and each column into its panels
    /// by their height percentages. Each cut tiles what it cuts, and gives
    /// every part its share, rounded to whole cells.
    pub open spec fn lays_out(self, frame: Rect) -> bool {
        let columns = self.columns(frame);
        &&& tiles(frame, Direction::Horizontal, columns)
        &&& apportions(frame, Direction::Horizontal, Self::width_percentages(), columns)
        &&& tiles(columns[0], Direction::Vertical, self.left@)
        &&& apportions(
            columns[0],
            Direction::Vertical,
            height_percentages::<LeftRegion>(),
            self.left@,
        )
        &&& tiles(columns[1], Direction::Vertical, self.right@)
        &&& apportions(
            columns[1],
            Direction::Vertical,
            height_percentages::<RightRegion>(),
            self.right@,
        )
    }

    /// Computes the rectangles of all panels for a frame of the given size.
    pub fn new(frame: Rect) -> (regions: Self)
        ensures
            regions.lays_out(frame),
    {
        let widths = [
            LeftRegion::get_region_info().width_percentage,
            RightRegion::get_region_info().width_percentage,
        ];
        let left_heights = [
            LeftRegion::Top.get_rect_info().height_percentage,
            LeftRegion::Middle.get_rect_info().height_percentage,
            LeftRegion::Bottom.get_rect_info().height_percentage,
        ];
        let right_heights = [
            RightRegion::Top.get_rect_info().height_percentage,
            RightRegion::Bottom.get_rect_info().height_percentage,
        ];
        proof {
            LeftRegion::lemma_declaration();
            RightRegion::lemma_declaration();
            assert(widths@ =~= Self::width_percentages());
            assert(left_heights@ =~= height_percentages::<LeftRegion>());
            assert(right_heights@ =~= height_percentages::<RightRegion>());
            assert(widths@.drop_last().drop_last().len() == 0);
            reveal_with_fuel(percent_sum, 3);
        }
        let outer_layout = layout_split(frame, Direction::Horizontal, widths.as_slice());
        let left_rects = layout_split(outer_layout[0], Direction::Vertical, left_heights.as_slice());
        let right_rects = layout_split(
            outer_layout[1],
            Direction::Vertical,
            right_heights.as_slice(),
        );
        let regions = Self::new_with_rect(left_rects, right_rects);
        proof {
            assert(outer_layout@[0].same_band(frame, Direction::Horizontal));
            assert(outer_layout@[1].same_band(frame, Direction::Horizontal));
            assert(regions.left@[0].same_band(outer_layout@[0], Direction::Vertical));
            assert(regions.right@[0].same_band(outer_layout@[1], Direction::Vertical));
            assert(outer_layout@ =~= regions.columns(frame));
        }
        regions
    }

    /// The panels to draw, in drawing order: the left region from the top
    /// down, then the right region from the top down.
    pub fn draw(&self) -> (panels: Vec<Panel>)
        ensures
            panels@.len() == 5,
            panels@[0].shows(self.left, LeftRegion::Top),
            panels@[1].shows(self.left, LeftRegion::Middle),
            panels@[2].shows(self.left, LeftRegion::Bottom),
            panels@[3].shows(self.right, RightRegion::Top),
            panels@[4].shows(self.right, RightRegion::Bottom),
    {
        let mut panels: Vec<Panel> = Vec::new();
        // Left region
        panels.push(
            Panel { block: self.left.block(LeftRegion::Top), rect: self.left.rect(LeftRegion::Top) },
        );
        panels.push(
            Panel {
                block: self.left.block(LeftRegion::Middle),
                rect: self.left.rect(LeftRegion::Middle),
            },
        );
        panels.push(
            Panel {
                block: self.left.block(LeftRegion::Bottom),
                rect: self.left.rect(LeftRegion::Bottom),
            },
        );
        // Right region
        panels.push(
            Panel {
                block: self.right.block(RightRegion::Top),
                rect: self.right.rect(RightRegion::Top),
            },
        );
        panels.push(
            Panel {
                block: self.right.block(RightRegion::Bottom),
                rect: self.right.rect(RightRegion::Bottom),
            },
        );
        panels
    }
}

impl Regions<LeftRegion, RightRegion> {
    /// The rectangles of all panels: the left region's, then the right
    /// region's.
    pub open spec fn all_rects(self) -> Seq<Rect> {
        self.left@ + self.right@
    }

    /// Whether a column or a panel of `frame` is to begin halfway between
    /// two cells: the right column, the middle or the bottom panel on the
    /// left, or the bottom panel on the right.
    pub open spec fn cuts_halfway(frame: Rect) -> bool {
        let width = frame.end(Direction::Horizontal) - frame.x;
        let height = frame.end(Direction::Vertical) - frame.y;
        let left_top = LeftRegion::Top.rect_info().height_percentage;
        let left_middle = LeftRegion::Middle.rect_info().height_percentage;
        let right_top = RightRegion::Top.rect_info().height_percentage;
        ||| halfway(width, LeftRegion::region_info().width_percentage as int)
        ||| halfway(height, left_top as int)
        ||| halfway(height, left_top + left_middle)
        ||| halfway(height, right_top as int)
    }

    /// A cut of the frame falls halfway between two cells exactly if the
    /// frame is two cells wider than a multiple of four, or five cells
    /// higher than a multiple of ten.
    pub proof fn lemma_cuts_halfway(frame: Rect)
        ensures
            Self::cuts_halfway(frame) <==> {
                ||| (frame.end(Direction::Horizontal) - frame.x) % 4 == 2
                ||| (frame.end(Direction::Vertical) - frame.y) % 10 == 5
            },
    {
        let width = frame.end(Direction::Horizontal) - frame.x;
        let height = frame.end(Direction::Vertical) - frame.y;
        assert(halfway(width, 25) <==> width % 4 == 2);
        assert(halfway(height, 30) <==> height % 10 == 5);
        assert(halfway(height, 90) <==> height % 10 == 5);
    }

    /// The regions of a frame are determined by the frame wherever no cut
    /// falls halfway between two cells: two layouts of the same frame then
    /// hold the same rectangles.
    pub proof fn lemma_layout_determined(frame: Rect, first: Self, second: Self)
        requires
            first.lays_out(frame),
            second.lays_out(frame),
            !Self::cuts_halfway(frame),
        ensures
            first.left@ == second.left@,
            first.right@ == second.right@,
    {
        let widths = Self::width_percentages();
        let left_heights = height_percentages::<LeftRegion>();
        let right_heights = height_percentages::<RightRegion>();
        let width = frame.end(Direction::Horizontal) - frame.start(Direction::Horizontal);
        let height = frame.end(Direction::Vertical) - frame.start(Direction::Vertical);
        assert forall|i: int| 0 <= i < widths.len() implies !halfway(
            width,
            #[trigger] percent_sum(widths.take(i)),
        ) by {
            reveal_with_fuel(percent_sum, 2);
            assert(widths.take(0).len() == 0);
            assert(widths.take(1).drop_last().len() == 0);
        }
        lemma_parts_determined(
            frame,
            Direction::Horizontal,
            widths,
            first.columns(frame),
            second.columns(frame),
        );
        let columns = first.columns(frame);
        assert(columns[0] == second.columns(frame)[0]);
        assert(columns[1] == second.columns(frame)[1]);
        assert(columns[0].same_band(frame, Direction::Horizontal));
        assert(columns[1].same_band(frame, Direction::Horizontal));
        assert forall|i: int| 0 <= i < left_heights.len() implies !halfway(
            height,
            #[trigger] percent_sum(left_heights.take(i)),
        ) by {
            reveal_with_fuel(percent_sum, 3);
            assert(left_heights.take(0).len() == 0);
            assert(left_heights.take(1).drop_last().len() == 0);
            assert(left_heights.take(2).drop_last().drop_last().len() == 0);
        }
        lemma_parts_determined(
            columns[0],
            Direction::Vertical,
            left_heights,
            first.left@,
            second.left@,
        );
        assert forall|i: int| 0 <= i < right_heights.len() implies !halfway(
            height,
            #[trigger] percent_sum(right_heights.take(i)),
        ) by {
            reveal_with_fuel(percent_sum, 2);
            assert(right_heights.take(0).len() == 0);
            assert(right_heights.take(1).drop_last().len() == 0);
        }
        lemma_parts_determined(
            columns[1],
            Direction::Vertical,
            right_heights,
            first.right@,
            second.right@,
        );
    }

    /// Every column gets its share of the frame's width, and every panel
    /// its share of the frame's height, to within one cell.
    pub proof fn lemma_panels_near_share(self, frame: Rect)
        requires
            self.lays_out(frame),
        ensures
            ({
                let width = frame.end(Direction::Horizontal) - frame.x;
                let height = frame.end(Direction::Vertical) - frame.y;
                let columns = self.columns(frame);
                &&& -100 <= 100 * columns[0].width - width
                    * LeftRegion::region_info().width_percentage <= 100
                &&& -100 <= 100 * columns[1].width - width
                    * RightRegion::region_info().width_percentage <= 100
                &&& forall|position: LeftRegion|
                    #![trigger position.rect_info()]
                    -100 <= 100 * self.left@[position.rect_info().index as int].height - height
                        * position.rect_info().height_percentage <= 100
                &&& forall|position: RightRegion|
                    #![trigger position.rect_info()]
                    -100 <= 100 * self.right@[position.rect_info().index as int].height - height
                        * position.rect_info().height_percentage <= 100
            }),
    {
        let columns = self.columns(frame);
        LeftRegion::lemma_declaration();
        RightRegion::lemma_declaration();
        assert(Self::width_percentages().drop_last().drop_last().len() == 0);
        assert(shares_whole(Self::width_percentages())) by {
            reveal_with_fuel(percent_sum, 3);
        }
        lemma_part_near_share(
            frame,
            Direction::Horizontal,
            Self::width_percentages(),
            columns,
            0,
        );
        lemma_part_near_share(
            frame,
            Direction::Horizontal,
            Self::width_percentages(),
            columns,
            1,
        );
        assert(columns[0].same_band(frame, Direction::Horizontal));
        assert(columns[1].same_band(frame, Direction::Horizontal));
        assert forall|position: LeftRegion| #![trigger position.rect_info()]
            -100 <= 100 * self.left@[position.rect_info().index as int].height - (frame.end(
                Direction::Vertical,
            ) - frame.y) * position.rect_info().height_percentage <= 100 by {
            lemma_part_near_share(
                columns[0],
                Direction::Vertical,
                height_percentages::<LeftRegion>(),
                self.left@,
                position.rect_info().index as int,
            );
        }
        assert forall|position: RightRegion| #![trigger position.rect_info()]
            -100 <= 100 * self.right@[position.rect_info().index as int].height - (frame.end(
                Direction::Vertical,
            ) - frame.y) * position.rect_info().height_percentage <= 100 by {
            lemma_part_near_share(
                columns[1],
                Direction::Vertical,
                height_percentages::<RightRegion>(),
                self.right@,
                position.rect_info().index as int,
            );
        }
    }

    /// Each region holds one rectangle for each of its panels, and the
    /// panels of a region are as high together as the frame.
    pub proof fn lemma_panels_fill_height(self, frame: Rect)
        requires
            self.lays_out(frame),
        ensures
            self.left@.len() == LeftRegion::panel_count(),
            self.right@.len() == RightRegion::panel_count(),
            total_length(self.left@, Direction::Vertical) == frame.end(Direction::Vertical)
                - frame.y,
            total_length(self.right@, Direction::Vertical) == frame.end(Direction::Vertical)
                - frame.y,
            frame.on_grid() ==> total_length(self.left@, Direction::Vertical) == frame.height
                && total_length(self.right@, Direction::Vertical) == frame.height,
    {
        let columns = self.columns(frame);
        assert(columns[0].same_band(frame, Direction::Horizontal));
        assert(columns[1].same_band(frame, Direction::Horizontal));
        lemma_tiles_total_length(columns[0], Direction::Vertical, self.left@);
        lemma_tiles_total_length(columns[1], Direction::Vertical, self.right@);
    }

    /// The two columns stand side by side and are as wide together as the
    /// frame, and each is as high as the frame. Every panel has the
    /// position and the width of its column.
    pub proof fn lemma_columns_fill_frame(self, frame: Rect)
        requires
            self.lays_out(frame),
        ensures
            ({
                let columns = self.columns(frame);
                &&& columns[0].x == frame.x
                &&& columns[1].x == columns[0].x + columns[0].width
                &&& columns[0].width + columns[1].width == frame.end(Direction::Horizontal)
                    - frame.x
                &&& frame.on_grid() ==> columns[0].width + columns[1].width == frame.width
                &&& forall|k: int|
                    0 <= k < 2 ==> (#[trigger] columns[k]).y == frame.y && columns[k].height
                        == frame.height
                &&& forall|i: int|
                    0 <= i < self.left@.len() ==> (#[trigger] self.left@[i]).x == columns[0].x
                        && self.left@[i].width == columns[0].width
                &&& forall|j: int|
                    0 <= j < self.right@.len() ==> (#[trigger] self.right@[j]).x == columns[1].x
                        && self.right@[j].width == columns[1].width
            }),
    {
        let columns = self.columns(frame);
        let first: int = 0;
        assert(columns[first].start(Direction::Horizontal) + columns[first].length(
            Direction::Horizontal,
        ) == columns[first + 1].start(Direction::Horizontal));
        assert forall|k: int| 0 <= k < 2 implies (#[trigger] columns[k]).y == frame.y
            && columns[k].height == frame.height by {
            assert(columns[k].same_band(frame, Direction::Horizontal));
        }
        assert forall|i: int| 0 <= i < self.left@.len() implies (#[trigger] self.left@[i]).x
            == columns[0].x && self.left@[i].width == columns[0].width by {
            assert(self.left@[i].same_band(columns[0], Direction::Vertical));
        }
        assert forall|j: int| 0 <= j < self.right@.len() implies (#[trigger] self.right@[j]).x
            == columns[1].x && self.right@[j].width == columns[1].width by {
            assert(self.right@[j].same_band(columns[1], Direction::Vertical));
        }
    }

    /// The panels leave no gap in the frame and do not reach beyond it: a
    /// cell belongs to the frame exactly if it belongs to a panel.
    pub proof fn lemma_panels_cover_frame(self, frame: Rect, column: int, row: int)
        requires
            self.lays_out(frame),
        ensures
            frame.contains(column, row) <==> exists|k: int|
                0 <= k < self.all_rects().len() && (#[trigger] self.all_rects()[k]).contains(
                    column,
                    row,
                ),
    {
        let columns = self.columns(frame);
        let all = self.all_rects();
        let left_count = self.left@.len() as int;
        lemma_tiles_no_gap(frame, Direction::Horizontal, columns, column, row);
        lemma_tiles_no_gap(columns[0], Direction::Vertical, self.left@, column, row);
        lemma_tiles_no_gap(columns[1], Direction::Vertical, self.right@, column, row);
        if frame.contains(column, row) {
            let c = choose|c: int| 0 <= c < 2 && (#[trigger] columns[c]).contains(column, row);
            if c == 0 {
                let i = choose|i: int|
                    0 <= i < self.left@.len() && (#[trigger] self.left@[i]).contains(column, row);
                assert(all[i].contains(column, row));
            } else {
                let j = choose|j: int|
                    0 <= j < self.right@.len() && (#[trigger] self.right@[j]).contains(
                        column,
                        row,
                    );
                assert(all[left_count + j].contains(column, row));
            }
        }
        if exists|k: int| 0 <= k < all.len() && (#[trigger] all[k]).contains(column, row) {
            let k = choose|k: int| 0 <= k < all.len() && (#[trigger] all[k]).contains(column, row);
            if k < left_count {
                assert(self.left@[k].contains(column, row));
                assert(columns[0].contains(column, row));
            } else {
                assert(self.right@[k - left_count].contains(column, row));
                assert(columns[1].contains(column, row));
            }
        }
    }

    /// No two panels overlap: a cell of one panel belongs to no other.
    pub proof fn lemma_panels_disjoint(self, frame: Rect, a: int, b: int, column: int, row: int)
        requires
            self.lays_out(frame),
            0 <= a < self.all_rects().len(),
            0 <= b < self.all_rects().len(),
            a != b,
            self.all_rects()[a].contains(column, row),
        ensures
            !self.all_rects()[b].contains(column, row),
    {
        let columns = self.columns(frame);
        let left_count = self.left@.len() as int;
        lemma_tiles_no_gap(columns[0], Direction::Vertical, self.left@, column, row);
        lemma_tiles_no_gap(columns[1], Direction::Vertical, self.right@, column, row);
        if a < left_count && b < left_count {
            lemma_tiles_no_overlap(columns[0], Direction::Vertical, self.left@, a, b, column, row);
        } else if a >= left_count && b >= left_count {
            lemma_tiles_no_overlap(
                columns[1],
                Direction::Vertical,
                self.right@,
                a - left_count,
                b - left_count,
                column,
                row,
            );
        } else if a < left_count {
            assert(self.left@[a].contains(column, row));
            lemma_tiles_no_overlap(frame, Direction::Horizontal, columns, 0, 1, column, row);
            if self.all_rects()[b].contains(column, row) {
                assert(self.right@[b - left_count].contains(column, row));
            }
        } else {
            assert(self.right@[a - left_count].contains(column, row));
            lemma_tiles_no_overlap(frame, Direction::Horizontal, columns, 1, 0, column, row);
            if self.all_rects()[b].contains(column, row) {
                assert(self.left@[b].contains(column, row));
            }
        }
    }
}

} // verus!

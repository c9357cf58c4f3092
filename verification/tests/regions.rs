use tui_regions::block::{Alignment, BorderType, Borders, Color, Padding, Position};
use tui_regions::geometry::Rect;
use tui_regions::regions::{
    GetRegionInfo, LeftRegion, Region, RegionInfo, RegionRectInfo, Regions, RightRegion,
};

fn rect(x: u16, y: u16, width: u16, height: u16) -> Rect {
    Rect { x, y, width, height }
}

#[test]
fn left_region_takes_a_quarter_of_the_width() {
    assert_eq!(LeftRegion::get_region_info(), RegionInfo { width_percentage: 25 });
}

#[test]
fn right_region_takes_the_rest_of_the_width() {
    assert_eq!(RightRegion::get_region_info(), RegionInfo { width_percentage: 75 });
    assert_eq!(
        LeftRegion::get_region_info().width_percentage
            + RightRegion::get_region_info().width_percentage,
        100
    );
}

#[test]
fn left_panels_are_declared() {
    assert_eq!(
        LeftRegion::Top.get_rect_info(),
        RegionRectInfo { index: 0, title: "Backend", height_percentage: 30, hotkey: 'b' }
    );
    assert_eq!(
        LeftRegion::Middle.get_rect_info(),
        RegionRectInfo { index: 1, title: "Benches", height_percentage: 60, hotkey: 'n' }
    );
    assert_eq!(
        LeftRegion::Bottom.get_rect_info(),
        RegionRectInfo { index: 2, title: "Action", height_percentage: 10, hotkey: 'a' }
    );
}

#[test]
fn right_panels_are_declared() {
    assert_eq!(
        RightRegion::Top.get_rect_info(),
        RegionRectInfo { index: 0, title: "Results", height_percentage: 90, hotkey: 'r' }
    );
    assert_eq!(
        RightRegion::Bottom.get_rect_info(),
        RegionRectInfo { index: 1, title: "Progress", height_percentage: 10, hotkey: 'p' }
    );
}

#[test]
fn panel_heights_of_each_region_add_up_to_hundred() {
    let left = [LeftRegion::Top, LeftRegion::Middle, LeftRegion::Bottom];
    let right = [RightRegion::Top, RightRegion::Bottom];
    assert_eq!(left.iter().map(|p| p.get_rect_info().height_percentage).sum::<u16>(), 100);
    assert_eq!(right.iter().map(|p| p.get_rect_info().height_percentage).sum::<u16>(), 100);
}

#[test]
fn panel_indices_count_from_zero_in_order() {
    let left = [LeftRegion::Top, LeftRegion::Middle, LeftRegion::Bottom];
    for (at, position) in left.iter().enumerate() {
        assert_eq!(position.get_rect_info().index, at);
    }
    let right = [RightRegion::Top, RightRegion::Bottom];
    for (at, position) in right.iter().enumerate() {
        assert_eq!(position.get_rect_info().index, at);
    }
}

#[test]
fn region_keeps_its_declaration() {
    let left: Region<LeftRegion> = Region::new(vec![rect(0, 0, 1, 1); 3]);
    assert_eq!(left.info(), RegionInfo { width_percentage: 25 });
    let right: Region<RightRegion> = Region::new(vec![rect(0, 0, 1, 1); 2]);
    assert_eq!(right.info(), RegionInfo { width_percentage: 75 });
}

#[test]
fn lookup_returns_the_rectangle_at_the_declared_index() {
    let rects = vec![rect(0, 0, 5, 1), rect(0, 1, 5, 2), rect(0, 3, 5, 3)];
    let left: Region<LeftRegion> = Region::new(rects.clone());
    assert_eq!(left.rect(LeftRegion::Top), rects[0]);
    assert_eq!(left.rect(LeftRegion::Middle), rects[1]);
    assert_eq!(left.rect(LeftRegion::Bottom), rects[2]);
    let rects = vec![rect(5, 0, 9, 4), rect(5, 4, 9, 2)];
    let right: Region<RightRegion> = Region::new(rects.clone());
    assert_eq!(right.rect(RightRegion::Top), rects[0]);
    assert_eq!(right.rect(RightRegion::Bottom), rects[1]);
}

#[test]
fn new_with_rect_binds_both_regions() {
    let left = vec![rect(0, 0, 5, 1), rect(0, 1, 5, 2), rect(0, 3, 5, 3)];
    let right = vec![rect(5, 0, 9, 4), rect(5, 4, 9, 2)];
    let regions: Regions<LeftRegion, RightRegion> =
        Regions::new_with_rect(left.clone(), right.clone());
    assert_eq!(regions.left.rect(LeftRegion::Bottom), left[2]);
    assert_eq!(regions.right.rect(RightRegion::Top), right[0]);
    assert_eq!(regions.right.rect(RightRegion::Bottom), right[1]);
}

#[test]
fn frame_of_100_by_40_is_laid_out() {
    let regions = Regions::new(rect(0, 0, 100, 40));
    assert_eq!(regions.left.rect(LeftRegion::Top), rect(0, 0, 25, 12));
    assert_eq!(regions.left.rect(LeftRegion::Middle), rect(0, 12, 25, 24));
    assert_eq!(regions.left.rect(LeftRegion::Bottom), rect(0, 36, 25, 4));
    assert_eq!(regions.right.rect(RightRegion::Top), rect(25, 0, 75, 36));
    assert_eq!(regions.right.rect(RightRegion::Bottom), rect(25, 36, 75, 4));
}

#[test]
fn frame_of_odd_width_is_filled_exactly() {
    let regions = Regions::new(rect(0, 0, 101, 40));
    let left = regions.left.rect(LeftRegion::Top);
    let right = regions.right.rect(RightRegion::Top);
    assert_eq!(left.x, 0);
    assert_eq!(right.x, left.width);
    assert_eq!(left.width + right.width, 101);
    // the right column takes the cell that the quarter leaves over
    assert_eq!((left.width, right.width), (25, 76));
}

#[test]
fn panels_fill_every_small_frame() {
    for width in 0..=40u16 {
        for height in 0..=25u16 {
            let frame = rect(0, 0, width, height);
            let regions = Regions::new(frame);
            let left = [
                regions.left.rect(LeftRegion::Top),
                regions.left.rect(LeftRegion::Middle),
                regions.left.rect(LeftRegion::Bottom),
            ];
            let right =
                [regions.right.rect(RightRegion::Top), regions.right.rect(RightRegion::Bottom)];
            // the columns stand side by side and fill the width
            assert_eq!(left[0].x, 0);
            assert_eq!(right[0].x, left[0].width);
            assert_eq!(left[0].width + right[0].width, width);
            // the panels of a column are stacked and fill the height
            for column in [&left[..], &right[..]] {
                let mut y = 0;
                for panel in column {
                    assert_eq!(panel.y, y);
                    assert_eq!((panel.x, panel.width), (column[0].x, column[0].width));
                    y += panel.height;
                }
                assert_eq!(y, height);
            }
            // every cell of the frame lies in exactly one panel
            let cells: u32 =
                left.iter().chain(right.iter()).map(|p| u32::from(p.width) * u32::from(p.height)).sum();
            assert_eq!(cells, u32::from(width) * u32::from(height));
        }
    }
}

fn all_rects(regions: &Regions<LeftRegion, RightRegion>) -> Vec<Rect> {
    regions.draw().iter().map(|panel| panel.rect).collect()
}

#[test]
fn layout_is_computed_afresh_to_the_same_rectangles() {
    // frames of which some cut falls halfway between two cells are among them
    let frames =
        [rect(0, 0, 100, 40), rect(0, 0, 101, 41), rect(0, 0, 2, 5), rect(1, 1, 10, 15), rect(0, 0, 6, 25)];
    for frame in frames {
        let first = all_rects(&Regions::new(frame));
        for round in 0..4u16 {
            // lay out enough other frames in between that nothing is remembered
            for other in 0..20u16 {
                Regions::new(rect(round, other, 200 + other, 100 + round));
            }
            assert_eq!(all_rects(&Regions::new(frame)), first);
        }
    }
}

#[test]
fn halfway_cuts_of_the_dashboard_round_up() {
    // a quarter of two cells is half a cell; three tenths of five rows are one and a half
    let regions = Regions::new(rect(0, 0, 2, 5));
    assert_eq!(regions.left.rect(LeftRegion::Top), rect(0, 0, 1, 2));
    assert_eq!(regions.left.rect(LeftRegion::Middle), rect(0, 2, 1, 3));
    assert_eq!(regions.left.rect(LeftRegion::Bottom), rect(0, 5, 1, 0));
    assert_eq!(regions.right.rect(RightRegion::Top), rect(1, 0, 1, 5));
    assert_eq!(regions.right.rect(RightRegion::Bottom), rect(1, 5, 1, 0));
}

#[test]
fn panels_get_their_share_to_within_one_cell() {
    for (width, height) in [(80u16, 24u16), (81, 25), (132, 43), (7, 3), (1, 1), (211, 67)] {
        let regions = Regions::new(rect(0, 0, width, height));
        let left = [LeftRegion::Top, LeftRegion::Middle, LeftRegion::Bottom];
        for position in left {
            let share = u32::from(height) * u32::from(position.get_rect_info().height_percentage);
            let panel = regions.left.rect(position);
            assert!((u32::from(panel.height) * 100).abs_diff(share) <= 100);
            assert!((u32::from(panel.width) * 100).abs_diff(u32::from(width) * 25) <= 100);
        }
        let right = [RightRegion::Top, RightRegion::Bottom];
        for position in right {
            let share = u32::from(height) * u32::from(position.get_rect_info().height_percentage);
            let panel = regions.right.rect(position);
            assert!((u32::from(panel.height) * 100).abs_diff(share) <= 100);
            assert!((u32::from(panel.width) * 100).abs_diff(u32::from(width) * 75) <= 100);
        }
    }
}

#[test]
fn frame_at_the_end_of_the_grid_is_cut_short() {
    let regions = Regions::new(rect(u16::MAX - 8, u16::MAX - 10, 100, 40));
    let left = regions.left.rect(LeftRegion::Top);
    let right = regions.right.rect(RightRegion::Top);
    assert_eq!((left.x, left.width), (u16::MAX - 8, 2));
    assert_eq!((right.x, right.width), (u16::MAX - 6, 6));
    let bottom = regions.right.rect(RightRegion::Bottom);
    assert_eq!(u32::from(bottom.y) + u32::from(bottom.height), u32::from(u16::MAX));
    assert_eq!(left.y, u16::MAX - 10);
}

#[test]
fn layout_of_the_same_frame_is_the_same() {
    for frame in [rect(0, 0, 100, 40), rect(0, 0, 101, 41), rect(3, 2, 80, 24), rect(0, 0, 1, 1)] {
        let first = Regions::new(frame);
        let second = Regions::new(frame);
        assert_eq!(first.left.rect(LeftRegion::Top), second.left.rect(LeftRegion::Top));
        assert_eq!(first.left.rect(LeftRegion::Middle), second.left.rect(LeftRegion::Middle));
        assert_eq!(first.left.rect(LeftRegion::Bottom), second.left.rect(LeftRegion::Bottom));
        assert_eq!(first.right.rect(RightRegion::Top), second.right.rect(RightRegion::Top));
        assert_eq!(first.right.rect(RightRegion::Bottom), second.right.rect(RightRegion::Bottom));
    }
}

#[test]
fn layout_follows_the_offset_of_the_frame() {
    let regions = Regions::new(rect(4, 2, 80, 20));
    assert_eq!(regions.left.rect(LeftRegion::Top), rect(4, 2, 20, 6));
    assert_eq!(regions.left.rect(LeftRegion::Middle), rect(4, 8, 20, 12));
    assert_eq!(regions.left.rect(LeftRegion::Bottom), rect(4, 20, 20, 2));
    assert_eq!(regions.right.rect(RightRegion::Top), rect(24, 2, 60, 18));
    assert_eq!(regions.right.rect(RightRegion::Bottom), rect(24, 20, 60, 2));
}

#[test]
fn titles_carry_the_hotkey_in_brackets() {
    let regions = Regions::new(rect(0, 0, 100, 40));
    assert_eq!(regions.left.block(LeftRegion::Top).title, "Backend (b)");
    assert_eq!(regions.left.block(LeftRegion::Middle).title, "Benches (n)");
    assert_eq!(regions.left.block(LeftRegion::Bottom).title, "Action (a)");
    assert_eq!(regions.right.block(RightRegion::Top).title, "Results (r)");
    assert_eq!(regions.right.block(RightRegion::Bottom).title, "Progress (p)");
}

#[test]
fn title_is_the_declared_title_and_hotkey() {
    let regions = Regions::new(rect(0, 0, 10, 10));
    for position in [LeftRegion::Top, LeftRegion::Middle, LeftRegion::Bottom] {
        let info = position.get_rect_info();
        let expected = format!("{} ({})", info.title, info.hotkey);
        assert_eq!(regions.left.block(position).title, expected);
    }
    for position in [RightRegion::Top, RightRegion::Bottom] {
        let info = position.get_rect_info();
        let expected = format!("{} ({})", info.title, info.hotkey);
        assert_eq!(regions.right.block(position).title, expected);
    }
}

#[test]
fn block_has_the_panel_style() {
    let regions = Regions::new(rect(0, 0, 100, 40));
    let block = regions.right.block(RightRegion::Top);
    assert_eq!(block.title_position, Position::Top);
    assert_eq!(block.title_alignment, Alignment::Center);
    assert_eq!(block.borders, Borders { top: true, right: true, bottom: true, left: true });
    assert_eq!(block.border_color, Color::DarkGray);
    assert_eq!(block.border_type, BorderType::Rounded);
    assert_eq!(block.padding, Padding { left: 10, right: 10, top: 2, bottom: 2 });
    assert_eq!(block.background, Color::Black);
}

#[test]
fn draw_lists_the_left_panels_then_the_right_panels() {
    let regions = Regions::new(rect(0, 0, 100, 40));
    let panels = regions.draw();
    assert_eq!(panels.len(), 5);
    let titles: Vec<&str> = panels.iter().map(|p| p.block.title.as_str()).collect();
    assert_eq!(
        titles,
        vec!["Backend (b)", "Benches (n)", "Action (a)", "Results (r)", "Progress (p)"]
    );
    let rects: Vec<Rect> = panels.iter().map(|p| p.rect).collect();
    assert_eq!(
        rects,
        vec![
            rect(0, 0, 25, 12),
            rect(0, 12, 25, 24),
            rect(0, 36, 25, 4),
            rect(25, 0, 75, 36),
            rect(25, 36, 75, 4),
        ]
    );
}

#[test]
fn draw_pairs_each_block_with_its_rectangle() {
    let regions = Regions::new(rect(0, 0, 83, 27));
    let panels = regions.draw();
    assert_eq!(panels[0].block, regions.left.block(LeftRegion::Top));
    assert_eq!(panels[0].rect, regions.left.rect(LeftRegion::Top));
    assert_eq!(panels[1].block, regions.left.block(LeftRegion::Middle));
    assert_eq!(panels[1].rect, regions.left.rect(LeftRegion::Middle));
    assert_eq!(panels[2].block, regions.left.block(LeftRegion::Bottom));
    assert_eq!(panels[2].rect, regions.left.rect(LeftRegion::Bottom));
    assert_eq!(panels[3].block, regions.right.block(RightRegion::Top));
    assert_eq!(panels[3].rect, regions.right.rect(RightRegion::Top));
    assert_eq!(panels[4].block, regions.right.block(RightRegion::Bottom));
    assert_eq!(panels[4].rect, regions.right.rect(RightRegion::Bottom));
}

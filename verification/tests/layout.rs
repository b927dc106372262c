use countdown::layout::{
    cursor_cell, frame_plan, plan_frame, row_heights, Area, FramePlan, RowHeights, INPUT_HEIGHT,
    MARGIN_LINES,
};
use countdown::state::TimerState;

fn frame(width: u16, height: u16) -> Area {
    Area { x: 0, y: 0, width, height }
}

fn editing(text: &str) -> TimerState {
    let mut app = TimerState::new();
    app.enter_edit();
    for c in text.chars() {
        app.enter_char(c);
    }
    app
}

#[test]
fn the_margins_halve_what_the_banner_leaves() {
    assert_eq!(MARGIN_LINES, 2);
    assert_eq!(INPUT_HEIGHT, 3);
    assert_eq!(row_heights(25, 6, false), Some(RowHeights { top: 7, text: 11, bottom: 7, input: 0 }));
    assert_eq!(row_heights(24, 6, false), Some(RowHeights { top: 6, text: 11, bottom: 6, input: 0 }));
    assert_eq!(row_heights(50, 0, false), Some(RowHeights { top: 22, text: 5, bottom: 22, input: 0 }));
}

#[test]
fn the_input_box_takes_its_lines_from_the_bottom_margin() {
    assert_eq!(row_heights(25, 6, true), Some(RowHeights { top: 7, text: 11, bottom: 4, input: 3 }));
    assert_eq!(row_heights(17, 6, true), Some(RowHeights { top: 3, text: 11, bottom: 0, input: 3 }));
    assert_eq!(row_heights(15, 6, true), Some(RowHeights { top: 2, text: 11, bottom: 0, input: 3 }));
    assert_eq!(row_heights(11, 6, true), Some(RowHeights { top: 0, text: 11, bottom: 0, input: 3 }));
}

#[test]
fn a_banner_that_does_not_fit_leaves_the_frame_blank() {
    assert_eq!(row_heights(10, 6, false), None);
    assert_eq!(row_heights(10, 6, true), None);
    assert_eq!(row_heights(0, 0, false), None);
    assert_eq!(row_heights(4, 0, false), None);
    assert_eq!(row_heights(5, 0, false), Some(RowHeights { top: 0, text: 5, bottom: 0, input: 0 }));
    assert_eq!(row_heights(11, 6, false), Some(RowHeights { top: 0, text: 11, bottom: 0, input: 0 }));
}

#[test]
fn a_banner_of_very_many_lines_does_not_fit() {
    assert_eq!(row_heights(u16::MAX, 65_530, false), Some(RowHeights { top: 0, text: 65_535, bottom: 0, input: 0 }));
    assert_eq!(row_heights(u16::MAX, 65_531, false), None);
    assert_eq!(row_heights(u16::MAX, 65_536, false), None);
    assert_eq!(row_heights(u16::MAX, 65_536 + 6, true), None);
    assert_eq!(row_heights(u16::MAX, usize::MAX, true), None);
}

#[test]
fn the_cursor_cell_is_inside_the_box_border() {
    let input_box = Area { x: 0, y: 22, width: 80, height: 3 };
    assert_eq!(cursor_cell(input_box, 0), Some((1, 23)));
    assert_eq!(cursor_cell(input_box, 5), Some((6, 23)));
    assert_eq!(cursor_cell(Area { x: 10, y: 4, width: 30, height: 3 }, 8), Some((19, 5)));
}

#[test]
fn a_cursor_cell_beyond_the_coordinates_is_none() {
    let input_box = Area { x: 100, y: 0, width: 80, height: 3 };
    assert_eq!(cursor_cell(input_box, 65_434), Some((65_535, 1)));
    assert_eq!(cursor_cell(input_box, 65_435), None);
    assert_eq!(cursor_cell(input_box, 65_535), None);
    assert_eq!(cursor_cell(input_box, 65_536 + 5), None);
    assert_eq!(cursor_cell(input_box, usize::MAX), None);
    assert_eq!(cursor_cell(Area { x: 0, y: u16::MAX, width: 1, height: 1 }, 0), None);
    assert_eq!(cursor_cell(Area { x: 0, y: u16::MAX - 1, width: 1, height: 1 }, 0), Some((1, u16::MAX)));
}

#[test]
fn a_frame_in_normal_mode_has_a_banner_and_no_input_box() {
    let app = TimerState::new();
    let plan = plan_frame(frame(80, 25), 6, &app).unwrap();
    assert_eq!(plan.heights, RowHeights { top: 7, text: 11, bottom: 7, input: 0 });
    assert_eq!(plan.banner, Area { x: 0, y: 7, width: 80, height: 11 });
    assert_eq!(plan.input_box, None);
    assert_eq!(plan.cursor, None);
}

#[test]
fn a_frame_in_edit_mode_has_an_input_box_and_a_cursor() {
    let app = editing("00:0");
    let plan = plan_frame(frame(80, 25), 6, &app).unwrap();
    assert_eq!(plan.heights, RowHeights { top: 7, text: 11, bottom: 4, input: 3 });
    assert_eq!(plan.banner, Area { x: 0, y: 7, width: 80, height: 11 });
    assert_eq!(plan.input_box, Some(Area { x: 0, y: 22, width: 80, height: 3 }));
    assert_eq!(plan.cursor, Some((5, 23)));
}

#[test]
fn the_areas_keep_the_frame_s_column_and_width() {
    let mut app = editing("12");
    app.move_cursor_left();
    let size = Area { x: 3, y: 2, width: 40, height: 31 };
    let plan = plan_frame(size, 6, &app).unwrap();
    assert_eq!(plan.heights, RowHeights { top: 10, text: 11, bottom: 7, input: 3 });
    assert_eq!(plan.banner, Area { x: 3, y: 12, width: 40, height: 11 });
    assert_eq!(plan.input_box, Some(Area { x: 3, y: 30, width: 40, height: 3 }));
    assert_eq!(plan.cursor, Some((5, 31)));
}

#[test]
fn a_frame_too_low_for_the_banner_has_no_plan() {
    let app = TimerState::new();
    assert_eq!(plan_frame(frame(80, 10), 6, &app), None);
    assert_eq!(plan_frame(frame(80, 0), 0, &app), None);
    assert_eq!(plan_frame(frame(80, 10), 6, &editing("1")), None);
    assert!(plan_frame(frame(80, 11), 6, &app).is_some());
}

fn four_rows() -> Vec<Area> {
    vec![
        Area { x: 2, y: 0, width: 60, height: 8 },
        Area { x: 2, y: 8, width: 60, height: 11 },
        Area { x: 2, y: 19, width: 60, height: 4 },
        Area { x: 2, y: 23, width: 60, height: 3 },
    ]
}

#[test]
fn the_banner_goes_into_the_second_area() {
    let heights = RowHeights { top: 7, text: 11, bottom: 7, input: 0 };
    let plan = frame_plan(heights, &four_rows(), &TimerState::new());
    assert_eq!(
        plan,
        Some(FramePlan {
            heights,
            banner: Area { x: 2, y: 8, width: 60, height: 11 },
            input_box: None,
            cursor: None,
        })
    );
}

#[test]
fn the_input_box_goes_into_the_fourth_area() {
    let heights = RowHeights { top: 7, text: 11, bottom: 4, input: 3 };
    let mut app = editing("01:3");
    app.move_cursor_left();
    let plan = frame_plan(heights, &four_rows(), &app);
    assert_eq!(
        plan,
        Some(FramePlan {
            heights,
            banner: Area { x: 2, y: 8, width: 60, height: 11 },
            input_box: Some(Area { x: 2, y: 23, width: 60, height: 3 }),
            cursor: Some((6, 24)),
        })
    );
}

#[test]
fn an_input_box_at_the_edge_has_no_cursor_cell() {
    let heights = RowHeights { top: 0, text: 11, bottom: 0, input: 3 };
    let mut rows = four_rows();
    rows[3] = Area { x: u16::MAX - 2, y: 23, width: 2, height: 3 };
    let plan = frame_plan(heights, &rows, &editing("12")).unwrap();
    assert_eq!(plan.input_box, Some(rows[3]));
    assert_eq!(plan.cursor, None);
    let plan = frame_plan(heights, &rows, &editing("1")).unwrap();
    assert_eq!(plan.cursor, Some((u16::MAX, 24)));
}

#[test]
fn a_split_of_fewer_than_four_areas_makes_no_plan() {
    let heights = RowHeights { top: 7, text: 11, bottom: 7, input: 0 };
    let mut rows = four_rows();
    rows.pop();
    assert_eq!(frame_plan(heights, &rows, &TimerState::new()), None);
    assert_eq!(frame_plan(heights, &rows, &editing("1")), None);
    assert_eq!(frame_plan(heights, &Vec::new(), &TimerState::new()), None);
}

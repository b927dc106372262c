//! The layout of a frame: the heights of its rows, the areas they are split
//! into, and the cell of the cursor in the input box.

use crate::state::{Mode, TimerState};
use ratatui::layout::{Constraint, Direction, Layout, Rect};
use vstd::prelude::*;

verus! {

/// The lines that the banner's row has beyond the banner itself.
pub const MARGIN_LINES: usize = 2;

/// The height of the input box, its border included.
pub const INPUT_HEIGHT: usize = 3;

/// A rectangle of cells on the screen.
#[derive(Clone, Copy, Debug, PartialEq, Eq, Structural)]
pub struct Area {
    pub x: u16,
    pub y: u16,
    pub width: u16,
    pub height: u16,
}

/// The heights asked for the four rows of a frame, top to bottom: the top
/// margin, the banner's row, the bottom margin and the input box.
#[derive(Clone, Copy, Debug, PartialEq, Eq, Structural)]
pub struct RowHeights {
    pub top: u16,
    pub text: u16,
    pub bottom: u16,
    pub input: u16,
}

/// What to draw where: the row heights that were asked for, the area of the
/// banner and, while editing, the area of the input box and the cell of the
/// cursor in it.
#[derive(Clone, Copy, Debug, PartialEq, Eq)]
pub struct FramePlan {
    pub heights: RowHeights,
    pub banner: Area,
    pub input_box: Option<Area>,
    pub cursor: Option<(u16, u16)>,
}

/// The height of the banner's row for a banner of `content_lines` lines.
pub open spec fn text_height(content_lines: nat) -> nat {
    content_lines + MARGIN_LINES as nat + INPUT_HEIGHT as nat
}

/// The row heights for a frame `frame_height` lines high. There are none if
/// the banner's row is higher than the frame. Else the lines that the row
/// leaves are halved between the two margins, the odd line dropped; while
/// editing, the input box takes its lines from the bottom margin, as far as
/// that has them.
pub open spec fn row_heights_spec(frame_height: u16, content_lines: nat, editing: bool) -> Option<
    RowHeights,
> {
    let text = text_height(content_lines);
    if text > frame_height {
        None
    } else {
        let half = (frame_height - text) / 2;
        if editing {
            Some(
                RowHeights {
                    top: half as u16,
                    text: text as u16,
                    bottom: if half >= INPUT_HEIGHT {
                        (half - INPUT_HEIGHT) as u16
                    } else {
                        0
                    },
                    input: INPUT_HEIGHT as u16,
                },
            )
        } else {
            Some(RowHeights { top: half as u16, text: text as u16, bottom: half as u16, input: 0 })
        }
    }
}

/// Computes the row heights of a frame, or `None` if the banner does not fit
/// and the frame stays blank.
pub fn row_heights(frame_height: u16, content_lines: usize, editing: bool) -> (heights: Option<
    RowHeights,
>)
    ensures
        heights == row_heights_spec(frame_height, content_lines as nat, editing),
{
    if content_lines > frame_height as usize {
        return None;
    }
    let text_height: usize = content_lines + MARGIN_LINES + INPUT_HEIGHT;
    if text_height > frame_height as usize {
        return None;
    }
    let text: u16 = text_height as u16;
    let blank_height: u16 = frame_height - text;
    let top_height: u16 = blank_height / 2;
    let mut bot_height: u16 = blank_height / 2;
    let mut input_height: u16 = 0;
    if editing {
        bot_height = bot_height.saturating_sub(INPUT_HEIGHT as u16);
        input_height = INPUT_HEIGHT as u16;
    }
    Some(RowHeights { top: top_height, text, bottom: bot_height, input: input_height })
}

/// Splits `size` from top to bottom into four areas, one for each of the
/// heights given.
///
/// Trusted: the body calls `Layout::split` of ratatui, with the direction
/// vertical, no margin, and the constraints `Length(top_h)`,
/// `Length(text_h)`, `Length(bot_h)` and `Max(input_h)`. The split is the work
/// of a constraint solver, and nothing is claimed of where it puts the rows or
/// how high it makes them. Claimed is only what the last step of the split
/// shows: there is one area for each constraint, and each has the column and
/// the width of `size`.
#[verifier::external_body]
fn create_chunks(size: Area, top_h: u16, text_h: u16, bot_h: u16, input_h: u16) -> (chunks: Vec<
    Area,
>)
    ensures
        chunks@.len() == 4,
        forall|i: int| 0 <= i < 4 ==> (#[trigger] chunks@[i]).x == size.x && chunks@[i].width == size.width,
{
    let area = Rect { x: size.x, y: size.y, width: size.width, height: size.height };
    let constraints = [
        Constraint::Length(top_h),
        Constraint::Length(text_h),
        Constraint::Length(bot_h),
        Constraint::Max(input_h),
    ];
    let chunks = Layout::default().direction(Direction::Vertical).constraints(
        constraints.as_ref(),
    ).split(area);
    chunks.iter().map(|r| Area { x: r.x, y: r.y, width: r.width, height: r.height }).collect()
}

/// The cell of the cursor in an input box: past the box's left border and the
/// characters before the cursor, on the line below its top border. There is
/// none where that cell's column or line is beyond what a `u16` holds.
pub open spec fn cursor_cell_spec(input_box: Area, cursor: nat) -> Option<(u16, u16)> {
    if input_box.x + cursor + 1 <= u16::MAX && input_box.y + 1 <= u16::MAX {
        Some(((input_box.x + cursor + 1) as u16, (input_box.y + 1) as u16))
    } else {
        None
    }
}

/// Computes the cell of the cursor in the input box.
pub fn cursor_cell(input_box: Area, cursor_position: usize) -> (cell: Option<(u16, u16)>)
    ensures
        cell == cursor_cell_spec(input_box, cursor_position as nat),
{
    if cursor_position >= u16::MAX as usize || input_box.y == u16::MAX {
        return None;
    }
    let column: u16 = cursor_position as u16 + 1;
    if column > u16::MAX - input_box.x {
        return None;
    }
    Some((input_box.x + column, input_box.y + 1))
}

/// The plan that the split `chunks` makes for the heights asked for: the
/// banner goes into the second area and, while editing, the input box into
/// the fourth, with the cursor in it. A split of fewer than four areas makes
/// no plan.
pub open spec fn frame_plan_spec(
    heights: RowHeights,
    chunks: Seq<Area>,
    editing: bool,
    cursor: nat,
) -> Option<FramePlan> {
    if chunks.len() < 4 {
        None
    } else if editing {
        Some(
            FramePlan {
                heights,
                banner: chunks[1],
                input_box: Some(chunks[3]),
                cursor: cursor_cell_spec(chunks[3], cursor),
            },
        )
    } else {
        Some(FramePlan { heights, banner: chunks[1], input_box: None, cursor: None })
    }
}

/// Makes the plan of a frame from the areas that it was split into.
pub fn frame_plan(heights: RowHeights, chunks: &Vec<Area>, app: &TimerState) -> (plan: Option<
    FramePlan,
>)
    ensures
        plan == frame_plan_spec(heights, chunks@, app@.mode == Mode::Editing, app@.cursor),
{
    if chunks.len() < 4 {
        return None;
    }
    let banner = chunks[1];
    match app.mode() {
        Mode::Editing => {
            let input_box = chunks[3];
            let cursor = cursor_cell(input_box, app.cursor_position());
            Some(FramePlan { heights, banner, input_box: Some(input_box), cursor })
        },
        Mode::Normal => Some(FramePlan { heights, banner, input_box: None, cursor: None }),
    }
}

/// Plans a frame of the given size for a banner of `content_lines` lines:
/// computes the row heights, has the frame split by them, and makes the plan
/// from the split.
///
/// The result is `None` exactly if the banner does not fit, and the frame
/// then stays blank. Else the plan holds the row heights that were handed to
/// the split, and the areas that the split gave for the banner and, exactly
/// while editing, for the input box, with the cursor's cell in it. Both areas
/// have the column and the width of the frame. Where the split puts the rows,
/// and how high it makes them, is not known here.
pub fn plan_frame(size: Area, content_lines: usize, app: &TimerState) -> (plan: Option<FramePlan>)
    ensures
        plan is None <==> row_heights_spec(
            size.height,
            content_lines as nat,
            app@.mode == Mode::Editing,
        ) is None,
        plan matches Some(p) ==> {
            &&& Some(p.heights) == row_heights_spec(
                size.height,
                content_lines as nat,
                app@.mode == Mode::Editing,
            )
            &&& p.banner.x == size.x
            &&& p.banner.width == size.width
            &&& p.input_box is Some <==> app@.mode == Mode::Editing
            &&& p.input_box matches Some(b) ==> {
                &&& b.x == size.x
                &&& b.width == size.width
                &&& p.cursor == cursor_cell_spec(b, app@.cursor)
            }
            &&& p.input_box is None ==> p.cursor is None
        },
{
    let editing = match app.mode() {
        Mode::Editing => true,
        Mode::Normal => false,
    };
    match row_heights(size.height, content_lines, editing) {
        None => None,
        Some(heights) => {
            let chunks = create_chunks(
                size,
                heights.top,
                heights.text,
                heights.bottom,
                heights.input,
            );
            frame_plan(heights, &chunks, app)
        },
    }
}

} // verus!

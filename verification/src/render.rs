//! The frame that the renderer draws: one banner row and, beneath it, a
//! window on the newest lines of the log.
//!
//! With a viewport of height `H` the window holds at most `H - 1` lines. When
//! the log is longer, the oldest lines are left out and the rest keep their
//! order.

use crate::app::App;
use vstd::prelude::*;
use vstd::string::StringExecFns;

verus! {

/// A rectangle of terminal cells: its top left corner and its size.
#[derive(Debug, Clone, Copy, PartialEq, Eq, Structural)]
pub struct Area {
    pub x: u16,
    pub y: u16,
    pub width: u16,
    pub height: u16,
}

/// One line of the log with the place where it is drawn.
#[derive(Debug)]
pub struct Row {
    pub area: Area,
    pub text: String,
}

/// All that is drawn: the banner over the whole viewport, and the rows.
#[derive(Debug)]
pub struct Frame {
    pub banner: String,
    pub banner_area: Area,
    pub rows: Vec<Row>,
}

/// A row, mathematically.
pub struct RowView {
    pub area: Area,
    pub text: Seq<char>,
}

/// A frame, mathematically.
#[verifier::ext_equal]
pub struct FrameView {
    pub banner: Seq<char>,
    pub banner_area: Area,
    pub rows: Seq<RowView>,
}

impl View for Row {
    type V = RowView;

    open spec fn view(&self) -> RowView {
        RowView { area: self.area, text: self.text@ }
    }
}

impl View for Frame {
    type V = FrameView;

    open spec fn view(&self) -> FrameView {
        FrameView {
            banner: self.banner@,
            banner_area: self.banner_area,
            rows: self.rows@.map_values(|row: Row| row@),
        }
    }
}

/// The rectangle with the given corner whose width and height are cut down
/// so that neither its right nor its bottom edge lies beyond `u16::MAX`.
pub open spec fn clamped(x: u16, y: u16, width: u16, height: u16) -> Area {
    Area {
        x,
        y,
        width: if width > u16::MAX - x {
            (u16::MAX - x) as u16
        } else {
            width
        },
        height: if height > u16::MAX - y {
            (u16::MAX - y) as u16
        } else {
            height
        },
    }
}

/// Calls ratatui's `Rect::new` and hands its four fields back. The contract
/// says what that function documents and does: the corner is kept, and the
/// width and the height are clamped to `u16::MAX - x` and `u16::MAX - y`.
#[verifier::external_body]
fn rect_new(x: u16, y: u16, width: u16, height: u16) -> (area: Area)
    ensures
        area == clamped(x, y, width, height),
{
    let rect = ratatui::layout::Rect::new(x, y, width, height);
    Area { x: rect.x, y: rect.y, width: rect.width, height: rect.height }
}

/// The name under which the assistant greets.
pub open spec fn app_name() -> Seq<char> {
    "panotti"@
}

/// The banner: the name and the hint on how to quit.
pub open spec fn banner_text() -> Seq<char> {
    app_name() + " (press 'q' to quit)"@
}

/// The number of log lines that a viewport of the given height shows of a
/// log of the given length: all of them, but no more than the height less
/// the banner row.
pub open spec fn window_len(len: nat, height: nat) -> nat {
    if height == 0 {
        0
    } else if len > height - 1 {
        (height - 1) as nat
    } else {
        len
    }
}

/// The lines that are shown: the newest `window_len` of them, oldest first.
pub open spec fn window(messages: Seq<Seq<char>>, height: nat) -> Seq<Seq<char>> {
    messages.skip(messages.len() - window_len(messages.len(), height))
}

/// Where the line at the given place in the window is drawn: in the row
/// beneath the banner and the lines before it, from the left edge, as wide as
/// the viewport and one cell high.
pub open spec fn row_area(index: nat, width: u16) -> Area {
    Area { x: 0, y: (1 + index) as u16, width, height: 1 }
}

/// The frame for a state in a viewport of the given area: the banner over the
/// whole area, and one row for each line of the window, in order.
pub open spec fn frame_of(messages: Seq<Seq<char>>, area: Area) -> FrameView {
    FrameView {
        banner: banner_text(),
        banner_area: area,
        rows: Seq::new(
            window_len(messages.len(), area.height as nat),
            |i: int|
                RowView {
                    area: row_area(i as nat, area.width),
                    text: window(messages, area.height as nat)[i],
                },
        ),
    }
}

/// Builds the banner.
pub fn banner() -> (text: String)
    ensures
        text@ == banner_text(),
{
    String::from_str("panotti").concat(" (press 'q' to quit)")
}

/// Composes the frame for the state in a viewport of the given area.
pub fn view(app: &App, area: Area) -> (frame: Frame)
    ensures
        frame@ == frame_of(app@.messages, area),
{
    let len = app.messages.len();
    let room: usize = if area.height == 0 {
        0
    } else {
        (area.height - 1) as usize
    };
    let shown: usize = if len > room {
        room
    } else {
        len
    };
    let first: usize = len - shown;
    let mut rows: Vec<Row> = Vec::new();
    let mut index: u16 = 0;
    while (index as usize) < shown
        invariant
            len == app.messages@.len(),
            shown == window_len(len as nat, area.height as nat),
            shown <= len,
            shown < u16::MAX,
            first == len - shown,
            index <= shown,
            rows@.len() == index,
            forall|i: int|
                0 <= i < index ==> (#[trigger] rows@[i]).text@ == app.messages@[first + i]@,
            forall|i: int|
                0 <= i < index ==> (#[trigger] rows@[i]).area == row_area(i as nat, area.width),
        decreases shown - index,
    {
        let text = app.messages[first + index as usize].clone();
        rows.push(Row { area: rect_new(0, 1 + index, area.width, 1), text });
        index = index + 1;
    }
    let frame = Frame { banner: banner(), banner_area: area, rows };
    assert(frame@.rows =~= frame_of(app@.messages, area).rows);
    frame
}

/// While everything fits, the window is the whole log.
pub proof fn lemma_window_of_short_log(messages: Seq<Seq<char>>, height: nat)
    requires
        messages.len() + 1 <= height,
    ensures
        window(messages, height) == messages,
{
    assert(window(messages, height) =~= messages);
}

/// Once the log is longer than the room beneath the banner, the window is
/// exactly the last `height - 1` lines in their order.
pub proof fn lemma_window_of_long_log(messages: Seq<Seq<char>>, height: nat)
    requires
        height >= 1,
        messages.len() > height - 1,
    ensures
        window(messages, height).len() == height - 1,
        forall|i: int|
            0 <= i < height - 1 ==> window(messages, height)[i] == messages[messages.len() - (
            height - 1) + i],
{
}

/// The window slides: when a line is added to a log that already fills the
/// window, the oldest line shown leaves, the others move up and the new line
/// comes last.
pub proof fn lemma_window_slides(messages: Seq<Seq<char>>, line: Seq<char>, height: nat)
    requires
        height >= 2,
        messages.len() >= height - 1,
    ensures
        window(messages.push(line), height) == window(messages, height).drop_first().push(line),
{
    assert(window(messages.push(line), height) =~= window(messages, height).drop_first().push(
        line,
    ));
}

} // verus!

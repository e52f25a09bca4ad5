//! What the status display shows: the network address and the recent
//! requests, as a list of drawing commands.
//!
//! The renderer computes a frame; the caller owns the display and carries the
//! commands out in order.  A frame is computed from one snapshot of the log,
//! so a redraw never shows entries observed halfway through an append.

use vstd::prelude::*;
use vstd::string::*;
use crate::entry::{entry_models, EntryModel, LogEntry};
use crate::ring::LOG_CAPACITY;
use crate::text::{entry_line, line_of};

verus! {

/// Left edge of every line of text.
pub const TEXT_X: i32 = 0;

/// Baseline of the address line.
pub const ADDRESS_Y: i32 = 10;

/// Baseline of the first log line.
pub const LOG_TOP_Y: i32 = 30;

/// Distance between the baselines of two log lines.
pub const LINE_PITCH: i32 = 12;

/// One step of a redraw.
#[derive(Debug)]
pub enum DrawCommand {
    /// Blank the whole surface.
    Clear,
    /// Draw `text` with its baseline starting at (`x`, `y`).
    Text { x: i32, y: i32, text: String },
}

/// Mathematical value of a [`DrawCommand`].
pub enum DrawModel {
    Clear,
    Text { x: int, y: int, text: Seq<char> },
}

impl View for DrawCommand {
    type V = DrawModel;

    open spec fn view(&self) -> DrawModel {
        match self {
            DrawCommand::Clear => DrawModel::Clear,
            DrawCommand::Text { x, y, text } => DrawModel::Text {
                x: *x as int,
                y: *y as int,
                text: text@,
            },
        }
    }
}

/// One redraw of the display: the commands to carry out, in order.
#[derive(Debug)]
pub struct RenderFrame {
    pub commands: Vec<DrawCommand>,
}

impl View for RenderFrame {
    type V = Seq<DrawModel>;

    open spec fn view(&self) -> Seq<DrawModel> {
        self.commands@.map_values(|command: DrawCommand| command@)
    }
}

/// The text of the address line.
pub open spec fn address_line(address: Seq<char>) -> Seq<char> {
    seq!['I', 'P', ':', ' '] + address
}

/// The command that draws the log entry at place `index`, counted from the
/// oldest.
pub open spec fn log_line(index: int, entry: EntryModel) -> DrawModel {
    DrawModel::Text { x: TEXT_X as int, y: LOG_TOP_Y + LINE_PITCH * index, text: entry_line(entry) }
}

/// The frame for an address and a snapshot: clear, then the address line,
/// then one line per entry, oldest first and top to bottom.
pub open spec fn frame_of(address: Seq<char>, entries: Seq<EntryModel>) -> Seq<DrawModel> {
    seq![
        DrawModel::Clear,
        DrawModel::Text { x: TEXT_X as int, y: ADDRESS_Y as int, text: address_line(address) },
    ] + Seq::new(entries.len(), |i: int| log_line(i, entries[i]))
}

/// Computes the frame that shows `address` and the entries of one snapshot
/// of the log.
pub fn render(address: &str, entries: &Vec<LogEntry>) -> (frame: RenderFrame)
    requires
        entries@.len() <= LOG_CAPACITY,
    ensures
        frame@ == frame_of(address@, entry_models(entries@)),
        frame@.len() == entries@.len() + 2,
{
    proof {
        reveal_strlit("IP: ");
    }
    let mut heading = String::from_str("IP: ");
    heading.append(address);
    assert(heading@ =~= address_line(address@));
    let mut commands: Vec<DrawCommand> = Vec::new();
    commands.push(DrawCommand::Clear);
    commands.push(DrawCommand::Text { x: TEXT_X, y: ADDRESS_Y, text: heading });
    let ghost wanted = frame_of(address@, entry_models(entries@));
    let mut y: i32 = LOG_TOP_Y;
    let mut index: usize = 0;
    while index < entries.len()
        invariant
            index <= entries@.len() <= LOG_CAPACITY,
            y == LOG_TOP_Y + LINE_PITCH * index,
            wanted == frame_of(address@, entry_models(entries@)),
            commands@.len() == index + 2,
            forall|i: int| 0 <= i < commands@.len() ==> (#[trigger] commands@[i])@ == wanted[i],
        decreases entries@.len() - index,
    {
        let text = line_of(&entries[index]);
        commands.push(DrawCommand::Text { x: TEXT_X, y, text });
        y = y + LINE_PITCH;
        index = index + 1;
    }
    let frame = RenderFrame { commands };
    assert(frame@ =~= wanted);
    frame
}

/// A frame clears the surface first, then draws the address line, then one
/// line for each entry and no more: the entry at place `i`, counted from the
/// oldest, stands `i` line pitches below the first log line.
pub proof fn lemma_frame_has_one_line_per_entry(address: Seq<char>, entries: Seq<EntryModel>)
    ensures
        frame_of(address, entries).len() == entries.len() + 2,
        frame_of(address, entries)[0] == DrawModel::Clear,
        frame_of(address, entries)[1] == (DrawModel::Text {
            x: TEXT_X as int,
            y: ADDRESS_Y as int,
            text: address_line(address),
        }),
        forall|i: int|
            0 <= i < entries.len() ==> #[trigger] frame_of(address, entries)[i + 2]
                == (DrawModel::Text {
                x: TEXT_X as int,
                y: LOG_TOP_Y + LINE_PITCH * i,
                text: entry_line(entries[i]),
            }),
{
}

} // verus!

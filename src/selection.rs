//! Editor selection state and the events that carry it from the editor
//! front-end to the tool front-end.
use vstd::prelude::*;

verus! {

/// A line and column pair, columns counted in UTF-16 code units.
#[derive(Clone, Copy, Debug, PartialEq, Eq, Structural, Default)]
pub struct SelectionPosition {
    pub line: u32,
    pub character: u32,
}

/// A selected range.
#[derive(Clone, Copy, Debug, PartialEq, Eq, Structural, Default)]
pub struct SelectionRange {
    pub start: SelectionPosition,
    pub end: SelectionPosition,
    pub is_empty: bool,
}

/// The range part of a selection event.
#[derive(Clone, Copy, Debug, PartialEq, Eq, Structural)]
pub struct SelectionInfo {
    pub start: SelectionPosition,
    pub end: SelectionPosition,
    pub is_empty: bool,
}

/// The latest selection a connection knows of.
#[derive(Clone, Debug)]
pub struct SelectionState {
    pub text: String,
    pub file_path: String,
    pub file_url: String,
    pub selection: SelectionRange,
}

/// Published when the user's selection changes in the editor.
#[derive(Clone, Debug)]
pub struct SelectionChangedNotification {
    pub text: String,
    pub file_path: String,
    pub file_url: String,
    pub selection: SelectionInfo,
}

/// Published when the user mentions a file or a range of its lines.
#[derive(Clone, Debug)]
pub struct AtMentionedNotification {
    pub file_path: String,
    pub line_start: u32,
    pub line_end: u32,
}

/// An event on the bus.
#[derive(Clone, Debug)]
pub enum Event {
    SelectionChanged(SelectionChangedNotification),
    AtMentioned(AtMentionedNotification),
}

/// The method name an event is sent under.
pub open spec fn event_method(e: Event) -> Seq<char> {
    match e {
        Event::SelectionChanged(_) => "selection_changed"@,
        Event::AtMentioned(_) => "at_mentioned"@,
    }
}

/// The selection state a selection event describes.
pub open spec fn state_of(n: SelectionChangedNotification) -> SelectionState {
    SelectionState {
        text: n.text,
        file_path: n.file_path,
        file_url: n.file_url,
        selection: SelectionRange {
            start: n.selection.start,
            end: n.selection.end,
            is_empty: n.selection.is_empty,
        },
    }
}

/// The replica after `e`: a selection event replaces it, others leave it.
pub open spec fn replica_after(replica: Option<SelectionState>, e: Event) -> Option<SelectionState> {
    match e {
        Event::SelectionChanged(n) => Some(state_of(n)),
        Event::AtMentioned(_) => replica,
    }
}

impl Event {
    /// The method name this event is sent under.
    pub fn method(&self) -> (r: &'static str)
        ensures
            r@ == event_method(*self),
    {
        match self {
            Event::SelectionChanged(_) => "selection_changed",
            Event::AtMentioned(_) => "at_mentioned",
        }
    }
}

/// Bring a connection's selection replica up to date with `e`: the latest
/// selection wins.
pub fn apply_event(replica: &mut Option<SelectionState>, e: &Event)
    ensures
        *final(replica) == replica_after(*old(replica), *e),
{
    match e {
        Event::SelectionChanged(n) => {
            *replica = Some(
                SelectionState {
                    text: n.text.clone(),
                    file_path: n.file_path.clone(),
                    file_url: n.file_url.clone(),
                    selection: SelectionRange {
                        start: n.selection.start,
                        end: n.selection.end,
                        is_empty: n.selection.is_empty,
                    },
                },
            );
        },
        Event::AtMentioned(_) => {},
    }
}

} // verus!

//! Decisions of the editor-protocol front-end: which command a request names,
//! and the events that selections and mentions publish.
use vstd::prelude::*;

use crate::json::{get_text_member, get_u64_member, text_member, u64_member};
use crate::selection::{
    AtMentionedNotification, Event, SelectionChangedNotification, SelectionInfo, SelectionPosition,
};
use crate::text::text_eq;

verus! {

/// The commands the front-end offers.
#[derive(Clone, Copy, Debug, PartialEq, Eq, Structural)]
pub enum EditorCommand {
    Explain,
    Improve,
    Fix,
    AtMention,
    Unknown,
}

/// The identifier of a command: the editor extension's namespace, then the
/// command's suffix.
pub open spec fn command_id(namespace: Seq<char>, suffix: Seq<char>) -> Seq<char> {
    namespace + suffix
}

/// The command that the identifier `id` names within `namespace`.
pub open spec fn command_of(namespace: Seq<char>, id: Seq<char>) -> EditorCommand {
    if id == command_id(namespace, ".explain"@) {
        EditorCommand::Explain
    } else if id == command_id(namespace, ".improve"@) {
        EditorCommand::Improve
    } else if id == command_id(namespace, ".fix"@) {
        EditorCommand::Fix
    } else if id == command_id(namespace, ".at-mention"@) {
        EditorCommand::AtMention
    } else {
        EditorCommand::Unknown
    }
}

fn joined(namespace: &str, suffix: &str) -> (r: String)
    ensures
        r@ == command_id(namespace@, suffix@),
{
    let mut s = String::from_str(namespace);
    s.append(suffix);
    s
}

/// The command that the identifier `id` names within `namespace`.
pub fn editor_command(namespace: &str, id: &str) -> (r: EditorCommand)
    ensures
        r == command_of(namespace@, id@),
{
    let explain = joined(namespace, ".explain");
    let improve = joined(namespace, ".improve");
    let fix = joined(namespace, ".fix");
    let mention = joined(namespace, ".at-mention");
    if text_eq(id, explain.as_str()) {
        EditorCommand::Explain
    } else if text_eq(id, improve.as_str()) {
        EditorCommand::Improve
    } else if text_eq(id, fix.as_str()) {
        EditorCommand::Fix
    } else if text_eq(id, mention.as_str()) {
        EditorCommand::AtMention
    } else {
        EditorCommand::Unknown
    }
}

/// The identifiers of the offered commands within `namespace`, in the order
/// they are declared.
pub fn command_ids(namespace: &str) -> (r: Vec<String>)
    ensures
        r@.len() == 4,
        r@[0]@ == command_id(namespace@, ".explain"@),
        r@[1]@ == command_id(namespace@, ".improve"@),
        r@[2]@ == command_id(namespace@, ".fix"@),
        r@[3]@ == command_id(namespace@, ".at-mention"@),
{
    let mut ids: Vec<String> = Vec::new();
    ids.push(joined(namespace, ".explain"));
    ids.push(joined(namespace, ".improve"));
    ids.push(joined(namespace, ".fix"));
    ids.push(joined(namespace, ".at-mention"));
    ids
}

/// The selection event for a code-action request over `start ..= end` in
/// the document `file_path` (`file_url`), whose text is `text`.
pub fn code_action_event(
    file_path: String,
    file_url: String,
    start: SelectionPosition,
    end: SelectionPosition,
    text: String,
) -> (r: Event)
    ensures
        r == Event::SelectionChanged(
            SelectionChangedNotification {
                text,
                file_path,
                file_url,
                selection: SelectionInfo { start, end, is_empty: start == end },
            },
        ),
{
    Event::SelectionChanged(
        SelectionChangedNotification {
            text,
            file_path,
            file_url,
            selection: SelectionInfo { start, end, is_empty: start == end },
        },
    )
}

/// The one-character range a selection-range request at `p` answers with.
pub open spec fn one_char_end(p: SelectionPosition) -> SelectionPosition {
    SelectionPosition { line: p.line, character: (p.character + 1) as u32 }
}

/// The end of the one-character range starting at `p`.
pub fn selection_range_end(p: SelectionPosition) -> (r: SelectionPosition)
    requires
        p.character < u32::MAX,
    ensures
        r == one_char_end(p),
{
    SelectionPosition { line: p.line, character: p.character + 1 }
}

/// The selection event for a selection-range request at `p` in the document
/// `file_path` (`file_url`), whose one-character range holds `text`. Such an
/// event is always flagged empty.
pub fn selection_range_event(file_path: String, file_url: String, p: SelectionPosition, text: String) -> (r: Event)
    requires
        p.character < u32::MAX,
    ensures
        r == Event::SelectionChanged(
            SelectionChangedNotification {
                text,
                file_path,
                file_url,
                selection: SelectionInfo { start: p, end: one_char_end(p), is_empty: true },
            },
        ),
{
    let end = selection_range_end(p);
    Event::SelectionChanged(
        SelectionChangedNotification {
            text,
            file_path,
            file_url,
            selection: SelectionInfo { start: p, end, is_empty: true },
        },
    )
}

/// A line number given as an integer member, cut to 32 bits; 0 when absent.
pub open spec fn line_member(v: serde_json::Value, key: Seq<char>) -> u32 {
    match u64_member(v, key) {
        Some(n) => n as u32,
        None => 0,
    }
}

/// The mentioned file path: the `filePath` member, empty when absent.
pub open spec fn mention_path(v: serde_json::Value) -> Seq<char> {
    match text_member(v, "filePath"@) {
        Some(p) => p,
        None => Seq::empty(),
    }
}

/// The mention event for an at-mention command with `arguments`: none without
/// arguments; else the first argument's `filePath` (empty when absent),
/// `lineStart` and `lineEnd` (0 when absent).
pub fn at_mention_event(arguments: &Vec<serde_json::Value>) -> (r: Option<Event>)
    ensures
        arguments@.len() == 0 ==> r is None,
        arguments@.len() > 0 ==> (r matches Some(Event::AtMentioned(n)) && n.file_path@ == mention_path(
            arguments@[0],
        ) && n.line_start == line_member(arguments@[0], "lineStart"@) && n.line_end == line_member(
            arguments@[0],
            "lineEnd"@,
        )),
{
    if arguments.len() == 0 {
        return None;
    }
    let first = &arguments[0];
    let file_path = match get_text_member(first, "filePath") {
        Some(p) => p,
        None => String::new(),
    };
    let line_start = match get_u64_member(first, "lineStart") {
        Some(n) => n as u32,
        None => 0,
    };
    let line_end = match get_u64_member(first, "lineEnd") {
        Some(n) => n as u32,
        None => 0,
    };
    Some(Event::AtMentioned(AtMentionedNotification { file_path, line_start, line_end }))
}

} // verus!

//! The tool dispatcher: a registry from tool names to the content blocks they
//! answer with, falling back to a "not supported" answer.
use vstd::prelude::*;

use crate::selection::{SelectionPosition, SelectionRange, SelectionState};
use crate::json::{get_text_member, text_member};
use crate::text::{decimal, decimal_string, text_eq};

verus! {

/// A block of text content in a tool answer.
#[derive(Clone, Debug)]
pub struct TextContent {
    pub type_: String,
    pub text: String,
}

/// The texts of `blocks`.
pub open spec fn texts(blocks: Seq<TextContent>) -> Seq<Seq<char>> {
    blocks.map_values(|b: TextContent| b.text@)
}

/// Every block is of type `text`.
pub open spec fn all_text_blocks(blocks: Seq<TextContent>) -> bool {
    forall|i: int| 0 <= i < blocks.len() ==> (#[trigger] blocks[i]).type_@ == "text"@
}

/// The JSON string literal that `serde_json` writes for `s`.
pub uninterp spec fn json_string(s: Seq<char>) -> Seq<char>;

/// The basename `std::path::Path::file_name` gives for the path `s`.
pub uninterp spec fn path_file_name(s: Seq<char>) -> Option<Seq<char>>;

/// Relies on `serde_json`'s `Display` for a `Value::String`: the quoted,
/// escaped JSON literal of `s`.
#[verifier::external_body]
fn quote(s: &str) -> (r: String)
    ensures
        r@ == json_string(s@),
{
    serde_json::Value::String(s.to_string()).to_string()
}

/// Relies on `std::path::Path::file_name`: the last component of a path,
/// none when the path ends in `..` or is a root or empty.
#[verifier::external_body]
fn file_name(s: &str) -> (r: Option<String>)
    ensures
        r matches Some(n) ==> path_file_name(s@) == Some(n@),
        r is None ==> path_file_name(s@) is None,
{
    std::path::Path::new(s).file_name().map(|n| n.to_string_lossy().to_string())
}

/// One block of type `text` holding `text`.
fn text_block(text: String) -> (r: Vec<TextContent>)
    ensures
        r@.len() == 1,
        r@[0].text == text,
        all_text_blocks(r@),
{
    let mut v: Vec<TextContent> = Vec::new();
    proof {
        reveal_strlit("text");
    }
    v.push(TextContent { type_: String::from_str("text"), text });
    v
}

pub open spec fn bool_json(b: bool) -> Seq<char> {
    if b {
        "true"@
    } else {
        "false"@
    }
}

/// A position as JSON, members in key order.
pub open spec fn position_json(p: SelectionPosition) -> Seq<char> {
    "{\"character\":"@ + decimal(p.character as nat) + ",\"line\":"@ + decimal(p.line as nat) + "}"@
}

/// A range as JSON, members in key order.
pub open spec fn range_json(r: SelectionRange) -> Seq<char> {
    "{\"end\":"@ + position_json(r.end) + ",\"isEmpty\":"@ + bool_json(r.is_empty) + ",\"start\":"@
        + position_json(r.start) + "}"@
}

/// The answer for a known selection.
pub open spec fn selection_json(s: SelectionState) -> Seq<char> {
    "{\"filePath\":"@ + json_string(s.file_path@) + ",\"fileUrl\":"@ + json_string(s.file_url@)
        + ",\"selection\":"@ + range_json(s.selection) + ",\"success\":true,\"text\":"@ + json_string(
        s.text@,
    ) + "}"@
}

/// The answer when no selection is known.
pub open spec fn no_selection_json(message: Seq<char>) -> Seq<char> {
    "{\"message\":"@ + json_string(message) + ",\"success\":false}"@
}

fn push_str(out: &mut String, s: &str)
    ensures
        final(out)@ == old(out)@ + s@,
{
    out.append(s);
}

fn bool_text(b: bool) -> (r: &'static str)
    ensures
        r@ == bool_json(b),
{
    if b {
        "true"
    } else {
        "false"
    }
}

fn position_text(p: SelectionPosition) -> (r: String)
    ensures
        r@ == position_json(p),
{
    let mut out = String::from_str("{\"character\":");
    let c = decimal_string(p.character as u64);
    push_str(&mut out, c.as_str());
    push_str(&mut out, ",\"line\":");
    let l = decimal_string(p.line as u64);
    push_str(&mut out, l.as_str());
    push_str(&mut out, "}");
    out
}

fn range_text(r: SelectionRange) -> (out: String)
    ensures
        out@ == range_json(r),
{
    let mut out = String::from_str("{\"end\":");
    let e = position_text(r.end);
    push_str(&mut out, e.as_str());
    push_str(&mut out, ",\"isEmpty\":");
    push_str(&mut out, bool_text(r.is_empty));
    push_str(&mut out, ",\"start\":");
    let s = position_text(r.start);
    push_str(&mut out, s.as_str());
    push_str(&mut out, "}");
    out
}

fn selection_text(s: &SelectionState) -> (out: String)
    ensures
        out@ == selection_json(*s),
{
    let mut out = String::from_str("{\"filePath\":");
    let p = quote(s.file_path.as_str());
    push_str(&mut out, p.as_str());
    push_str(&mut out, ",\"fileUrl\":");
    let u = quote(s.file_url.as_str());
    push_str(&mut out, u.as_str());
    push_str(&mut out, ",\"selection\":");
    let r = range_text(s.selection);
    push_str(&mut out, r.as_str());
    push_str(&mut out, ",\"success\":true,\"text\":");
    let t = quote(s.text.as_str());
    push_str(&mut out, t.as_str());
    push_str(&mut out, "}");
    out
}

fn no_selection_text(message: &str) -> (out: String)
    ensures
        out@ == no_selection_json(message@),
{
    let mut out = String::from_str("{\"message\":");
    let m = quote(message);
    push_str(&mut out, m.as_str());
    push_str(&mut out, ",\"success\":false}");
    out
}

/// The answer to a selection query: the replica's selection, or the failure
/// `message` when there is none.
pub open spec fn selection_answer(selection: Option<SelectionState>, message: Seq<char>) -> Seq<char> {
    match selection {
        Some(s) => selection_json(s),
        None => no_selection_json(message),
    }
}

/// The workspace name shown when none is known.
pub open spec fn unknown_workspace() -> Seq<char> {
    "Unknown workspace"@
}

/// The workspace root a dispatcher reports.
pub open spec fn workspace_root(worktree: Option<String>) -> Seq<char> {
    match worktree {
        Some(w) => w@,
        None => unknown_workspace(),
    }
}

/// The answer to a workspace-folders query for the root `w`: one folder
/// named after the root's last component (`workspace` when it has none).
pub open spec fn workspace_folders_json(w: Seq<char>) -> Seq<char> {
    let name = match path_file_name(w) {
        Some(n) => n,
        None => "workspace"@,
    };
    "{\"folders\":[{\"name\":"@ + json_string(name) + ",\"path\":"@ + json_string(w) + ",\"uri\":"@
        + json_string("file://"@ + w) + "}],\"rootPath\":"@ + json_string(w) + ",\"success\":true}"@
}

fn workspace_folders_text(w: &str) -> (out: String)
    ensures
        out@ == workspace_folders_json(w@),
{
    let name = match file_name(w) {
        Some(n) => n,
        None => String::from_str("workspace"),
    };
    let mut out = String::from_str("{\"folders\":[{\"name\":");
    let q = quote(name.as_str());
    push_str(&mut out, q.as_str());
    push_str(&mut out, ",\"path\":");
    let p = quote(w);
    push_str(&mut out, p.as_str());
    push_str(&mut out, ",\"uri\":");
    let mut uri = String::from_str("file://");
    push_str(&mut uri, w);
    let u = quote(uri.as_str());
    push_str(&mut out, u.as_str());
    push_str(&mut out, "}],\"rootPath\":");
    push_str(&mut out, p.as_str());
    push_str(&mut out, ",\"success\":true}");
    out
}

/// The answer for tools this integration does not offer.
pub open spec fn not_supported_text(tool_name: Seq<char>) -> Seq<char> {
    "NOT_SUPPORTED: Tool '"@ + tool_name
        + "' is not available in Zed integration. File operations should be performed directly."@
}

/// The answer for a tool this integration does not offer.
pub fn not_supported_response(tool_name: &str) -> (r: Vec<TextContent>)
    ensures
        texts(r@) == seq![not_supported_text(tool_name@)],
        all_text_blocks(r@),
{
    let mut text = String::from_str("NOT_SUPPORTED: Tool '");
    push_str(&mut text, tool_name);
    push_str(
        &mut text,
        "' is not available in Zed integration. File operations should be performed directly.",
    );
    let r = text_block(text);
    assert(texts(r@) =~= seq![not_supported_text(tool_name@)]);
    r
}

/// The answer to closing every diff tab: there never are any.
pub fn close_all_diff_tabs() -> (r: Vec<TextContent>)
    ensures
        texts(r@) == seq!["CLOSED_0_DIFF_TABS"@],
        all_text_blocks(r@),
{
    let r = text_block(String::from_str("CLOSED_0_DIFF_TABS"));
    assert(texts(r@) =~= seq!["CLOSED_0_DIFF_TABS"@]);
    r
}

/// The answer to a current-selection query.
pub fn get_current_selection(selection: &Option<SelectionState>) -> (r: Vec<TextContent>)
    ensures
        texts(r@) == seq![selection_answer(*selection, "No active editor found"@)],
        all_text_blocks(r@),
{
    let text = match selection {
        Some(s) => selection_text(s),
        None => no_selection_text("No active editor found"),
    };
    let r = text_block(text);
    assert(texts(r@) =~= seq![selection_answer(*selection, "No active editor found"@)]);
    r
}

/// The answer to a latest-selection query.
pub fn get_latest_selection(selection: &Option<SelectionState>) -> (r: Vec<TextContent>)
    ensures
        texts(r@) == seq![selection_answer(*selection, "No selection available"@)],
        all_text_blocks(r@),
{
    let text = match selection {
        Some(s) => selection_text(s),
        None => no_selection_text("No selection available"),
    };
    let r = text_block(text);
    assert(texts(r@) =~= seq![selection_answer(*selection, "No selection available"@)]);
    r
}

/// The answer to a diagnostics query: none are collected.
pub fn get_diagnostics() -> (r: Vec<TextContent>)
    ensures
        texts(r@) == seq!["{\"diagnostics\":[]}"@],
        all_text_blocks(r@),
{
    let r = text_block(String::from_str("{\"diagnostics\":[]}"));
    assert(texts(r@) =~= seq!["{\"diagnostics\":[]}"@]);
    r
}

/// The answer to a workspace-folders query.
pub fn get_workspace_folders(worktree: &Option<String>) -> (r: Vec<TextContent>)
    ensures
        texts(r@) == seq![workspace_folders_json(workspace_root(*worktree))],
        all_text_blocks(r@),
{
    let text = match worktree {
        Some(w) => workspace_folders_text(w.as_str()),
        None => workspace_folders_text("Unknown workspace"),
    };
    let r = text_block(text);
    assert(texts(r@) =~= seq![workspace_folders_json(workspace_root(*worktree))]);
    r
}

/// The answer to a workspace-info query: the workspace root in words.
pub fn get_workspace_info(worktree: &Option<String>) -> (r: Vec<TextContent>)
    ensures
        texts(r@) == seq!["Current workspace: "@ + workspace_root(*worktree)],
        all_text_blocks(r@),
{
    let mut text = String::from_str("Current workspace: ");
    match worktree {
        Some(w) => push_str(&mut text, w.as_str()),
        None => push_str(&mut text, "Unknown workspace"),
    }
    let r = text_block(text);
    assert(texts(r@) =~= seq!["Current workspace: "@ + workspace_root(*worktree)]);
    r
}

/// The answer to an open-editors query: no tabs are known.
pub fn get_open_editors() -> (r: Vec<TextContent>)
    ensures
        texts(r@) == seq!["{\"tabs\":[]}"@],
        all_text_blocks(r@),
{
    let r = text_block(String::from_str("{\"tabs\":[]}"));
    assert(texts(r@) =~= seq!["{\"tabs\":[]}"@]);
    r
}

/// The answer to closing a tab.
pub fn close_tab(arguments: &serde_json::Value) -> (r: Vec<TextContent>)
    ensures
        texts(r@) == seq!["TAB_CLOSED"@],
        all_text_blocks(r@),
{
    let r = text_block(String::from_str("TAB_CLOSED"));
    assert(texts(r@) =~= seq!["TAB_CLOSED"@]);
    r
}

/// The string member `key` of `arguments`, or `fallback` when absent.
pub open spec fn text_or(arguments: serde_json::Value, key: Seq<char>, fallback: Seq<char>) -> Seq<char> {
    match text_member(arguments, key) {
        Some(t) => t,
        None => fallback,
    }
}

/// The answer to an echo request: its `text` argument, echoed.
pub fn echo(arguments: &serde_json::Value) -> (r: Vec<TextContent>)
    ensures
        texts(r@) == seq!["Echo: "@ + text_or(*arguments, "text"@, "No text provided"@)],
        all_text_blocks(r@),
{
    let mut text = String::from_str("Echo: ");
    match get_text_member(arguments, "text") {
        Some(t) => push_str(&mut text, t.as_str()),
        None => push_str(&mut text, "No text provided"),
    }
    let r = text_block(text);
    assert(texts(r@) =~= seq!["Echo: "@ + text_or(*arguments, "text"@, "No text provided"@)]);
    r
}

/// The answer to a diff proposal: it is accepted as saved, with the proposed
/// contents.
pub fn open_diff(arguments: &serde_json::Value) -> (r: Vec<TextContent>)
    ensures
        texts(r@) == seq![
            "FILE_SAVED"@,
            text_or(*arguments, "new_file_contents"@, "No new file contents provided"@),
        ],
        all_text_blocks(r@),
{
    let contents = match get_text_member(arguments, "new_file_contents") {
        Some(t) => t,
        None => String::from_str("No new file contents provided"),
    };
    let mut r = text_block(String::from_str("FILE_SAVED"));
    let mut second = text_block(contents);
    r.append(&mut second);
    assert(texts(r@) =~= seq![
        "FILE_SAVED"@,
        text_or(*arguments, "new_file_contents"@, "No new file contents provided"@),
    ]);
    r
}

/// The length in bytes that `str::len` reports for the text `s`.
pub open spec fn byte_length(s: Seq<char>) -> nat {
    (vstd::utf8::encode_utf8(s).len() as usize) as nat
}

/// The answer to a code-execution request: nothing is run; the answer says
/// how long the code was, in bytes.
pub fn execute_code(arguments: &serde_json::Value) -> (r: Vec<TextContent>)
    ensures
        texts(r@) == seq![
            "Code executed successfully. Output: (simulated execution of "@ + decimal(
                byte_length(text_or(*arguments, "code"@, "No code provided"@)),
            ) + " characters)"@,
        ],
        all_text_blocks(r@),
{
    let code = match get_text_member(arguments, "code") {
        Some(t) => t,
        None => String::from_str("No code provided"),
    };
    let n = code.as_str().len();
    let mut text = String::from_str("Code executed successfully. Output: (simulated execution of ");
    let digits = decimal_string(n as u64);
    push_str(&mut text, digits.as_str());
    push_str(&mut text, " characters)");
    let r = text_block(text);
    assert(texts(r@) =~= seq![
        "Code executed successfully. Output: (simulated execution of "@ + decimal(
            byte_length(text_or(*arguments, "code"@, "No code provided"@)),
        ) + " characters)"@,
    ]);
    r
}

/// The tools the registry answers itself.
#[derive(Clone, Copy, Debug, PartialEq, Eq, Structural)]
pub enum ToolRoute {
    WorkspaceFolders,
    CurrentSelection,
    LatestSelection,
    Diagnostics,
    NotSupported,
}

/// The route registered for `name`; every other name is not supported.
pub open spec fn route_of(name: Seq<char>) -> ToolRoute {
    if name == "getWorkspaceFolders"@ {
        ToolRoute::WorkspaceFolders
    } else if name == "getCurrentSelection"@ {
        ToolRoute::CurrentSelection
    } else if name == "getLatestSelection"@ {
        ToolRoute::LatestSelection
    } else if name == "getDiagnostics"@ {
        ToolRoute::Diagnostics
    } else {
        ToolRoute::NotSupported
    }
}

/// The route registered for `name`.
pub fn tool_route(name: &str) -> (r: ToolRoute)
    ensures
        r == route_of(name@),
{
    if text_eq(name, "getWorkspaceFolders") {
        ToolRoute::WorkspaceFolders
    } else if text_eq(name, "getCurrentSelection") {
        ToolRoute::CurrentSelection
    } else if text_eq(name, "getLatestSelection") {
        ToolRoute::LatestSelection
    } else if text_eq(name, "getDiagnostics") {
        ToolRoute::Diagnostics
    } else {
        ToolRoute::NotSupported
    }
}

/// The single text block a call of tool `name` answers with, given the
/// connection's selection replica and workspace root.
pub open spec fn tool_answer(name: Seq<char>, selection: Option<SelectionState>, worktree: Option<String>) -> Seq<char> {
    match route_of(name) {
        ToolRoute::WorkspaceFolders => workspace_folders_json(workspace_root(worktree)),
        ToolRoute::CurrentSelection => selection_answer(selection, "No active editor found"@),
        ToolRoute::LatestSelection => selection_answer(selection, "No selection available"@),
        ToolRoute::Diagnostics => "{\"diagnostics\":[]}"@,
        ToolRoute::NotSupported => not_supported_text(name),
    }
}

/// Call the tool `name` against a connection's selection replica and
/// workspace root.
pub fn dispatch_tool(name: &str, selection: &Option<SelectionState>, worktree: &Option<String>) -> (r: Vec<
    TextContent,
>)
    ensures
        texts(r@) == seq![tool_answer(name@, *selection, *worktree)],
        all_text_blocks(r@),
{
    match tool_route(name) {
        ToolRoute::WorkspaceFolders => get_workspace_folders(worktree),
        ToolRoute::CurrentSelection => get_current_selection(selection),
        ToolRoute::LatestSelection => get_latest_selection(selection),
        ToolRoute::Diagnostics => get_diagnostics(),
        ToolRoute::NotSupported => not_supported_response(name),
    }
}

} // verus!

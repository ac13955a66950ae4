use claude_code_server::selection::{SelectionPosition, SelectionRange, SelectionState};
use claude_code_server::tools::{
    close_all_diff_tabs, close_tab, dispatch_tool, echo, execute_code, get_current_selection, get_diagnostics,
    get_latest_selection, get_open_editors, get_workspace_folders, get_workspace_info,
    not_supported_response, open_diff, tool_route, TextContent, ToolRoute,
};
use serde_json::Value;

fn only_text(blocks: Vec<TextContent>) -> String {
    assert_eq!(blocks.len(), 1);
    assert_eq!(blocks[0].type_, "text");
    blocks[0].text.clone()
}

fn json(text: &str) -> Value {
    serde_json::from_str(text).unwrap()
}

#[test]
fn unknown_and_unoffered_tools_are_not_supported() {
    let expected = "NOT_SUPPORTED: Tool 'openDiff' is not available in Zed integration. File operations should be performed directly.";
    assert_eq!(only_text(dispatch_tool("openDiff", &None, &None)), expected);
    assert_eq!(only_text(not_supported_response("openDiff")), expected);
    assert_eq!(tool_route("madeUp"), ToolRoute::NotSupported);
    assert_eq!(tool_route("getLatestSelection"), ToolRoute::LatestSelection);
}

#[test]
fn diff_tabs_and_editors() {
    assert_eq!(only_text(close_all_diff_tabs()), "CLOSED_0_DIFF_TABS");
    assert_eq!(only_text(get_open_editors()), "{\"tabs\":[]}");
    assert_eq!(only_text(close_tab(&json("{\"tab_name\":\"x\"}"))), "TAB_CLOSED");
    assert_eq!(only_text(get_diagnostics()), "{\"diagnostics\":[]}");
}

#[test]
fn selection_queries_without_selection() {
    assert_eq!(
        only_text(get_current_selection(&None)),
        "{\"message\":\"No active editor found\",\"success\":false}"
    );
    assert_eq!(
        only_text(get_latest_selection(&None)),
        "{\"message\":\"No selection available\",\"success\":false}"
    );
}

#[test]
fn selection_text_is_escaped() {
    let s = SelectionState {
        text: "say \"hi\"\n".to_string(),
        file_path: "/a".to_string(),
        file_url: "file:///a".to_string(),
        selection: SelectionRange {
            start: SelectionPosition { line: 0, character: 0 },
            end: SelectionPosition { line: 1, character: 0 },
            is_empty: false,
        },
    };
    let text = only_text(get_latest_selection(&Some(s)));
    assert_eq!(
        text,
        "{\"filePath\":\"/a\",\"fileUrl\":\"file:///a\",\"selection\":{\"end\":{\"character\":0,\"line\":1},\"isEmpty\":false,\"start\":{\"character\":0,\"line\":0}},\"success\":true,\"text\":\"say \\\"hi\\\"\\n\"}"
    );
    let parsed: Value = serde_json::from_str(&text).unwrap();
    assert_eq!(parsed.get("text").and_then(|v| v.as_str()), Some("say \"hi\"\n"));
}

#[test]
fn workspace_folders() {
    let w = Some("/home/u/proj".to_string());
    assert_eq!(
        only_text(get_workspace_folders(&w)),
        "{\"folders\":[{\"name\":\"proj\",\"path\":\"/home/u/proj\",\"uri\":\"file:///home/u/proj\"}],\"rootPath\":\"/home/u/proj\",\"success\":true}"
    );
    assert_eq!(
        only_text(dispatch_tool("getWorkspaceFolders", &None, &Some("/".to_string()))),
        "{\"folders\":[{\"name\":\"workspace\",\"path\":\"/\",\"uri\":\"file:///\"}],\"rootPath\":\"/\",\"success\":true}"
    );
    assert_eq!(only_text(get_workspace_info(&w)), "Current workspace: /home/u/proj");
    assert_eq!(only_text(get_workspace_info(&None)), "Current workspace: Unknown workspace");
}

#[test]
fn echo_and_diff() {
    assert_eq!(only_text(echo(&json("{\"text\":\"hey\"}"))), "Echo: hey");
    assert_eq!(only_text(echo(&json("{}"))), "Echo: No text provided");
    let d = open_diff(&json("{\"new_file_contents\":\"fn main() {}\"}"));
    assert_eq!(d.len(), 2);
    assert_eq!(d[0].text, "FILE_SAVED");
    assert_eq!(d[1].text, "fn main() {}");
    let d = open_diff(&json("{}"));
    assert_eq!(d[1].text, "No new file contents provided");
}

#[test]
fn code_execution_reports_byte_length() {
    assert_eq!(
        only_text(execute_code(&json("{\"code\":\"h\u{e9}llo\"}"))),
        "Code executed successfully. Output: (simulated execution of 6 characters)"
    );
    assert_eq!(
        only_text(execute_code(&json("{}"))),
        "Code executed successfully. Output: (simulated execution of 16 characters)"
    );
}

//! The five tools of the agent: a shell, reading and writing a file, a web
//! search and fetching a page.

use crate::html::{strip_html, stripped};
use crate::json::{json_of, member_of, parse, text_or_empty, Json};
use crate::stream::{lossy_text, utf8_lossy};
use crate::text::{
    chars_of, decimal, digits, join_from, join_lines, lines, lines_of, push_decimal, push_digits,
    string_of, trim, trimmed, truncate, truncated,
};
use crate::tool::{
    is_success, status_is_success, RequestModel, ResponseModel, Tool, ToolError, ToolRequest,
    ToolResponse,
};
use vstd::prelude::*;
use vstd::string::StringExecFns;

verus! {

/// `text` with every byte of its UTF-8 form percent-encoded, but for letters,
/// digits and `-`, `_`, `.`, `~`.
pub uninterp spec fn url_encoded(text: Seq<char>) -> Seq<char>;

/// `urlencoding::encode`: the percent-encoded form of `text`. Nothing here
/// is proved; the contract claims only that the encoded text is a function
/// of `text`.
#[verifier::external_body]
pub(crate) fn url_encode(text: &str) -> (r: String)
    ensures
        r@ == url_encoded(text@),
{
    urlencoding::encode(text).into_owned()
}

/// The message of a tool that was handed the outcome of another kind of work
/// than the one it asked for.
pub open spec fn unexpected_response() -> Seq<char> {
    "Unexpected response"@
}

fn failure(message: &str) -> (r: Result<String, ToolError>)
    ensures
        r matches Err(e) && e.message@ == message@,
{
    Err(ToolError { message: message.to_owned() })
}

fn failure_with(prefix: &str, detail: &str) -> (r: Result<String, ToolError>)
    ensures
        r matches Err(e) && e.message@ == prefix@ + detail@,
{
    let mut message = prefix.to_owned();
    message.append(detail);
    Err(ToolError { message })
}

/// Runs a command in a shell.
#[derive(Clone, Copy, Debug)]
pub struct TerminalTool;

impl TerminalTool {
    /// What a command that has run is reported as: its output where it
    /// succeeded; otherwise its exit code, -1 where it has none, and then both
    /// of its outputs.
    pub open spec fn report(
        success: bool,
        code: Option<i32>,
        stdout: Seq<u8>,
        stderr: Seq<u8>,
    ) -> Seq<char> {
        if success {
            utf8_lossy(stdout)
        } else {
            "Error (exit "@ + decimal(
                match code {
                    Some(c) => c as int,
                    None => -1,
                },
            ) + "):\n"@ + utf8_lossy(stdout) + utf8_lossy(stderr)
        }
    }
}

impl Tool for TerminalTool {
    open spec fn name_spec(&self) -> Seq<char> {
        "terminal"@
    }

    open spec fn description_spec(&self) -> Seq<char> {
        "Execute a shell command"@
    }

    open spec fn plan_spec(&self, input: Seq<char>) -> Result<RequestModel, Seq<char>> {
        Ok(RequestModel::Shell { command: input })
    }

    open spec fn finish_spec(&self, input: Seq<char>, response: ResponseModel) -> Result<
        Seq<char>,
        Seq<char>,
    > {
        match response {
            ResponseModel::Process { success, code, stdout, stderr } => Ok(
                TerminalTool::report(success, code, stdout, stderr),
            ),
            ResponseModel::Failed(message) => Err(message),
            _ => Err(unexpected_response()),
        }
    }

    fn name(&self) -> (r: &str) {
        "terminal"
    }

    fn description(&self) -> (r: &str) {
        "Execute a shell command"
    }

    fn plan(&self, input: &str) -> (r: Result<ToolRequest, ToolError>) {
        Ok(ToolRequest::Shell { command: input.to_owned() })
    }

    fn finish(&self, input: &str, response: &ToolResponse) -> (r: Result<String, ToolError>) {
        match response {
            ToolResponse::Process { success, code, stdout, stderr } => {
                let out = lossy_text(stdout);
                if *success {
                    Ok(out)
                } else {
                    let err = lossy_text(stderr);
                    let mut text = "Error (exit ".to_owned();
                    let number: i64 = match code {
                        Some(c) => *c as i64,
                        None => -1,
                    };
                    push_decimal(&mut text, number);
                    text.append("):\n");
                    text.append(out.as_str());
                    text.append(err.as_str());
                    Ok(text)
                }
            },
            ToolResponse::Failed(message) => failure(message.as_str()),
            _ => failure("Unexpected response"),
        }
    }
}

/// Reads a file.
#[derive(Clone, Copy, Debug)]
pub struct ReadFileTool;

impl Tool for ReadFileTool {
    open spec fn name_spec(&self) -> Seq<char> {
        "read_file"@
    }

    open spec fn description_spec(&self) -> Seq<char> {
        "Read a file from disk"@
    }

    open spec fn plan_spec(&self, input: Seq<char>) -> Result<RequestModel, Seq<char>> {
        Ok(RequestModel::ReadFile { path: trimmed(input) })
    }

    open spec fn finish_spec(&self, input: Seq<char>, response: ResponseModel) -> Result<
        Seq<char>,
        Seq<char>,
    > {
        match response {
            ResponseModel::FileText(text) => Ok(text),
            ResponseModel::Failed(message) => Err("Failed to read file: "@ + message),
            _ => Err(unexpected_response()),
        }
    }

    fn name(&self) -> (r: &str) {
        "read_file"
    }

    fn description(&self) -> (r: &str) {
        "Read a file from disk"
    }

    fn plan(&self, input: &str) -> (r: Result<ToolRequest, ToolError>) {
        let path = string_of(&trim(&chars_of(input)));
        Ok(ToolRequest::ReadFile { path })
    }

    fn finish(&self, input: &str, response: &ToolResponse) -> (r: Result<String, ToolError>) {
        match response {
            ToolResponse::FileText(text) => Ok(text.clone()),
            ToolResponse::Failed(message) => failure_with("Failed to read file: ", message.as_str()),
            _ => failure("Unexpected response"),
        }
    }
}

/// Writes a file. The first line of the input is the path, the rest of it is
/// the content.
#[derive(Clone, Copy, Debug)]
pub struct WriteFileTool;

impl WriteFileTool {
    /// The message for an input without a first line.
    pub open spec fn invalid_input() -> Seq<char> {
        "Invalid input for write_file"@
    }

    /// The path that the input names: its first line, trimmed.
    pub open spec fn path_of(input: Seq<char>) -> Seq<char> {
        trimmed(lines_of(input)[0])
    }

    /// The content that the input holds: its lines after the first, with a
    /// newline between each two.
    pub open spec fn content_of(input: Seq<char>) -> Seq<char> {
        join_lines(lines_of(input).subrange(1, lines_of(input).len() as int))
    }

    /// The path and the content that the input holds, where it has a first
    /// line.
    fn split(input: &str) -> (r: Option<(String, String)>)
        ensures
            match r {
                Some(parts) => lines_of(input@).len() > 0 && parts.0@ == Self::path_of(input@)
                    && parts.1@ == Self::content_of(input@),
                None => lines_of(input@).len() == 0,
            },
    {
        let all = lines(&chars_of(input));
        if all.len() == 0 {
            return None;
        }
        let path = string_of(&trim(&all[0]));
        let content = string_of(&join_from(&all, 1));
        Some((path, content))
    }
}

impl Tool for WriteFileTool {
    open spec fn name_spec(&self) -> Seq<char> {
        "write_file"@
    }

    open spec fn description_spec(&self) -> Seq<char> {
        "Write a file to disk. Input format: <path>\n<content>"@
    }

    open spec fn plan_spec(&self, input: Seq<char>) -> Result<RequestModel, Seq<char>> {
        if lines_of(input).len() == 0 {
            Err(WriteFileTool::invalid_input())
        } else {
            Ok(
                RequestModel::WriteFile {
                    path: WriteFileTool::path_of(input),
                    content: WriteFileTool::content_of(input),
                },
            )
        }
    }

    open spec fn finish_spec(&self, input: Seq<char>, response: ResponseModel) -> Result<
        Seq<char>,
        Seq<char>,
    > {
        match response {
            ResponseModel::FileWritten => if lines_of(input).len() == 0 {
                Err(WriteFileTool::invalid_input())
            } else {
                Ok("File written successfully: "@ + WriteFileTool::path_of(input))
            },
            ResponseModel::Failed(message) => Err("Failed to write file: "@ + message),
            _ => Err(unexpected_response()),
        }
    }

    fn name(&self) -> (r: &str) {
        "write_file"
    }

    fn description(&self) -> (r: &str) {
        "Write a file to disk. Input format: <path>\n<content>"
    }

    fn plan(&self, input: &str) -> (r: Result<ToolRequest, ToolError>) {
        match WriteFileTool::split(input) {
            Some((path, content)) => Ok(ToolRequest::WriteFile { path, content }),
            None => Err(ToolError { message: "Invalid input for write_file".to_owned() }),
        }
    }

    fn finish(&self, input: &str, response: &ToolResponse) -> (r: Result<String, ToolError>) {
        match response {
            ToolResponse::FileWritten => match WriteFileTool::split(input) {
                Some((path, _)) => {
                    let mut text = "File written successfully: ".to_owned();
                    text.append(path.as_str());
                    Ok(text)
                },
                None => failure("Invalid input for write_file"),
            },
            ToolResponse::Failed(message) => failure_with(
                "Failed to write file: ",
                message.as_str(),
            ),
            _ => failure("Unexpected response"),
        }
    }
}

/// The results that a search answer holds: the items of the array at
/// `web.results`, or none where the answer has no array there.
pub open spec fn results_of(answer: Json) -> Seq<Json> {
    match member_of(member_of(Some(answer), "web"@), "results"@) {
        Some(results) => match results.items() {
            Some(items) => items,
            None => Seq::empty(),
        },
        None => Seq::empty(),
    }
}

/// One result as it is reported: its number, its title, its address and its
/// description, each of the three empty where the result holds no such text.
pub open spec fn result_text(number: nat, result: Json) -> Seq<char> {
    digits(number) + ". "@ + text_or_empty(result.member("title"@)) + "\n   URL: "@
        + text_or_empty(result.member("url"@)) + "\n   "@ + text_or_empty(
        result.member("description"@),
    ) + "\n\n"@
}

/// The first `count` results as they are reported, numbered from 1.
pub open spec fn results_text(results: Seq<Json>, count: nat) -> Seq<char>
    decreases count,
{
    if count == 0 {
        Seq::empty()
    } else {
        results_text(results, (count - 1) as nat) + result_text(count, results[count - 1])
    }
}

/// The number of results that are reported: five at most.
pub open spec fn reported(results: Seq<Json>) -> nat {
    if results.len() < 5 {
        results.len()
    } else {
        5
    }
}

/// The report of a search for `query` that was answered with `answer`.
pub open spec fn search_report(query: Seq<char>, answer: Json) -> Seq<char> {
    "Search results for: "@ + query + "\n\n"@ + results_text(
        results_of(answer),
        reported(results_of(answer)),
    )
}

/// The text of the member of `value` under `key`, or the empty text.
fn text_at<'a>(value: &'a Json, key: &str) -> (r: &'a str)
    ensures
        r@ == text_or_empty(value.member(key@)),
{
    proof {
        reveal_strlit("");
    }
    match value.get(key) {
        Some(j) => match j.as_str() {
            Some(s) => s,
            None => "",
        },
        None => "",
    }
}

/// Appends one result to a report.
fn push_result(out: &mut String, number: usize, result: &Json)
    ensures
        final(out)@ == old(out)@ + result_text(number as nat, *result),
{
    push_digits(out, number as u64);
    out.append(". ");
    out.append(text_at(result, "title"));
    out.append("\n   URL: ");
    out.append(text_at(result, "url"));
    out.append("\n   ");
    out.append(text_at(result, "description"));
    out.append("\n\n");
}

/// The report of a search for `query` that was answered with `answer`.
pub fn render_search(query: &str, answer: &Json) -> (r: String)
    ensures
        r@ == search_report(query@, *answer),
{
    let mut out = "Search results for: ".to_owned();
    out.append(query);
    out.append("\n\n");
    let results = match answer.get("web") {
        Some(web) => match web.get("results") {
            Some(results) => results.as_array(),
            None => None,
        },
        None => None,
    };
    match results {
        Some(items) => {
            let count: usize = if items.len() < 5 {
                items.len()
            } else {
                5
            };
            let ghost head = out@;
            let mut i: usize = 0;
            while i < count
                invariant
                    i <= count <= items.len(),
                    count <= 5,
                    out@ == head + results_text(items@, i as nat),
                decreases count - i,
            {
                push_result(&mut out, i + 1, &items[i]);
                i += 1;
            }
            out
        },
        None => out,
    }
}

/// Searches the web. Without a key for the search service it asks for no
/// work.
#[derive(Clone, Debug)]
pub struct WebSearchTool {
    pub api_key: String,
}

impl WebSearchTool {
    /// The message for a tool without a key.
    pub open spec fn not_configured() -> Seq<char> {
        "BRAVE_API_KEY not configured"@
    }

    /// The address that answers a search for `query`.
    pub open spec fn address(query: Seq<char>) -> Seq<char> {
        "https://api.search.brave.com/res/v1/web/search?q="@ + url_encoded(query)
    }
}

impl Tool for WebSearchTool {
    open spec fn name_spec(&self) -> Seq<char> {
        "web_search"@
    }

    open spec fn description_spec(&self) -> Seq<char> {
        "Search the web using Brave Search API"@
    }

    open spec fn plan_spec(&self, input: Seq<char>) -> Result<RequestModel, Seq<char>> {
        if self.api_key@.len() == 0 {
            Err(WebSearchTool::not_configured())
        } else {
            Ok(
                RequestModel::HttpGet {
                    url: WebSearchTool::address(input),
                    header: Some(("X-Subscription-Token"@, self.api_key@)),
                },
            )
        }
    }

    open spec fn finish_spec(&self, input: Seq<char>, response: ResponseModel) -> Result<
        Seq<char>,
        Seq<char>,
    > {
        match response {
            ResponseModel::Http { status, status_line, body } => if !is_success(status) {
                Err("Search failed: Status "@ + status_line)
            } else {
                match json_of(body) {
                    Some(answer) => Ok(search_report(input, answer)),
                    None => Err("error decoding response body"@),
                }
            },
            ResponseModel::Failed(message) => Err(message),
            _ => Err(unexpected_response()),
        }
    }

    fn name(&self) -> (r: &str) {
        "web_search"
    }

    fn description(&self) -> (r: &str) {
        "Search the web using Brave Search API"
    }

    fn plan(&self, input: &str) -> (r: Result<ToolRequest, ToolError>) {
        if self.api_key.as_str().is_empty() {
            return Err(ToolError { message: "BRAVE_API_KEY not configured".to_owned() });
        }
        let mut url = "https://api.search.brave.com/res/v1/web/search?q=".to_owned();
        url.append(url_encode(input).as_str());
        Ok(
            ToolRequest::HttpGet {
                url,
                header: Some(("X-Subscription-Token".to_owned(), self.api_key.clone())),
            },
        )
    }

    fn finish(&self, input: &str, response: &ToolResponse) -> (r: Result<String, ToolError>) {
        match response {
            ToolResponse::Http { status, status_line, body } => {
                if !status_is_success(*status) {
                    return failure_with("Search failed: Status ", status_line.as_str());
                }
                match parse(body.as_str()) {
                    Some(answer) => Ok(render_search(input, &answer)),
                    None => failure("error decoding response body"),
                }
            },
            ToolResponse::Failed(message) => failure(message.as_str()),
            _ => failure("Unexpected response"),
        }
    }
}

/// Fetches a page and gives the beginning of its text.
#[derive(Clone, Copy, Debug)]
pub struct WebFetchTool;

impl WebFetchTool {
    /// The number of bytes of a page's text that are reported at most.
    pub open spec fn limit() -> int {
        2000
    }

    /// The message for a page whose text could not be taken out.
    pub open spec fn unreadable() -> Seq<char> {
        "Failed to extract text"@
    }

    /// The report on the page at `url` whose text is `text`.
    pub open spec fn report(url: Seq<char>, text: Seq<char>) -> Seq<char> {
        "URL: "@ + url + "\nContent (first 2000 chars):\n\n"@ + truncated(
            text,
            WebFetchTool::limit(),
        )
    }
}

impl Tool for WebFetchTool {
    open spec fn name_spec(&self) -> Seq<char> {
        "web_fetch"@
    }

    open spec fn description_spec(&self) -> Seq<char> {
        "Fetch a URL and extract text content"@
    }

    open spec fn plan_spec(&self, input: Seq<char>) -> Result<RequestModel, Seq<char>> {
        Ok(RequestModel::HttpGet { url: input, header: None })
    }

    open spec fn finish_spec(&self, input: Seq<char>, response: ResponseModel) -> Result<
        Seq<char>,
        Seq<char>,
    > {
        match response {
            ResponseModel::Http { status, status_line, body } => if !is_success(status) {
                Err("Fetch failed: Status "@ + status_line)
            } else {
                match stripped(body) {
                    Some(text) => Ok(WebFetchTool::report(input, text)),
                    None => Err(WebFetchTool::unreadable()),
                }
            },
            ResponseModel::Failed(message) => Err(message),
            _ => Err(unexpected_response()),
        }
    }

    fn name(&self) -> (r: &str) {
        "web_fetch"
    }

    fn description(&self) -> (r: &str) {
        "Fetch a URL and extract text content"
    }

    fn plan(&self, input: &str) -> (r: Result<ToolRequest, ToolError>) {
        Ok(ToolRequest::HttpGet { url: input.to_owned(), header: None })
    }

    fn finish(&self, input: &str, response: &ToolResponse) -> (r: Result<String, ToolError>) {
        match response {
            ToolResponse::Http { status, status_line, body } => {
                if !status_is_success(*status) {
                    return failure_with("Fetch failed: Status ", status_line.as_str());
                }
                match strip_html(body.as_str()) {
                    Some(text) => {
                        let mut out = "URL: ".to_owned();
                        out.append(input);
                        out.append("\nContent (first 2000 chars):\n\n");
                        out.append(truncate(text.as_str(), 2000));
                        Ok(out)
                    },
                    None => failure("Failed to extract text"),
                }
            },
            ToolResponse::Failed(message) => failure(message.as_str()),
            _ => failure("Unexpected response"),
        }
    }
}

/// Any one of the five tools.
#[derive(Clone, Debug)]
pub enum AnyTool {
    Terminal(TerminalTool),
    ReadFile(ReadFileTool),
    WriteFile(WriteFileTool),
    WebSearch(WebSearchTool),
    WebFetch(WebFetchTool),
}

impl Tool for AnyTool {
    open spec fn name_spec(&self) -> Seq<char> {
        match *self {
            AnyTool::Terminal(t) => t.name_spec(),
            AnyTool::ReadFile(t) => t.name_spec(),
            AnyTool::WriteFile(t) => t.name_spec(),
            AnyTool::WebSearch(t) => t.name_spec(),
            AnyTool::WebFetch(t) => t.name_spec(),
        }
    }

    open spec fn description_spec(&self) -> Seq<char> {
        match *self {
            AnyTool::Terminal(t) => t.description_spec(),
            AnyTool::ReadFile(t) => t.description_spec(),
            AnyTool::WriteFile(t) => t.description_spec(),
            AnyTool::WebSearch(t) => t.description_spec(),
            AnyTool::WebFetch(t) => t.description_spec(),
        }
    }

    open spec fn plan_spec(&self, input: Seq<char>) -> Result<RequestModel, Seq<char>> {
        match *self {
            AnyTool::Terminal(t) => t.plan_spec(input),
            AnyTool::ReadFile(t) => t.plan_spec(input),
            AnyTool::WriteFile(t) => t.plan_spec(input),
            AnyTool::WebSearch(t) => t.plan_spec(input),
            AnyTool::WebFetch(t) => t.plan_spec(input),
        }
    }

    open spec fn finish_spec(&self, input: Seq<char>, response: ResponseModel) -> Result<
        Seq<char>,
        Seq<char>,
    > {
        match *self {
            AnyTool::Terminal(t) => t.finish_spec(input, response),
            AnyTool::ReadFile(t) => t.finish_spec(input, response),
            AnyTool::WriteFile(t) => t.finish_spec(input, response),
            AnyTool::WebSearch(t) => t.finish_spec(input, response),
            AnyTool::WebFetch(t) => t.finish_spec(input, response),
        }
    }

    fn name(&self) -> (r: &str) {
        match self {
            AnyTool::Terminal(t) => t.name(),
            AnyTool::ReadFile(t) => t.name(),
            AnyTool::WriteFile(t) => t.name(),
            AnyTool::WebSearch(t) => t.name(),
            AnyTool::WebFetch(t) => t.name(),
        }
    }

    fn description(&self) -> (r: &str) {
        match self {
            AnyTool::Terminal(t) => t.description(),
            AnyTool::ReadFile(t) => t.description(),
            AnyTool::WriteFile(t) => t.description(),
            AnyTool::WebSearch(t) => t.description(),
            AnyTool::WebFetch(t) => t.description(),
        }
    }

    fn plan(&self, input: &str) -> (r: Result<ToolRequest, ToolError>) {
        match self {
            AnyTool::Terminal(t) => t.plan(input),
            AnyTool::ReadFile(t) => t.plan(input),
            AnyTool::WriteFile(t) => t.plan(input),
            AnyTool::WebSearch(t) => t.plan(input),
            AnyTool::WebFetch(t) => t.plan(input),
        }
    }

    fn finish(&self, input: &str, response: &ToolResponse) -> (r: Result<String, ToolError>) {
        match self {
            AnyTool::Terminal(t) => t.finish(input, response),
            AnyTool::ReadFile(t) => t.finish(input, response),
            AnyTool::WriteFile(t) => t.finish(input, response),
            AnyTool::WebSearch(t) => t.finish(input, response),
            AnyTool::WebFetch(t) => t.finish(input, response),
        }
    }
}

} // verus!

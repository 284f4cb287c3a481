//! The capability that every tool offers. A tool does no work of its own
//! on the outside world: it says what is to be done there for an input, and
//! what the outcome of that work means.

use vstd::prelude::*;

verus! {

/// Why a tool could not give a result.
#[derive(Clone, Debug)]
pub struct ToolError {
    pub message: String,
}

/// The work on the outside world that a tool asks for.
#[derive(Clone, Debug)]
pub enum ToolRequest {
    /// Run `command` in a shell.
    Shell { command: String },
    /// Read the file at `path` as text.
    ReadFile { path: String },
    /// Write `content` to the file at `path`.
    WriteFile { path: String, content: String },
    /// Fetch `url`, with the given header, a name and a value, where there is one.
    HttpGet { url: String, header: Option<(String, String)> },
}

/// A request as contracts see it.
pub enum RequestModel {
    Shell { command: Seq<char> },
    ReadFile { path: Seq<char> },
    WriteFile { path: Seq<char>, content: Seq<char> },
    HttpGet { url: Seq<char>, header: Option<(Seq<char>, Seq<char>)> },
}

impl View for ToolRequest {
    type V = RequestModel;

    open spec fn view(&self) -> RequestModel {
        match *self {
            ToolRequest::Shell { command } => RequestModel::Shell { command: command@ },
            ToolRequest::ReadFile { path } => RequestModel::ReadFile { path: path@ },
            ToolRequest::WriteFile { path, content } => RequestModel::WriteFile {
                path: path@,
                content: content@,
            },
            ToolRequest::HttpGet { url, header } => RequestModel::HttpGet {
                url: url@,
                header: match header {
                    Some(h) => Some((h.0@, h.1@)),
                    None => None,
                },
            },
        }
    }
}

/// How the work that a tool asked for ended.
#[derive(Clone, Debug)]
pub enum ToolResponse {
    /// A command ran: whether it succeeded, its exit code where it has one,
    /// and what it wrote to its two output streams.
    Process { success: bool, code: Option<i32>, stdout: Vec<u8>, stderr: Vec<u8> },
    /// A file was read, and held this text.
    FileText(String),
    /// A file was written.
    FileWritten,
    /// An HTTP response came: its status code, the status as the transport
    /// prints it, and its body.
    Http { status: u16, status_line: String, body: String },
    /// The work could not be done.
    Failed(String),
}

/// A response as contracts see it.
pub enum ResponseModel {
    Process { success: bool, code: Option<i32>, stdout: Seq<u8>, stderr: Seq<u8> },
    FileText(Seq<char>),
    FileWritten,
    Http { status: u16, status_line: Seq<char>, body: Seq<char> },
    Failed(Seq<char>),
}

impl View for ToolResponse {
    type V = ResponseModel;

    open spec fn view(&self) -> ResponseModel {
        match *self {
            ToolResponse::Process { success, code, stdout, stderr } => ResponseModel::Process {
                success,
                code,
                stdout: stdout@,
                stderr: stderr@,
            },
            ToolResponse::FileText(text) => ResponseModel::FileText(text@),
            ToolResponse::FileWritten => ResponseModel::FileWritten,
            ToolResponse::Http { status, status_line, body } => ResponseModel::Http {
                status,
                status_line: status_line@,
                body: body@,
            },
            ToolResponse::Failed(message) => ResponseModel::Failed(message@),
        }
    }
}

/// A request or the message of an error, as contracts see them.
pub open spec fn planned(r: Result<ToolRequest, ToolError>) -> Result<RequestModel, Seq<char>> {
    match r {
        Ok(request) => Ok(request@),
        Err(e) => Err(e.message@),
    }
}

/// A text or the message of an error, as contracts see them.
pub open spec fn finished(r: Result<String, ToolError>) -> Result<Seq<char>, Seq<char>> {
    match r {
        Ok(text) => Ok(text@),
        Err(e) => Err(e.message@),
    }
}

/// Whether an HTTP status code reports success: 200 to 299.
pub open spec fn is_success(status: u16) -> bool {
    200 <= status <= 299
}

/// Whether an HTTP status code reports success.
pub fn status_is_success(status: u16) -> (r: bool)
    ensures
        r == is_success(status),
{
    200 <= status && status <= 299
}

/// A named capability: what to do for an input, and what the outcome means.
/// To execute a tool is to plan, to do the work that the plan asks for, and
/// to finish with the outcome of that work.
pub trait Tool {
    /// The name under which the tool is registered and invoked.
    spec fn name_spec(&self) -> Seq<char>;

    /// What the tool does, in words for the model.
    spec fn description_spec(&self) -> Seq<char>;

    /// The work that the tool asks for on `input`, or why it asks for none.
    spec fn plan_spec(&self, input: Seq<char>) -> Result<RequestModel, Seq<char>>;

    /// The result of the tool on `input`, once the work has ended in `response`.
    spec fn finish_spec(&self, input: Seq<char>, response: ResponseModel) -> Result<
        Seq<char>,
        Seq<char>,
    >;

    fn name(&self) -> (r: &str)
        ensures
            r@ == self.name_spec(),
    ;

    fn description(&self) -> (r: &str)
        ensures
            r@ == self.description_spec(),
    ;

    fn plan(&self, input: &str) -> (r: Result<ToolRequest, ToolError>)
        ensures
            planned(r) == self.plan_spec(input@),
    ;

    fn finish(&self, input: &str, response: &ToolResponse) -> (r: Result<String, ToolError>)
        ensures
            finished(r) == self.finish_spec(input@, response@),
    ;
}

} // verus!

//! The per-connection protocol: one request line in, one response out.

pub mod endpoints;
pub mod parser;
pub mod responder;

use crate::connection::endpoints::handle_special_endpoints;
use crate::connection::endpoints::EndpointReply;
use crate::connection::endpoints::ReplyView;
use crate::connection::endpoints::special_endpoint;
use crate::connection::parser::parse_request;
use crate::connection::parser::request_of;
use crate::connection::parser::resolve_path;
use crate::connection::parser::resolved_path;
use crate::connection::parser::split_whitespace;
use crate::connection::responder::html_content_type;
use crate::connection::responder::respond;
use crate::connection::responder::response_bytes;
use crate::connection::responder::send_error;
use crate::job_store::JobStore;
use crate::text::same_text;
use crate::utils::content_type_of;
use crate::utils::mime_for;
use vstd::prelude::*;
use vstd::string::StringSliceAdditionalSpecFns;
use vstd::utf8::encode_utf8;

verus! {

/// How long a connection may stay silent before its request line is given up, in seconds.
pub const READ_TIMEOUT_SECS: u64 = 5;

/// How long a background task started by `/async` waits before it completes, in seconds.
pub const COMPLETION_DELAY_SECS: u64 = 4;

/// Why a connection ends without a response.
#[derive(Clone, Copy, Debug, PartialEq, Eq)]
pub enum ConnectionError {
    /// The request line has fewer than three whitespace-separated tokens.
    Protocol,
}

/// What is to be done for a connection once its request line was read.
#[derive(Debug, PartialEq, Eq)]
pub enum Plan {
    /// A demo endpoint answers: write its response, flush and close. Where the reply
    /// completes later, first start the detached task that does so.
    Reply(EndpointReply),
    /// The method is not allowed: write these bytes, flush and close.
    Refuse(Vec<u8>),
    /// Read the file at this path and answer with what `serve_file` makes of the outcome.
    ReadFile(String),
}

/// A plan as plain values.
pub enum PlanView {
    Reply(ReplyView),
    Refuse(Seq<u8>),
    ReadFile(Seq<char>),
}

impl View for Plan {
    type V = PlanView;

    open spec fn view(&self) -> PlanView {
        match self {
            Plan::Reply(reply) => PlanView::Reply(reply@),
            Plan::Refuse(bytes) => PlanView::Refuse(bytes@),
            Plan::ReadFile(path) => PlanView::ReadFile(path@),
        }
    }
}

/// How an attempt to read a static file ended.
#[derive(Debug, PartialEq, Eq)]
pub enum FileRead {
    /// The file was read; these are its bytes.
    Found(Vec<u8>),
    /// There is no such file.
    NotFound,
    /// The read failed for any other reason.
    Failed,
}

/// The outcome of a read as plain values.
pub enum FileReadView {
    Found(Seq<u8>),
    NotFound,
    Failed,
}

impl View for FileRead {
    type V = FileReadView;

    open spec fn view(&self) -> FileReadView {
        match self {
            FileRead::Found(content) => FileReadView::Found(content@),
            FileRead::NotFound => FileReadView::NotFound,
            FileRead::Failed => FileReadView::Failed,
        }
    }
}

/// The response to any request whose method is not `GET`.
pub open spec fn method_not_allowed_response() -> Seq<u8> {
    response_bytes("405 Method Not Allowed"@, html_content_type(), encode_utf8("<h1>405</h1>"@))
}

/// The response for a static file, by the outcome of reading it: the file's bytes
/// under the content type of its extension, or one of two fixed error pages.
pub open spec fn file_response(path: Seq<char>, read: FileReadView) -> Seq<u8> {
    match read {
        FileReadView::Found(content) => response_bytes(
            "200 OK"@,
            content_type_of(path),
            content,
        ),
        FileReadView::NotFound => response_bytes(
            "404 Not Found"@,
            html_content_type(),
            encode_utf8("<h1>404</h1>"@),
        ),
        FileReadView::Failed => response_bytes(
            "500 Internal Server Error"@,
            html_content_type(),
            encode_utf8("<h1>500</h1>"@),
        ),
    }
}

/// The plan for a connection, by its request line, the static root and the job store's
/// state. A malformed line is an error and gets no response at all. The demo endpoints
/// come first; then any method but `GET` is refused; what is left is a static file.
pub open spec fn connection_plan(
    line: Seq<char>,
    root: Seq<char>,
    results: Option<Seq<Seq<char>>>,
) -> Result<PlanView, ConnectionError> {
    match request_of(line) {
        None => Err(ConnectionError::Protocol),
        Some((method, path)) => match special_endpoint(method, path, results) {
            Some(reply) => Ok(PlanView::Reply(reply)),
            None => if method != "GET"@ {
                Ok(PlanView::Refuse(method_not_allowed_response()))
            } else {
                Ok(PlanView::ReadFile(resolved_path(root, path)))
            },
        },
    }
}

/// The outcome of `handle_connection` as plain values.
pub open spec fn plan_view(outcome: Result<Plan, ConnectionError>) -> Result<
    PlanView,
    ConnectionError,
> {
    match outcome {
        Ok(plan) => Ok(plan@),
        Err(e) => Err(e),
    }
}

/// Decides what a connection gets, from the one line that was read from it.
pub fn handle_connection(request_line: &str, root: &str, store: &JobStore) -> (outcome: Result<
    Plan,
    ConnectionError,
>)
    ensures
        plan_view(outcome) == connection_plan(request_line@, root@, store@),
{
    let (method, path) = match parse_request(request_line) {
        Ok(request) => request,
        Err(e) => {
            return Err(e);
        },
    };
    match handle_special_endpoints(method, path, store) {
        Some(reply) => Ok(Plan::Reply(reply)),
        None => {
            if !same_text(method, "GET") {
                Ok(Plan::Refuse(send_error("405 Method Not Allowed", "<h1>405</h1>".as_bytes())))
            } else {
                Ok(Plan::ReadFile(resolve_path(root, path)))
            }
        },
    }
}

/// Builds the response for a static file once the attempt to read it has ended.
pub fn serve_file(path: &str, read: FileRead) -> (out: Vec<u8>)
    ensures
        out@ == file_response(path@, read@),
{
    match read {
        FileRead::Found(content) => respond("200 OK", mime_for(path), content.as_slice()),
        FileRead::NotFound => send_error("404 Not Found", "<h1>404</h1>".as_bytes()),
        FileRead::Failed => send_error("500 Internal Server Error", "<h1>500</h1>".as_bytes()),
    }
}

/// A request with any method but `GET` is answered `405`, whatever its path, the
/// static root and the job store hold.
pub proof fn other_methods_are_refused(
    line: Seq<char>,
    root: Seq<char>,
    results: Option<Seq<Seq<char>>>,
)
    requires
        split_whitespace(line).len() >= 3,
        split_whitespace(line)[0] != "GET"@,
    ensures
        connection_plan(line, root, results) == Ok::<PlanView, ConnectionError>(
            PlanView::Refuse(method_not_allowed_response()),
        ),
{
}

/// A request line with fewer than three tokens, and so any with fewer than two, ends
/// the connection with a protocol error: no plan, and no byte to write.
pub proof fn short_lines_get_no_response(
    line: Seq<char>,
    root: Seq<char>,
    results: Option<Seq<Seq<char>>>,
)
    requires
        split_whitespace(line).len() < 3,
    ensures
        connection_plan(line, root, results) == Err::<PlanView, ConnectionError>(
            ConnectionError::Protocol,
        ),
{
}

} // verus!

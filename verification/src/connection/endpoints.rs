//! The fixed demo endpoints `/ok`, `/bad`, `/fail`, `/async` and `/result`.

use crate::job_store::after_record;
use crate::job_store::JobStore;
use crate::text::same_text;
use crate::utils::json_response;
use crate::utils::json_response_bytes;
use vstd::prelude::*;
use vstd::string::StringExecFns;

verus! {

/// The error of the outside serializer.
#[verifier::external_type_specification]
#[verifier::external_body]
pub struct ExJsonError(serde_json::Error);

/// The text that `serde_json::to_string_pretty` makes of a list of strings: the
/// pretty-printed JSON array.
pub uninterp spec fn json_pretty(entries: Seq<Seq<char>>) -> Seq<char>;

/// Calls `serde_json::to_string_pretty` on the entries. The contract claims two things
/// of it. The call succeeds on every list of strings: the serializer fails only where
/// its writer fails, a value refuses to be serialized or a map has a key that is no
/// string, and here the writer is a byte vector and the value a list of strings. And
/// the text is a function of the entries' characters alone, the one `json_pretty` names.
#[verifier::external_body]
fn to_json_pretty(entries: &Vec<String>) -> (res: Result<String, serde_json::Error>)
    ensures
        res is Ok,
        res matches Ok(text) ==> text@ == json_pretty(entries.deep_view()),
{
    serde_json::to_string_pretty(entries)
}

/// The demo endpoint that answered, with the two answers of `/result` told apart.
#[derive(Clone, Copy, Debug, PartialEq, Eq)]
pub enum Endpoint {
    /// `/ok`
    Success,
    /// `/bad`
    BadRequest,
    /// `/fail`
    Failure,
    /// `/async`
    Async,
    /// `/result`, with the store's entries
    Results,
    /// `/result`, while the store is uninitialized
    NoResults,
}

/// What a demo endpoint answers.
#[derive(Debug, PartialEq, Eq)]
pub struct EndpointReply {
    /// The endpoint that answers.
    pub endpoint: Endpoint,
    /// The bytes of the response to write at once.
    pub response: Vec<u8>,
}

/// An endpoint's reply as plain values.
pub struct ReplyView {
    pub endpoint: Endpoint,
    pub response: Seq<u8>,
}

impl View for EndpointReply {
    type V = ReplyView;

    open spec fn view(&self) -> ReplyView {
        ReplyView { endpoint: self.endpoint, response: self.response@ }
    }
}

impl EndpointReply {
    /// Whether work goes on after the response. It does for `/async` alone: a detached
    /// task waits for the fixed delay, records the completion entries and writes the
    /// completion notice to the same peer.
    pub fn completes_later(&self) -> (later: bool)
        ensures
            later == (self@.endpoint == Endpoint::Async),
    {
        match self.endpoint {
            Endpoint::Async => true,
            _ => false,
        }
    }
}

/// The body of `GET /ok`.
pub open spec fn ok_body() -> Seq<char> {
    "{\"status\":200,\"message\":\"Todo bien 👍\"}"@
}

/// The body of `GET /bad`.
pub open spec fn bad_body() -> Seq<char> {
    "{\"status\":400,\"error\":\"Solicitud incorrecta\"}"@
}

/// The body of `GET /fail`.
pub open spec fn fail_body() -> Seq<char> {
    "{\"status\":500,\"error\":\"Error interno del servidor\"}"@
}

/// The body with which `GET /async` answers at once.
pub open spec fn accepted_body() -> Seq<char> {
    "{\"status\":202,\"message\":\"Tarea en proceso...\"}"@
}

/// The body of `GET /result` while the job store is uninitialized.
pub open spec fn no_results_body() -> Seq<char> {
    "{\"error\":\"No hay resultados aún\"}"@
}

/// The body of the notice that follows a completed background task.
pub open spec fn completed_body() -> Seq<char> {
    "{\"status\":200,\"result\":\"Tarea asincrónica completada\"}"@
}

/// The four entries that one completed background task records, in their order.
pub open spec fn completion_entries_spec() -> Seq<Seq<char>> {
    seq![
        "Archivo procesado: informe_ventas.pdf"@,
        "Archivo procesado: resumen_clientes.csv"@,
        "Archivo procesado: reporte_financiero.xlsx"@,
        "Archivo procesado: log_servidor.txt"@,
    ]
}

/// The response of `GET /result`, given the store's entries rendered as JSON, or `None`
/// for an uninitialized store.
pub open spec fn results_response_bytes(rendered: Option<Seq<char>>) -> Seq<u8> {
    match rendered {
        Some(text) => json_response_bytes(200, "OK"@, text),
        None => json_response_bytes(404, "Not Found"@, no_results_body()),
    }
}

/// The answer of `GET /result` for a store in the given state: `200` with the entries
/// rendered as JSON, or `404` while the store is uninitialized.
pub open spec fn result_endpoint(results: Option<Seq<Seq<char>>>) -> ReplyView {
    match results {
        Some(entries) => ReplyView {
            endpoint: Endpoint::Results,
            response: results_response_bytes(Some(json_pretty(entries))),
        },
        None => ReplyView {
            endpoint: Endpoint::NoResults,
            response: results_response_bytes(None),
        },
    }
}

/// What the demo endpoints make of a request: `None` where the request is none of
/// theirs (any method but `GET`, or another path), else the reply of the endpoint that
/// the path names exactly.
pub open spec fn special_endpoint(
    method: Seq<char>,
    path: Seq<char>,
    results: Option<Seq<Seq<char>>>,
) -> Option<ReplyView> {
    if method != "GET"@ {
        None
    } else if path == "/ok"@ {
        Some(
            ReplyView {
                endpoint: Endpoint::Success,
                response: json_response_bytes(200, "OK"@, ok_body()),
            },
        )
    } else if path == "/bad"@ {
        Some(
            ReplyView {
                endpoint: Endpoint::BadRequest,
                response: json_response_bytes(400, "Bad Request"@, bad_body()),
            },
        )
    } else if path == "/fail"@ {
        Some(
            ReplyView {
                endpoint: Endpoint::Failure,
                response: json_response_bytes(500, "Internal Server Error"@, fail_body()),
            },
        )
    } else if path == "/async"@ {
        Some(
            ReplyView {
                endpoint: Endpoint::Async,
                response: json_response_bytes(202, "Accepted"@, accepted_body()),
            },
        )
    } else if path == "/result"@ {
        Some(result_endpoint(results))
    } else {
        None
    }
}

/// The outcome of `handle_special_endpoints` as plain values.
pub open spec fn outcome_view(outcome: Option<EndpointReply>) -> Option<ReplyView> {
    match outcome {
        Some(reply) => Some(reply@),
        None => None,
    }
}

/// Builds the response of `GET /result` from the store's entries rendered as JSON
/// (`None` for an uninitialized store).
pub fn results_response(rendered: Option<&str>) -> (out: Vec<u8>)
    ensures
        out@ == results_response_bytes(
            match rendered {
                Some(text) => Some(text@),
                None => None,
            },
        ),
{
    match rendered {
        Some(text) => json_response(200, "OK", text),
        None => json_response(404, "Not Found", "{\"error\":\"No hay resultados aún\"}"),
    }
}

/// Answers a request for one of the demo endpoints and leaves every other request alone.
/// Only `/result` reads the store, and nothing here changes it.
pub fn handle_special_endpoints(method: &str, path: &str, store: &JobStore) -> (outcome: Option<
    EndpointReply,
>)
    ensures
        outcome_view(outcome) == special_endpoint(method@, path@, store@),
{
    if !same_text(method, "GET") {
        return None;
    }
    if same_text(path, "/ok") {
        let response = json_response(200, "OK", "{\"status\":200,\"message\":\"Todo bien 👍\"}");
        Some(EndpointReply { endpoint: Endpoint::Success, response })
    } else if same_text(path, "/bad") {
        let response = json_response(
            400,
            "Bad Request",
            "{\"status\":400,\"error\":\"Solicitud incorrecta\"}",
        );
        Some(EndpointReply { endpoint: Endpoint::BadRequest, response })
    } else if same_text(path, "/fail") {
        let response = json_response(
            500,
            "Internal Server Error",
            "{\"status\":500,\"error\":\"Error interno del servidor\"}",
        );
        Some(EndpointReply { endpoint: Endpoint::Failure, response })
    } else if same_text(path, "/async") {
        let response = json_response(
            202,
            "Accepted",
            "{\"status\":202,\"message\":\"Tarea en proceso...\"}",
        );
        Some(EndpointReply { endpoint: Endpoint::Async, response })
    } else if same_text(path, "/result") {
        match store.snapshot() {
            Some(entries) => {
                let text = to_json_pretty(&entries).unwrap();
                Some(
                    EndpointReply {
                        endpoint: Endpoint::Results,
                        response: results_response(Some(text.as_str())),
                    },
                )
            },
            None => Some(
                EndpointReply { endpoint: Endpoint::NoResults, response: results_response(None) },
            ),
        }
    } else {
        None
    }
}

/// The entries that a completed background task records.
pub fn completion_entries() -> (entries: Vec<String>)
    ensures
        entries.deep_view() == completion_entries_spec(),
{
    let mut entries: Vec<String> = Vec::new();
    entries.push(String::from_str("Archivo procesado: informe_ventas.pdf"));
    entries.push(String::from_str("Archivo procesado: resumen_clientes.csv"));
    entries.push(String::from_str("Archivo procesado: reporte_financiero.xlsx"));
    entries.push(String::from_str("Archivo procesado: log_servidor.txt"));
    assert(entries.deep_view() =~= completion_entries_spec());
    entries
}

/// The second, unsolicited response that announces a completed background task.
pub fn completion_notice() -> (out: Vec<u8>)
    ensures
        out@ == json_response_bytes(200, "OK"@, completed_body()),
{
    json_response(200, "OK", "{\"status\":200,\"result\":\"Tarea asincrónica completada\"}")
}

/// What a background task does when its delay is over, as one step under the store's
/// lock: it records its four entries as one block and hands back the notice to write
/// to the peer once the lock is released.
pub fn complete_task(store: &mut JobStore) -> (notice: Vec<u8>)
    ensures
        final(store)@ == after_record(old(store)@, completion_entries_spec()),
        notice@ == json_response_bytes(200, "OK"@, completed_body()),
{
    store.record(completion_entries());
    completion_notice()
}

} // verus!

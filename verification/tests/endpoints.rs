use concurrent_static_server::connection::endpoints::complete_task;
use concurrent_static_server::connection::endpoints::completion_entries;
use concurrent_static_server::connection::endpoints::completion_notice;
use concurrent_static_server::connection::endpoints::handle_special_endpoints;
use concurrent_static_server::connection::endpoints::results_response;
use concurrent_static_server::connection::endpoints::Endpoint;
use concurrent_static_server::connection::endpoints::EndpointReply;
use concurrent_static_server::job_store::JobStore;

fn json_reply(status: &str, body: &str) -> Vec<u8> {
    format!(
        "HTTP/1.1 {}\r\nContent-Length: {}\r\nContent-Type: application/json\r\nConnection: close\r\n\r\n{}",
        status,
        body.len(),
        body
    )
    .into_bytes()
}

fn body_of(response: &[u8]) -> String {
    let text = String::from_utf8(response.to_vec()).unwrap();
    let at = text.find("\r\n\r\n").unwrap();
    text[at + 4..].to_string()
}

#[test]
fn get_ok_answers_200_with_its_fixed_body() {
    let store = JobStore::new();
    let reply = handle_special_endpoints("GET", "/ok", &store).unwrap();
    assert_eq!(reply.endpoint, Endpoint::Success);
    assert!(!reply.completes_later());
    assert!(reply.response.starts_with(b"HTTP/1.1 200 OK\r\n"));
    assert_eq!(body_of(&reply.response), "{\"status\":200,\"message\":\"Todo bien 👍\"}");
    assert_eq!(
        reply.response,
        json_reply("200 OK", "{\"status\":200,\"message\":\"Todo bien 👍\"}")
    );
}

#[test]
fn get_bad_answers_400_with_its_fixed_body() {
    let store = JobStore::new();
    let reply = handle_special_endpoints("GET", "/bad", &store).unwrap();
    assert_eq!(reply.endpoint, Endpoint::BadRequest);
    assert!(!reply.completes_later());
    assert_eq!(
        reply.response,
        json_reply("400 Bad Request", "{\"status\":400,\"error\":\"Solicitud incorrecta\"}")
    );
}

#[test]
fn get_fail_answers_500_with_its_fixed_body() {
    let store = JobStore::new();
    let reply = handle_special_endpoints("GET", "/fail", &store).unwrap();
    assert_eq!(reply.endpoint, Endpoint::Failure);
    assert!(!reply.completes_later());
    assert_eq!(
        reply.response,
        json_reply(
            "500 Internal Server Error",
            "{\"status\":500,\"error\":\"Error interno del servidor\"}"
        )
    );
}

#[test]
fn get_async_answers_202_and_completes_later() {
    let store = JobStore::new();
    let reply = handle_special_endpoints("GET", "/async", &store).unwrap();
    assert_eq!(reply.endpoint, Endpoint::Async);
    assert!(reply.completes_later());
    assert_eq!(
        reply.response,
        json_reply("202 Accepted", "{\"status\":202,\"message\":\"Tarea en proceso...\"}")
    );
    assert!(!store.is_initialized());
}

#[test]
fn get_result_answers_404_while_nothing_was_recorded() {
    let store = JobStore::new();
    let reply = handle_special_endpoints("GET", "/result", &store).unwrap();
    assert_eq!(
        reply,
        EndpointReply {
            endpoint: Endpoint::NoResults,
            response: json_reply("404 Not Found", "{\"error\":\"No hay resultados aún\"}"),
        }
    );
}

#[test]
fn get_result_lists_the_entries_after_a_completion() {
    let mut store = JobStore::new();
    handle_special_endpoints("GET", "/async", &store).unwrap();
    let before = handle_special_endpoints("GET", "/result", &store).unwrap();
    assert!(before.response.starts_with(b"HTTP/1.1 404 Not Found\r\n"));
    complete_task(&mut store);
    let after = handle_special_endpoints("GET", "/result", &store).unwrap();
    let body = "[\n  \"Archivo procesado: informe_ventas.pdf\",\n  \"Archivo procesado: resumen_clientes.csv\",\n  \"Archivo procesado: reporte_financiero.xlsx\",\n  \"Archivo procesado: log_servidor.txt\"\n]";
    assert_eq!(after.response, json_reply("200 OK", body));
    assert_eq!(after.endpoint, Endpoint::Results);
    assert!(!after.completes_later());
    let listed: Vec<String> = serde_json::from_str(&body_of(&after.response)).unwrap();
    assert_eq!(listed, completion_entries());
}

#[test]
fn get_result_escapes_what_json_requires() {
    let mut store = JobStore::new();
    store.record(vec!["a \"quoted\" \\ line\nnext\ttab \u{1} ñ 👍".to_string()]);
    let reply = handle_special_endpoints("GET", "/result", &store).unwrap();
    assert_eq!(
        body_of(&reply.response),
        "[\n  \"a \\\"quoted\\\" \\\\ line\\nnext\\ttab \\u0001 ñ 👍\"\n]"
    );
}

#[test]
fn get_result_of_an_initialized_but_empty_store_is_an_empty_array() {
    let mut store = JobStore::new();
    store.record(Vec::new());
    let reply = handle_special_endpoints("GET", "/result", &store).unwrap();
    assert_eq!(reply.response, json_reply("200 OK", "[]"));
}

#[test]
fn other_methods_are_none_of_the_endpoints() {
    let store = JobStore::new();
    for method in ["POST", "get", "HEAD", "PUT", "", "GET "] {
        for path in ["/ok", "/bad", "/fail", "/async", "/result", "/other"] {
            assert_eq!(handle_special_endpoints(method, path, &store), None);
        }
    }
}

#[test]
fn other_paths_are_none_of_the_endpoints() {
    let store = JobStore::new();
    for path in ["/", "/ok/", "/OK", "/okay", "ok", "/result?x=1", "/index.html", ""] {
        assert_eq!(handle_special_endpoints("GET", path, &store), None);
    }
}

#[test]
fn results_response_wraps_the_rendered_entries() {
    assert_eq!(results_response(Some("[\n  \"x\"\n]")), json_reply("200 OK", "[\n  \"x\"\n]"));
    assert_eq!(
        results_response(None),
        json_reply("404 Not Found", "{\"error\":\"No hay resultados aún\"}")
    );
}

#[test]
fn completion_entries_are_the_four_fixed_strings() {
    assert_eq!(
        completion_entries(),
        vec![
            "Archivo procesado: informe_ventas.pdf".to_string(),
            "Archivo procesado: resumen_clientes.csv".to_string(),
            "Archivo procesado: reporte_financiero.xlsx".to_string(),
            "Archivo procesado: log_servidor.txt".to_string(),
        ]
    );
}

#[test]
fn completion_notice_is_a_second_200_response() {
    let body = "{\"status\":200,\"result\":\"Tarea asincrónica completada\"}";
    assert_eq!(completion_notice(), json_reply("200 OK", body));
    assert_eq!(body.len(), 55);
}

#[test]
fn complete_task_records_and_hands_back_the_notice() {
    let mut store = JobStore::new();
    let notice = complete_task(&mut store);
    assert_eq!(notice, completion_notice());
    assert_eq!(store.snapshot(), Some(completion_entries()));
}

#[test]
fn two_completions_leave_eight_entries_in_two_whole_blocks() {
    let mut store = JobStore::new();
    complete_task(&mut store);
    complete_task(&mut store);
    let entries = store.snapshot().unwrap();
    assert_eq!(entries.len(), 8);
    assert_eq!(entries[..4].to_vec(), completion_entries());
    assert_eq!(entries[4..].to_vec(), completion_entries());
}

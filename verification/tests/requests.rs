use concurrent_static_server::connection::parser::parse_request;
use concurrent_static_server::connection::parser::resolve_path;
use concurrent_static_server::connection::ConnectionError;
use concurrent_static_server::text::char_is_whitespace;
use std::path::Path;

#[test]
fn parse_request_reads_method_and_path() {
    assert_eq!(parse_request("GET /ok HTTP/1.1\r\n"), Ok(("GET", "/ok")));
}

#[test]
fn parse_request_ignores_surrounding_and_repeated_whitespace() {
    assert_eq!(parse_request("  \tPOST   /a/b.txt\t HTTP/1.0  \n"), Ok(("POST", "/a/b.txt")));
}

#[test]
fn parse_request_takes_the_first_two_of_many_tokens() {
    assert_eq!(parse_request("GET / HTTP/1.1 extra tokens"), Ok(("GET", "/")));
}

#[test]
fn parse_request_splits_on_unicode_whitespace() {
    assert_eq!(parse_request("GET\u{a0}/x\u{3000}HTTP/1.1"), Ok(("GET", "/x")));
    assert_eq!(parse_request("GET\u{2003}/ñ\u{85}v"), Ok(("GET", "/ñ")));
}

#[test]
fn parse_request_rejects_two_tokens() {
    assert_eq!(parse_request("GET /ok\r\n"), Err(ConnectionError::Protocol));
}

#[test]
fn parse_request_rejects_one_token() {
    assert_eq!(parse_request("GET\r\n"), Err(ConnectionError::Protocol));
}

#[test]
fn parse_request_rejects_empty_and_blank_lines() {
    assert_eq!(parse_request(""), Err(ConnectionError::Protocol));
    assert_eq!(parse_request(" \t\r\n"), Err(ConnectionError::Protocol));
}

#[test]
fn parse_request_agrees_with_the_standard_tokenizer() {
    let lines = [
        "GET / HTTP/1.1",
        "a b c d e",
        "a\u{1680}b\u{2028}c",
        "\u{feff}a b c",
        "a\u{200b}b c d",
        "x  y",
        "\u{2029}\u{202f}\u{205f}",
        "one\ttwo\x0bthree\x0cfour",
    ];
    for line in lines {
        let tokens: Vec<&str> = line.split_whitespace().collect();
        let expected = if tokens.len() < 3 {
            Err(ConnectionError::Protocol)
        } else {
            Ok((tokens[0], tokens[1]))
        };
        assert_eq!(parse_request(line), expected);
    }
}

#[test]
fn whitespace_is_what_the_standard_library_calls_whitespace() {
    let mut code: u32 = 0;
    while code <= 0x10ffff {
        if let Some(c) = char::from_u32(code) {
            assert_eq!(char_is_whitespace(c), c.is_whitespace());
        }
        code += 1;
    }
}

#[test]
fn resolve_path_maps_the_root_to_the_default_document() {
    assert_eq!(resolve_path("/srv/static", "/"), "/srv/static/index.html");
}

#[test]
fn resolve_path_strips_leading_slashes_and_joins() {
    assert_eq!(resolve_path("/srv/static", "/css/site.css"), "/srv/static/css/site.css");
    assert_eq!(resolve_path("/srv/static", "///a.txt"), "/srv/static/a.txt");
    assert_eq!(resolve_path("/srv/static", "plain"), "/srv/static/plain");
}

#[test]
fn resolve_path_adds_no_second_separator() {
    assert_eq!(resolve_path("/srv/static/", "/a.txt"), "/srv/static/a.txt");
    assert_eq!(resolve_path("/", "/a.txt"), "/a.txt");
    assert_eq!(resolve_path("", "/a.txt"), "a.txt");
}

#[test]
fn resolve_path_of_slashes_only_names_the_root_itself() {
    assert_eq!(resolve_path("/srv/static", "//"), "/srv/static/");
    assert_eq!(resolve_path("/srv/static", ""), "/srv/static/");
}

#[test]
fn resolve_path_does_not_normalize_parent_segments() {
    assert_eq!(resolve_path("/srv/static", "/../etc/passwd"), "/srv/static/../etc/passwd");
}

#[test]
fn resolve_path_agrees_with_the_standard_join() {
    let roots = ["/srv/static", "/srv/static/", "/", "", "rel/dir", "./static"];
    let paths = ["/", "/a", "//a/b.txt", "/a/../b", "", "x.y", "/ñ/é.html", "/a/"];
    for root in roots {
        for path in paths {
            let name = if path == "/" { "index.html" } else { path.trim_start_matches('/') };
            let expected = Path::new(root).join(name);
            assert_eq!(Path::new(&resolve_path(root, path)), expected.as_path());
            assert_eq!(resolve_path(root, path), expected.to_str().unwrap());
        }
    }
}

#[test]
fn resolve_path_agrees_with_the_standard_join_on_every_short_root_and_path() {
    let alphabet = ['a', '.', '/'];
    let mut texts: Vec<String> = vec![String::new()];
    let mut from = 0;
    for _ in 0..4 {
        let until = texts.len();
        for at in from..until {
            for c in alphabet {
                let mut longer = texts[at].clone();
                longer.push(c);
                texts.push(longer);
            }
        }
        from = until;
    }
    assert_eq!(texts.len(), 121);
    for root in &texts {
        for path in &texts {
            let name = if path == "/" { "index.html" } else { path.trim_start_matches('/') };
            let expected = Path::new(root).join(name);
            assert_eq!(resolve_path(root, path), expected.to_str().unwrap());
        }
    }
}

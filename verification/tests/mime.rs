use concurrent_static_server::utils::file_extension;
use concurrent_static_server::utils::mime_for;
use concurrent_static_server::utils::mime_for_extension;
use std::path::Path;

#[test]
fn mime_for_knows_each_listed_extension() {
    assert_eq!(mime_for("/srv/index.html"), "text/html; charset=utf-8");
    assert_eq!(mime_for("notes.txt"), "text/plain; charset=utf-8");
    assert_eq!(mime_for("/a/b/data.json"), "application/json");
    assert_eq!(mime_for("logo.png"), "image/png");
    assert_eq!(mime_for("photo.jpg"), "image/jpeg");
    assert_eq!(mime_for("photo.jpeg"), "image/jpeg");
    assert_eq!(mime_for("site.css"), "text/css");
    assert_eq!(mime_for("app.js"), "application/javascript");
}

#[test]
fn mime_for_falls_back_to_octet_stream() {
    assert_eq!(mime_for("archive.tar.gz"), "application/octet-stream");
    assert_eq!(mime_for("README"), "application/octet-stream");
    assert_eq!(mime_for(""), "application/octet-stream");
    assert_eq!(mime_for("/srv/static/"), "application/octet-stream");
    assert_eq!(mime_for("/"), "application/octet-stream");
    assert_eq!(mime_for("."), "application/octet-stream");
}

#[test]
fn mime_for_uses_the_last_dot_of_the_last_segment() {
    assert_eq!(mime_for("a.txt.html"), "text/html; charset=utf-8");
    assert_eq!(mime_for("/dir.html/file"), "application/octet-stream");
    assert_eq!(mime_for("/dir.html/file.css"), "text/css");
}

#[test]
fn mime_for_treats_dot_files_as_having_no_extension() {
    assert_eq!(mime_for(".html"), "application/octet-stream");
    assert_eq!(mime_for("/srv/.txt"), "application/octet-stream");
    assert_eq!(mime_for(".."), "application/octet-stream");
    assert_eq!(mime_for("/srv/.."), "application/octet-stream");
    assert_eq!(mime_for(".hidden.json"), "application/json");
    assert_eq!(mime_for("name."), "application/octet-stream");
}

#[test]
fn mime_for_compares_extensions_exactly() {
    assert_eq!(mime_for("INDEX.HTML"), "application/octet-stream");
    assert_eq!(mime_for("a.htm"), "application/octet-stream");
    assert_eq!(mime_for("a.html "), "application/octet-stream");
}

#[test]
fn mime_for_extension_maps_each_extension() {
    assert_eq!(mime_for_extension("html"), "text/html; charset=utf-8");
    assert_eq!(mime_for_extension("txt"), "text/plain; charset=utf-8");
    assert_eq!(mime_for_extension("json"), "application/json");
    assert_eq!(mime_for_extension("png"), "image/png");
    assert_eq!(mime_for_extension("jpg"), "image/jpeg");
    assert_eq!(mime_for_extension("jpeg"), "image/jpeg");
    assert_eq!(mime_for_extension("css"), "text/css");
    assert_eq!(mime_for_extension("js"), "application/javascript");
    assert_eq!(mime_for_extension(""), "application/octet-stream");
    assert_eq!(mime_for_extension("exe"), "application/octet-stream");
}

#[test]
fn mime_for_agrees_with_the_standard_extension_on_file_paths() {
    let paths = [
        "/srv/static/index.html",
        "a.b.c.png",
        ".bashrc",
        "..",
        "/x/..",
        "/x/.a.css",
        "noext",
        "/d.js/noext",
        "trailing.",
        "/ñ/é.txt",
        "..js",
        "...",
        "a.html/",
        "dir.html/.",
        "a.css//./",
        "/",
        "",
        ".",
        "./a.js",
        "a.png/..",
    ];
    for path in paths {
        let extension = Path::new(path).extension().and_then(|s| s.to_str()).unwrap_or("");
        assert_eq!(mime_for(path), mime_for_extension(extension));
    }
}

#[test]
fn mime_for_passes_over_trailing_separators_and_dot_segments() {
    assert_eq!(mime_for("a.html/"), "text/html; charset=utf-8");
    assert_eq!(mime_for("dir.html/."), "text/html; charset=utf-8");
    assert_eq!(mime_for("/srv/site.css//"), "text/css");
    assert_eq!(mime_for("/srv/app.js/./"), "application/javascript");
    assert_eq!(mime_for("/srv/data.json/.//./"), "application/json");
    assert_eq!(mime_for("notes.txt/.."), "application/octet-stream");
    assert_eq!(mime_for("notes.txt/../"), "application/octet-stream");
    assert_eq!(mime_for("x.png/.hidden"), "application/octet-stream");
}

#[test]
fn file_extension_is_what_follows_the_last_dot_of_the_file_name() {
    assert_eq!(file_extension("/srv/static/index.html"), Some("html"));
    assert_eq!(file_extension("archive.tar.gz"), Some("gz"));
    assert_eq!(file_extension("a.html/"), Some("html"));
    assert_eq!(file_extension("dir.html/."), Some("html"));
    assert_eq!(file_extension("name."), Some(""));
    assert_eq!(file_extension("..."), Some(""));
    assert_eq!(file_extension("..js"), Some("js"));
    assert_eq!(file_extension("/ñ/é.txt"), Some("txt"));
}

#[test]
fn file_extension_is_none_without_a_name_or_a_dot_inside_it() {
    for path in ["", "/", ".", "..", "./", "/.", "a/..", "a.b/..", "Makefile", ".bashrc", "/d.js/x", "//"] {
        assert_eq!(file_extension(path), None);
    }
}

#[test]
fn file_extension_agrees_with_the_standard_library_on_every_short_path() {
    let alphabet = ['a', 'b', '.', '/'];
    let mut paths: Vec<String> = vec![String::new()];
    let mut from = 0;
    for _ in 0..7 {
        let until = paths.len();
        for at in from..until {
            for c in alphabet {
                let mut longer = paths[at].clone();
                longer.push(c);
                paths.push(longer);
            }
        }
        from = until;
    }
    assert_eq!(paths.len(), 21845);
    for path in &paths {
        let expected = Path::new(path).extension().and_then(|s| s.to_str());
        assert_eq!(file_extension(path), expected);
        assert_eq!(mime_for(path), mime_for_extension(expected.unwrap_or("")));
    }
}

use server::http::{check_content, is_get, is_stray_line, request_path, Parse, Reply, Route};

fn lines(text: &[&str]) -> Vec<String> {
    text.iter().map(|l| l.to_string()).collect()
}

#[test]
fn content_type_by_extension() {
    assert_eq!(check_content(&"file.html".to_string()), "text/html");
    assert_eq!(check_content(&"file.css".to_string()), "text/css");
    assert_eq!(check_content(&"foo.bar".to_string()), "text/plain");
    assert_eq!(check_content(&"".to_string()), "text/plain");
    assert_eq!(check_content(&".css".to_string()), "text/css");
    assert_eq!(check_content(&"style.css.html".to_string()), "text/html");
}

#[test]
fn get_is_recognised_on_bytes() {
    assert!(is_get(b"GET / HTTP/1.1"));
    assert!(!is_get(b"POST / HTTP/1.1"));
    assert!(!is_get(b"GE"));
    assert!(!is_get(b"get / HTTP/1.1"));
}

#[test]
fn path_is_second_field() {
    assert_eq!(request_path("GET /index.html HTTP/1.1\r\n"), Some("/index.html".to_string()));
    assert_eq!(request_path("GET / HTTP/1.1"), Some("/".to_string()));
    assert_eq!(request_path("GET /a"), Some("/a".to_string()));
    assert_eq!(request_path("GET"), None);
    assert_eq!(request_path("GET  HTTP/1.1"), None);
}

#[test]
fn config_names_pages() {
    let p = Parse::new(&lines(&["# pages", "index: home.html", "404: missing.html", ""])).unwrap();
    assert!(p.index_configured());
    assert!(p.not_found_configured());
    match p.route("/") {
        Route::File { name, status, content_type } => {
            assert_eq!(name, "home.html");
            assert_eq!(status, "200 OK");
            assert_eq!(content_type, "text/html");
        }
        Route::Fixed(_) => panic!("expected a file"),
    }
    match p.missing() {
        Route::File { name, status, content_type } => {
            assert_eq!(name, "missing.html");
            assert_eq!(status, "404 NOT FOUND");
            assert_eq!(content_type, "text/html");
        }
        Route::Fixed(_) => panic!("expected a file"),
    }
}

#[test]
fn later_config_lines_win() {
    let p = Parse::new(&lines(&["index: a.html", "index: b.css extra"])).unwrap();
    match p.route("/") {
        Route::File { name, content_type, .. } => {
            assert_eq!(name, "b.css");
            assert_eq!(content_type, "text/css");
        }
        Route::Fixed(_) => panic!("expected a file"),
    }
    assert!(!p.not_found_configured());
}

#[test]
fn directive_without_value_is_malformed() {
    assert!(Parse::new(&lines(&["index:home.html"])).is_none());
    assert!(Parse::new(&lines(&["404:"])).is_none());
    assert!(Parse::new(&lines(&[])).is_some());
}

#[test]
fn stray_config_lines() {
    assert!(is_stray_line("garbage"));
    assert!(!is_stray_line("# comment"));
    assert!(!is_stray_line(""));
    assert!(!is_stray_line("index: a.html"));
    assert!(!is_stray_line("404: b.html"));
}

#[test]
fn root_without_any_page_is_built_in() {
    let p = Parse::new(&lines(&[])).unwrap();
    match p.route("/") {
        Route::Fixed(r) => {
            assert_eq!(r.status, "200 OK");
            assert_eq!(r.content_type, "text/html");
            assert_eq!(r.body, "<!DOCTYPE html><html><body>No index file</body></html>");
        }
        Route::File { .. } => panic!("expected the built-in page"),
    }
    match p.missing() {
        Route::Fixed(r) => {
            assert_eq!(r.status, "404 NOT FOUND");
            assert_eq!(r.body, "<!DOCTYPE html><html><body>No 404 file</body></html>");
        }
        Route::File { .. } => panic!("expected the built-in page"),
    }
}

#[test]
fn root_with_only_not_found_page_uses_default_index() {
    let p = Parse::new(&lines(&["404: nf.html"])).unwrap();
    match p.route("/") {
        Route::File { name, content_type, .. } => {
            assert_eq!(name, "dummy.html");
            assert_eq!(content_type, "text/html");
        }
        Route::Fixed(_) => panic!("expected a file"),
    }
}

#[test]
fn other_paths_drop_leading_slash() {
    let p = Parse::new(&lines(&["index: home.html"])).unwrap();
    match p.route("/css/site.css") {
        Route::File { name, status, content_type } => {
            assert_eq!(name, "css/site.css");
            assert_eq!(status, "200 OK");
            assert_eq!(content_type, "text/css");
        }
        Route::Fixed(_) => panic!("expected a file"),
    }
    match p.route("/notes.txt") {
        Route::File { content_type, .. } => assert_eq!(content_type, "text/plain"),
        Route::Fixed(_) => panic!("expected a file"),
    }
}

#[test]
fn copy_keeps_pages() {
    let p = Parse::new(&lines(&["index: home.html"])).unwrap();
    let q = p.make_copy();
    assert_eq!(q.index_configured(), p.index_configured());
    assert_eq!(q.not_found_configured(), p.not_found_configured());
    match q.route("/") {
        Route::File { name, .. } => assert_eq!(name, "home.html"),
        Route::Fixed(_) => panic!("expected a file"),
    }
}

#[test]
fn response_text_layout() {
    let r = Reply {
        status: "200 OK".to_string(),
        content_type: "text/html".to_string(),
        body: "<p>hi</p>".to_string(),
    };
    assert_eq!(r.response(), "HTTP/1.1 200 OK\r\nContent-Type: text/html\r\n\r\n<p>hi</p>");
}

use chairgap::webview::{
    contains_parent_ref, local_file_content_type, local_file_relative_path, local_file_url_path,
    script_message_handler_names, LocalFileHandler, WebView, WebViewEvent, WebViewLoadURLError,
};

#[test]
fn url_path_extraction() {
    assert_eq!(local_file_url_path("deskgap://local-file/a/b.html"), Some("a/b.html"));
    assert_eq!(local_file_url_path("deskgap://local-file///a/b.html?x=1?y"), Some("a/b.html"));
    assert_eq!(local_file_url_path("deskgap://local-file/"), Some(""));
    assert_eq!(local_file_url_path("deskgap://local-file/?q"), Some(""));
    assert_eq!(local_file_url_path("deskgap://local-fil"), None);
    assert_eq!(local_file_url_path("https://local-file/a"), None);
    assert_eq!(local_file_url_path("DESKGAP://local-file/a"), None);
}

#[test]
fn relative_path_decoding() {
    assert_eq!(
        local_file_relative_path("deskgap://local-file/dir/my%20file.html"),
        Some("dir/my file.html".to_string())
    );
    assert_eq!(
        local_file_relative_path("deskgap://local-file/%E4%B8%AD%E6%96%87.txt"),
        Some("中文.txt".to_string())
    );
    assert_eq!(local_file_relative_path("deskgap://local-file/100%"), Some("100%".to_string()));
    assert_eq!(local_file_relative_path("deskgap://local-file/%zz"), Some("%zz".to_string()));
    assert_eq!(local_file_relative_path("deskgap://local-file/%FF"), None);
    assert_eq!(local_file_relative_path("deskgap://local-file/../etc/passwd"), None);
    assert_eq!(local_file_relative_path("deskgap://local-file/a/%2E%2E/b"), None);
    assert_eq!(local_file_relative_path("deskgap://local-file/a.b/.c"), Some("a.b/.c".to_string()));
    assert_eq!(local_file_relative_path("deskgap://other/a"), None);
}

#[test]
fn query_and_slashes_do_not_change_the_file() {
    let plain = local_file_relative_path("deskgap://local-file/a/b.js");
    assert_eq!(local_file_relative_path("deskgap://local-file/a/b.js?v=2"), plain);
    assert_eq!(local_file_relative_path("deskgap://local-file//a/b.js"), plain);
}

#[test]
fn parent_refs() {
    assert!(contains_parent_ref(".."));
    assert!(contains_parent_ref("a/../b"));
    assert!(contains_parent_ref("a..b"));
    assert!(!contains_parent_ref("a/./b"));
    assert!(!contains_parent_ref("."));
    assert!(!contains_parent_ref(""));
}

#[test]
fn handler_needs_a_root() {
    let mut handler = LocalFileHandler::new(None);
    assert!(handler.resolve("deskgap://local-file/index.html").is_none());
    handler.set_root_dir(Some("/srv/app".to_string()));
    let req = handler.resolve("deskgap://local-file/index.html").unwrap();
    assert_eq!(req.root_dir, "/srv/app");
    assert_eq!(req.relative_path, "index.html");
}

#[test]
fn web_view_defaults_and_events() {
    let mut wv = WebView::new();
    assert!(wv.devtools_enabled());
    assert_eq!(wv.custom_schemes(), &vec!["deskgap".to_string()]);
    let req = wv.local_file_request("deskgap://local-file/x.css").unwrap();
    assert_eq!(req.root_dir, "");
    assert_eq!(req.relative_path, "x.css");
    wv.set_root_dir(None);
    assert!(wv.local_file_request("deskgap://local-file/x.css").is_none());
    wv.set_root_dir(Some("/r".to_string()));
    let ev = WebViewEvent::CustomSchemeRequest("deskgap://local-file/y".to_string());
    assert_eq!(wv.handle_event(&ev).unwrap().relative_path, "y");
    assert!(wv.handle_event(&WebViewEvent::ScriptMessage("hi".to_string())).is_none());
    assert!(wv.handle_event(&WebViewEvent::DocumentTitleChanged("t".to_string())).is_none());
    wv.load_file("ignored");
}

#[test]
fn load_url_outcome_and_error_text() {
    assert_eq!(WebView::load_url_outcome(true), Ok(()));
    assert_eq!(WebView::load_url_outcome(false), Err(WebViewLoadURLError));
    assert_eq!(WebViewLoadURLError.message(), "Invalid format of URL");
    assert_eq!(local_file_content_type(), "hello");
    assert_eq!(script_message_handler_names(), vec!["stringMessage".to_string(), "windowDrag".to_string()]);
}

#[test]
fn plain_paths_ask_for_themselves() {
    assert_eq!(
        local_file_relative_path("deskgap://local-file/css/site.min.css"),
        Some("css/site.min.css".to_string())
    );
    assert_eq!(local_file_relative_path("deskgap://local-file/中文/ü.txt"), Some("中文/ü.txt".to_string()));
}

use file_server::response::{candidate_filename, status_filename, ErrorPage};

#[test]
fn root_path_serves_landing_page() {
    let (status, file) = status_filename("GET / HTTP/1.1".to_string(), false);
    assert_eq!(status, "HTTP/1.1 200 OK");
    assert_eq!(file, "public/welcome.html");
}

#[test]
fn root_path_needs_no_candidate() {
    assert_eq!(candidate_filename(&"GET / HTTP/1.1".to_string()), None);
}

#[test]
fn missing_file_resolves_to_not_found() {
    let (status, file) = status_filename("GET /missing HTTP/1.1".to_string(), false);
    assert_eq!(status, "HTTP/1.1 404 NOT FOUND");
    assert_eq!(file, "public/404.html");
}

#[test]
fn traversal_path_is_rejected() {
    let (status, file) = status_filename("GET /../etc/passwd HTTP/1.1".to_string(), true);
    assert_eq!(status, "HTTP/1.1 403 PERMISSION DENIED");
    assert_eq!(file, "public/403.html");
}

#[test]
fn traversal_path_never_reaches_disk() {
    assert_eq!(candidate_filename(&"GET /../etc/passwd HTTP/1.1".to_string()), None);
    assert_eq!(candidate_filename(&"GET /a..b HTTP/1.1".to_string()), None);
}

#[test]
fn line_without_two_tokens_resolves_to_not_found() {
    let (status, file) = status_filename("GARBAGE".to_string(), true);
    assert_eq!(status, "HTTP/1.1 404");
    assert_eq!(file, "public/404.html");
    let (status, file) = status_filename("".to_string(), true);
    assert_eq!(status, "HTTP/1.1 404");
    assert_eq!(file, "public/404.html");
}

#[test]
fn extension_is_appended_when_missing() {
    assert_eq!(
        candidate_filename(&"GET /about HTTP/1.1".to_string()),
        Some("public/about.html".to_string())
    );
    let (status, file) = status_filename("GET /about HTTP/1.1".to_string(), true);
    assert_eq!(status, "HTTP/1.1 200 OK");
    assert_eq!(file, "public/about.html");
}

#[test]
fn existing_extension_is_kept() {
    assert_eq!(
        candidate_filename(&"GET /img/logo.png HTTP/1.1".to_string()),
        Some("public/img/logo.png".to_string())
    );
}

#[test]
fn hidden_file_counts_as_extensionless() {
    assert_eq!(
        candidate_filename(&"GET /.hidden HTTP/1.1".to_string()),
        Some("public/.hidden.html".to_string())
    );
}

#[test]
fn candidate_exists_serves_the_file() {
    let (status, file) = status_filename("GET /notes.txt HTTP/1.1".to_string(), true);
    assert_eq!(status, "HTTP/1.1 200 OK");
    assert_eq!(file, "public/notes.txt");
}

#[test]
fn error_pages_name_their_files_and_statuses() {
    assert_eq!(ErrorPage::NotFound.path(), "public/404.html");
    assert_eq!(ErrorPage::NotFound.status(), "HTTP/1.1 404 NOT FOUND");
    assert_eq!(ErrorPage::PermissionDenied.path(), "public/403.html");
    assert_eq!(ErrorPage::PermissionDenied.status(), "HTTP/1.1 403 PERMISSION DENIED");
    assert_eq!(ErrorPage::InternalServerError.path(), "public/500.html");
    assert_eq!(ErrorPage::InternalServerError.status(), "HTTP/1.1 500 INTERNAL SERVER ERROR");
}

#[test]
fn extra_whitespace_between_tokens_is_skipped() {
    let (status, file) = status_filename("GET   /   HTTP/1.1".to_string(), false);
    assert_eq!(status, "HTTP/1.1 200 OK");
    assert_eq!(file, "public/welcome.html");
}

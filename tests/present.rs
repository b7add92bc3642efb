use httpstat::{
    body_plan, body_preview, connection_info, split_header_line, text_lines, BodyAction,
    BodyPlan, HeaderLine, BODY_PREVIEW_LIMIT,
};

#[test]
fn body_of_exactly_limit_is_whole() {
    let body = vec![b'a'; 1024];
    let p = body_preview(&body);
    assert!(!p.truncated);
    assert_eq!(p.shown, body);
}

#[test]
fn body_over_limit_is_cut() {
    let mut body = vec![b'a'; 1024];
    body.push(b'z');
    let p = body_preview(&body);
    assert!(p.truncated);
    assert_eq!(p.shown, vec![b'a'; BODY_PREVIEW_LIMIT]);
}

#[test]
fn empty_body_preview() {
    let p = body_preview(&[]);
    assert!(!p.truncated);
    assert!(p.shown.is_empty());
}

#[test]
fn body_file_removed_when_neither_shown_nor_saved() {
    assert_eq!(body_plan(false, false), BodyPlan { action: BodyAction::Nothing, delete_file: true });
}

#[test]
fn body_plan_other_cases() {
    assert_eq!(body_plan(true, true), BodyPlan { action: BodyAction::Print, delete_file: false });
    assert_eq!(body_plan(true, false), BodyPlan { action: BodyAction::Print, delete_file: true });
    assert_eq!(body_plan(false, true), BodyPlan { action: BodyAction::ReportPath, delete_file: false });
}

#[test]
fn header_split_at_first_colon() {
    assert_eq!(
        split_header_line("Location: http://a:8080/"),
        HeaderLine::Field { name: "Location:".to_string(), value: " http://a:8080/".to_string() }
    );
    assert_eq!(
        split_header_line("HTTP/1.1 200 OK"),
        HeaderLine::Plain { text: "HTTP/1.1 200 OK".to_string() }
    );
    assert_eq!(
        split_header_line(":"),
        HeaderLine::Field { name: ":".to_string(), value: String::new() }
    );
}

#[test]
fn lines_split_like_headers_file() {
    assert_eq!(
        text_lines("HTTP/1.1 200 OK\r\nServer: x\r\n\r\n"),
        vec!["HTTP/1.1 200 OK", "Server: x", ""]
    );
    assert_eq!(text_lines("a\nb"), vec!["a", "b"]);
    assert_eq!(text_lines("a\r"), vec!["a\r"]);
    assert_eq!(text_lines("\n"), vec![""]);
    assert!(text_lines("").is_empty());
}

#[test]
fn connection_line() {
    assert_eq!(
        connection_info("10.0.0.2", 54321, "93.184.216.34", 443),
        "10.0.0.2:54321  \u{21c4}  93.184.216.34:443"
    );
    assert_eq!(connection_info("", 0, "::1", 65535), ":0  \u{21c4}  ::1:65535");
}

use httpstat::{
    arg_conflicts, check_client_exit, client_args, is_disallowed_arg, parse_command_line,
    validate_extra_args, Invocation, RunError, GENERIC_FAILURE, WRITE_OUT_FORMAT,
};

fn strings(v: &[&str]) -> Vec<String> {
    v.iter().map(|s| s.to_string()).collect()
}

#[test]
fn rejects_each_output_flag_alone() {
    for flag in ["-o", "--output=foo", "-s", "--silent"] {
        let r = validate_extra_args(&strings(&[flag]));
        assert_eq!(r, Err(RunError::DisallowedFlag { position: 0 }), "{flag}");
        assert_eq!(r.unwrap_err().exit_code(), GENERIC_FAILURE);
    }
}

#[test]
fn rejects_all_denied_forms() {
    for flag in [
        "-w", "-D", "-o", "-s", "--write-out", "--dump-header", "--output", "--silent",
        "-w=x", "--write-out=%{json}", "--dump-header=h.txt", "-D=",
    ] {
        assert!(is_disallowed_arg(flag), "{flag}");
    }
}

#[test]
fn accepts_unrelated_flags() {
    for arg in ["-L", "-sS", "--output-dir", "--silently", "-o2", "-H", "X-A: b", "", "-"] {
        assert!(!is_disallowed_arg(arg), "{arg}");
    }
    assert_eq!(validate_extra_args(&strings(&["-L", "-H", "Accept: */*"])), Ok(()));
    assert_eq!(validate_extra_args(&[]), Ok(()));
}

#[test]
fn names_first_disallowed_position() {
    let r = validate_extra_args(&strings(&["-L", "-v", "--silent", "-o"]));
    assert_eq!(r, Err(RunError::DisallowedFlag { position: 2 }));
    assert_eq!(
        r.unwrap_err().message(),
        "Error: One or more disallowed flags used"
    );
}

#[test]
fn conflict_is_exact_or_assignment() {
    assert!(arg_conflicts("--output", "--output"));
    assert!(arg_conflicts("--output=a", "--output"));
    assert!(!arg_conflicts("--outputs", "--output"));
    assert!(!arg_conflicts("--out", "--output"));
}

#[test]
fn help_without_url_or_with_help_flag() {
    assert_eq!(parse_command_line(&strings(&["httpstat"])), Invocation::Help);
    assert_eq!(parse_command_line(&strings(&["httpstat", "--help"])), Invocation::Help);
    assert_eq!(parse_command_line(&strings(&["httpstat", "-h", "x"])), Invocation::Help);
}

#[test]
fn run_takes_url_and_passthrough() {
    let r = parse_command_line(&strings(&["httpstat", "https://example.com", "-L", "-k"]));
    assert_eq!(
        r,
        Invocation::Run {
            url: "https://example.com".to_string(),
            extra_args: strings(&["-L", "-k"]),
        }
    );
}

#[test]
fn client_args_in_order() {
    let args = client_args("/tmp/h", "/tmp/b", 10, &strings(&["-L"]), "http://example.com");
    let expected = strings(&[
        "-w",
        WRITE_OUT_FORMAT,
        "-D",
        "/tmp/h",
        "-o",
        "/tmp/b",
        "-sS",
        "--max-time",
        "10",
        "-L",
        "http://example.com",
    ]);
    assert_eq!(args, expected);
}

#[test]
fn write_out_format_names_every_metric() {
    let tokens = [
        "time_namelookup", "time_connect", "time_appconnect", "time_pretransfer",
        "time_redirect", "time_starttransfer", "time_total", "speed_download",
        "speed_upload", "remote_ip", "remote_port", "local_ip", "local_port",
    ];
    let mut last = 0;
    for t in tokens {
        let at = WRITE_OUT_FORMAT.find(&format!("%{{{t}}}")).expect(t);
        assert!(at >= last);
        last = at;
    }
}

#[test]
fn resolution_failure_is_fatal_with_client_code() {
    let r = check_client_exit(false, Some(6), "curl: (6) Could not resolve host: nowhere".to_string());
    let e = r.unwrap_err();
    assert_eq!(e.exit_code(), 6);
    assert_eq!(e.message(), "Curl error: curl: (6) Could not resolve host: nowhere");
}

#[test]
fn client_exit_success_and_signal() {
    assert_eq!(check_client_exit(true, Some(0), String::new()), Ok(()));
    let e = check_client_exit(false, None, "killed".to_string()).unwrap_err();
    assert_eq!(e.exit_code(), GENERIC_FAILURE);
}

#[test]
fn parse_and_io_messages() {
    let e = RunError::Parse { detail: "EOF while parsing".to_string() };
    assert_eq!(e.message(), "JSON error: EOF while parsing");
    assert_eq!(e.exit_code(), 1);
    let e = RunError::Io { detail: "no space".to_string() };
    assert_eq!(e.message(), "no space");
}

#[test]
fn write_out_format_is_single_line_json() {
    assert!(!WRITE_OUT_FORMAT.contains('\n'));
    let mut filled = WRITE_OUT_FORMAT.to_string();
    for (token, value) in [
        ("time_namelookup", "0.001"), ("time_connect", "0.002"), ("time_appconnect", "0.003"),
        ("time_pretransfer", "0.004"), ("time_redirect", "0"), ("time_starttransfer", "0.005"),
        ("time_total", "0.006"), ("speed_download", "100"), ("speed_upload", "0"),
        ("remote_ip", "1.2.3.4"), ("remote_port", "443"), ("local_ip", "10.0.0.1"),
        ("local_port", "5000"),
    ] {
        filled = filled.replace(&format!("%{{{token}}}"), value);
    }
    let v: serde_json::Value = serde_json::from_str(&filled).unwrap();
    let obj = v.as_object().unwrap();
    assert_eq!(obj.len(), 13);
    assert_eq!(obj["remote_ip"].as_str(), Some("1.2.3.4"));
    assert_eq!(obj["local_port"].as_u64(), Some(5000));
}

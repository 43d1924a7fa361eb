use bridge_adapter::args::build_args;
use bridge_adapter::outcome::interpret_output;
use bridge_adapter::outcome::spawn_failure_message;
use bridge_adapter::outcome::status_code_text;
use bridge_adapter::request::InvocationRequest;

fn request(
    input: &str,
    dry_run: bool,
    no_email: bool,
    config_path: Option<&str>,
) -> InvocationRequest {
    InvocationRequest {
        input: input.to_string(),
        dry_run,
        no_email,
        config_path: config_path.map(|c| c.to_string()),
    }
}

#[test]
fn dry_run_without_config() {
    let args = build_args(&request("data.csv", true, false, None));
    assert_eq!(args, vec!["--dry-run".to_string(), "-i".to_string(), "data.csv".to_string()]);
}

#[test]
fn no_email_with_config() {
    let args = build_args(&request("data.csv", false, true, Some("env.toml")));
    assert_eq!(
        args,
        vec![
            "--no-email".to_string(),
            "-i".to_string(),
            "data.csv".to_string(),
            "--config".to_string(),
            "env.toml".to_string(),
        ]
    );
}

#[test]
fn both_flags_in_fixed_order() {
    let args = build_args(&request("run-42", true, true, None));
    assert_eq!(
        args,
        vec![
            "--dry-run".to_string(),
            "--no-email".to_string(),
            "-i".to_string(),
            "run-42".to_string(),
        ]
    );
}

#[test]
fn no_flags_at_all() {
    let args = build_args(&request("x", false, false, None));
    assert_eq!(args, vec!["-i".to_string(), "x".to_string()]);
}

#[test]
fn input_with_spaces_and_quotes_survives_as_one_element() {
    let args = build_args(&request("my file \"quoted\" $HOME", false, false, None));
    assert_eq!(args.len(), 2);
    assert_eq!(args[0], "-i");
    assert_eq!(args[1], "my file \"quoted\" $HOME");
}

#[test]
fn config_pair_is_trailing() {
    let args = build_args(&request("in", true, true, Some("conf dir/env.toml")));
    assert_eq!(args[args.len() - 2], "--config");
    assert_eq!(args[args.len() - 1], "conf dir/env.toml");
}

#[test]
fn no_config_element_when_absent() {
    let args = build_args(&request("data.csv", true, true, None));
    assert!(args.iter().all(|a| a != "--config"));
}

#[test]
fn output_with_text_and_zero_status() {
    let result = interpret_output(b"done\n".to_vec(), Vec::new(), Some(0));
    assert_eq!(result.stdout, "done\n");
    assert_eq!(result.stderr, "");
    assert_eq!(result.status, "0");
}

#[test]
fn nonzero_exit_code_is_reported_as_text() {
    let result = interpret_output(Vec::new(), b"error: bad input".to_vec(), Some(2));
    assert_eq!(result.stdout, "");
    assert_eq!(result.stderr, "error: bad input");
    assert_eq!(result.status, "2");
}

#[test]
fn signal_termination_gives_empty_status() {
    let result = interpret_output(b"partial".to_vec(), Vec::new(), None);
    assert_eq!(result.stdout, "partial");
    assert_eq!(result.stderr, "");
    assert_eq!(result.status, "");
}

#[test]
fn invalid_utf8_stream_becomes_empty_text() {
    let result = interpret_output(vec![0xff, 0xfe, 0x20], b"ok".to_vec(), Some(1));
    assert_eq!(result.stdout, "");
    assert_eq!(result.stderr, "ok");
    assert_eq!(result.status, "1");
}

#[test]
fn invalid_utf8_on_stderr_only() {
    let result = interpret_output(b"kept".to_vec(), vec![0xc0, 0x80], Some(3));
    assert_eq!(result.stdout, "kept");
    assert_eq!(result.stderr, "");
    assert_eq!(result.status, "3");
}

#[test]
fn multi_byte_utf8_is_decoded() {
    let result = interpret_output("héllo ✓".as_bytes().to_vec(), Vec::new(), Some(0));
    assert_eq!(result.stdout, "héllo ✓");
}

#[test]
fn multi_digit_and_negative_status_codes() {
    assert_eq!(status_code_text(Some(123456)), "123456");
    assert_eq!(status_code_text(Some(10)), "10");
    assert_eq!(status_code_text(Some(-17)), "-17");
    assert_eq!(status_code_text(Some(i32::MAX)), "2147483647");
    assert_eq!(status_code_text(Some(i32::MIN)), "-2147483648");
    assert_eq!(status_code_text(None), "");
}

#[test]
fn spawn_failure_message_carries_detail() {
    let m = spawn_failure_message("No such file or directory (os error 2)");
    assert_eq!(m, "failed to spawn bridge-cli: No such file or directory (os error 2)");
    assert!(m.contains("failed to spawn"));
}

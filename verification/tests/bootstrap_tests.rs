use rezprox::bootstrap::{flag_matches, host_from_config, invocation_ok, listen_addr, strip_newlines};

#[test]
fn strip_trailing_newline() {
    assert_eq!(strip_newlines("10.1.2.3\n"), "10.1.2.3");
}

#[test]
fn strip_no_newline() {
    assert_eq!(strip_newlines("10.1.2.3"), "10.1.2.3");
}

#[test]
fn strip_inner_and_trailing_newlines() {
    assert_eq!(strip_newlines("a\nb\n\nc\n"), "abc");
}

#[test]
fn strip_empty() {
    assert_eq!(strip_newlines(""), "");
}

#[test]
fn host_from_present_config_line() {
    assert_eq!(host_from_config(Some(String::from("192.168.1.9\n"))), "192.168.1.9");
}

#[test]
fn host_default_when_config_missing() {
    assert_eq!(host_from_config(None), "127.0.0.1");
}

#[test]
fn listen_addr_appends_ephemeral_port() {
    assert_eq!(listen_addr("127.0.0.1"), "127.0.0.1:0");
}

#[test]
fn flag_accepts_dash_c() {
    assert!(flag_matches("-c"));
}

#[test]
fn flag_rejects_others() {
    assert!(!flag_matches("-x"));
    assert!(!flag_matches("c"));
    assert!(!flag_matches(""));
    assert!(!flag_matches("-cc"));
}

#[test]
fn invocation_needs_three_args_and_flag() {
    let good = vec![
        String::from("rezprox"),
        String::from("-c"),
        String::from("/tmp"),
    ];
    assert!(invocation_ok(&good));
    let bad_flag = vec![
        String::from("rezprox"),
        String::from("-d"),
        String::from("/tmp"),
    ];
    assert!(!invocation_ok(&bad_flag));
    let too_few = vec![String::from("rezprox"), String::from("-c")];
    assert!(!invocation_ok(&too_few));
    let too_many = vec![
        String::from("rezprox"),
        String::from("-c"),
        String::from("/tmp"),
        String::from("extra"),
    ];
    assert!(!invocation_ok(&too_many));
}

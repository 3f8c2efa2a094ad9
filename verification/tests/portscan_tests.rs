use suzent::portscan::scan_port_line;
use suzent::shim::{shim_needs_exec_bit, shim_rel_path, shim_script};

#[test]
fn scan_plain_marker_line() {
    assert_eq!(scan_port_line("SERVER_PORT:54321"), Some(54321));
}

#[test]
fn scan_marker_with_surrounding_text() {
    assert_eq!(scan_port_line("INFO  SERVER_PORT: 8080  up"), Some(8080));
    assert_eq!(scan_port_line("prefix SERVER_PORT:443"), Some(443));
}

#[test]
fn scan_honors_first_occurrence_only() {
    assert_eq!(scan_port_line("SERVER_PORT:1111 SERVER_PORT:2222"), Some(1111));
}

#[test]
fn scan_rejects_bad_tokens() {
    assert_eq!(scan_port_line("no marker here"), None);
    assert_eq!(scan_port_line("SERVER_PORT:"), None);
    assert_eq!(scan_port_line("SERVER_PORT:abc"), None);
    assert_eq!(scan_port_line("SERVER_PORT:70000"), None);
    assert_eq!(scan_port_line("SERVER_PORT:12x"), None);
    assert_eq!(scan_port_line(""), None);
}

#[test]
fn scan_tolerates_whitespace_after_marker() {
    assert_eq!(scan_port_line("SERVER_PORT:\t 9090"), Some(9090));
}

#[test]
fn shim_paths_per_platform() {
    assert_eq!(shim_rel_path(false), "bin/suzent");
    assert_eq!(shim_rel_path(true), "bin/suzent.cmd");
    assert!(shim_needs_exec_bit(false));
    assert!(!shim_needs_exec_bit(true));
}

#[test]
fn shim_script_content() {
    assert_eq!(
        shim_script("/v/bin/python", false),
        "#!/bin/sh\nexec \"/v/bin/python\" -m suzent.cli \"$@\""
    );
    assert_eq!(
        shim_script("C:/v/Scripts/python.exe", true),
        "@echo off\r\n\"C:/v/Scripts/python.exe\" -m suzent.cli %*"
    );
}

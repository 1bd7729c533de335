use cortex_core::sidecar::{parse_port, scan_line, worker_env, LineVerdict};

#[test]
fn marker_line_gives_port() {
    assert_eq!(scan_line("HONO_PORT:8080"), LineVerdict::Port(8080));
    assert_eq!(scan_line("HONO_PORT: 4321 \t"), LineVerdict::Port(4321));
    assert_eq!(scan_line("HONO_PORT:+7"), LineVerdict::Port(7));
    assert_eq!(scan_line("HONO_PORT:65535"), LineVerdict::Port(65535));
    assert_eq!(scan_line("HONO_PORT:0"), LineVerdict::Port(0));
}

#[test]
fn malformed_marker_line() {
    assert_eq!(scan_line("HONO_PORT:"), LineVerdict::Malformed);
    assert_eq!(scan_line("HONO_PORT:65536"), LineVerdict::Malformed);
    assert_eq!(scan_line("HONO_PORT:80a"), LineVerdict::Malformed);
    assert_eq!(scan_line("HONO_PORT:-1"), LineVerdict::Malformed);
    assert_eq!(scan_line("HONO_PORT:+"), LineVerdict::Malformed);
    assert_eq!(scan_line("HONO_PORT:8 0"), LineVerdict::Malformed);
}

#[test]
fn other_lines_are_diagnostics() {
    assert_eq!(scan_line(""), LineVerdict::Other);
    assert_eq!(scan_line("listening"), LineVerdict::Other);
    assert_eq!(scan_line(" HONO_PORT:80"), LineVerdict::Other);
    assert_eq!(scan_line("HONO_PORT"), LineVerdict::Other);
    assert_eq!(scan_line("hono_port:80"), LineVerdict::Other);
}

#[test]
fn parse_port_bounds() {
    assert_eq!(parse_port("0"), Some(0));
    assert_eq!(parse_port("00080"), Some(80));
    assert_eq!(parse_port("65535"), Some(65535));
    assert_eq!(parse_port("65536"), None);
    assert_eq!(parse_port("9999999999999"), None);
    assert_eq!(parse_port(""), None);
    assert_eq!(parse_port("+"), None);
    assert_eq!(parse_port("++1"), None);
    assert_eq!(parse_port(" 1"), None);
}

#[test]
fn worker_environment() {
    let env = worker_env(54321, "tok");
    assert_eq!(env.len(), 3);
    assert_eq!(env[0], ("BRIDGE_URL".to_string(), "http://127.0.0.1:54321".to_string()));
    assert_eq!(env[1], ("BRIDGE_TOKEN".to_string(), "tok".to_string()));
    assert_eq!(env[2], ("WORKER_PORT".to_string(), "0".to_string()));
    assert_eq!(worker_env(0, "t")[0].1, "http://127.0.0.1:0");
    assert_eq!(worker_env(9, "t")[0].1, "http://127.0.0.1:9");
    assert_eq!(worker_env(10, "t")[0].1, "http://127.0.0.1:10");
    assert_eq!(worker_env(65535, "t")[0].1, "http://127.0.0.1:65535");
}

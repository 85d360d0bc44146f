use procdash::port_resolver::pid_from_port;

const TABLE: &[u8] = b"State  Recv-Q Send-Q Local Address:Port Peer Address:Port Process\n\
LISTEN 0      128    0.0.0.0:22         0.0.0.0:*     users:((\"sshd\",pid=812,fd=3))\n\
LISTEN 0      511    127.0.0.1:8080     0.0.0.0:*     users:((\"node\",pid=4321,fd=20))\n\
LISTEN 0      511    [::]:8080          [::]:*        users:((\"node\",pid=9999,fd=21))\n";

#[test]
fn finds_first_listener_on_port() {
    assert_eq!(pid_from_port(8080, TABLE), Some("4321".to_string()));
    assert_eq!(pid_from_port(22, TABLE), Some("812".to_string()));
}

#[test]
fn no_listener_gives_none() {
    assert_eq!(pid_from_port(5432, TABLE), None);
    assert_eq!(pid_from_port(8080, b""), None);
}

#[test]
fn line_without_pid_is_skipped() {
    let t = b"LISTEN 0 5 0.0.0.0:3000 0.0.0.0:*\nLISTEN 0 5 0.0.0.0:3000 0.0.0.0:* users:((\"x\",pid=77,fd=1))\n";
    assert_eq!(pid_from_port(3000, t), Some("77".to_string()));
}

#[test]
fn marker_without_digits_is_skipped() {
    let t = b"LISTEN *:9000 pid=abc\nLISTEN *:9000 pid=5\n";
    assert_eq!(pid_from_port(9000, t), Some("5".to_string()));
}

#[test]
fn last_line_without_newline_is_read() {
    assert_eq!(pid_from_port(7, b"x :7 pid=123"), Some("123".to_string()));
}

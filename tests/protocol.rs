use teranex_ctl::error::ClientError;
use teranex_ctl::mode::VideoMode;
use teranex_ctl::protocol::{
    check_reply, encode_line, encode_request, finish_burst, video_mode_command, ReadEnd,
    IDLE_TIMEOUT_MS, PORT,
};

#[test]
fn reply_must_start_with_ack_line() {
    assert_eq!(check_reply("ACK\nOK\n"), Ok(()));
    assert_eq!(check_reply("ACK\n"), Ok(()));
    assert_eq!(check_reply("NAK\n"), Err(ClientError::RequestFailed));
    assert_eq!(check_reply(""), Err(ClientError::RequestFailed));
    assert_eq!(check_reply("ACK"), Err(ClientError::RequestFailed));
    assert_eq!(check_reply("ACK OK\n"), Err(ClientError::RequestFailed));
    assert_eq!(check_reply("ack\n"), Err(ClientError::RequestFailed));
    assert_eq!(check_reply("NAK: unsupported\n"), Err(ClientError::RequestFailed));
}

#[test]
fn burst_ends_by_timeout_only() {
    let dump = String::from("STATUS DUMP\n");
    assert_eq!(finish_burst(dump.clone(), ReadEnd::IdleTimeout), Ok(dump));
    assert_eq!(finish_burst(String::new(), ReadEnd::IdleTimeout), Ok(String::new()));
    assert_eq!(
        finish_burst(String::from("partial"), ReadEnd::EndOfStream),
        Err(ClientError::ConnectionDropped)
    );
    assert_eq!(
        finish_burst(String::from("x"), ReadEnd::Failed(String::from("reset"))),
        Err(ClientError::ReadFailed(String::from("reset")))
    );
}

#[test]
fn lines_end_with_newline() {
    assert_eq!(encode_line("VIDEO OUTPUT:"), "VIDEO OUTPUT:\n");
    assert_eq!(encode_line(""), "\n");
}

#[test]
fn video_mode_request_text() {
    let lines = video_mode_command(&VideoMode::Mode1080p59_94);
    assert_eq!(lines, vec![String::from("VIDEO OUTPUT:"), String::from("Video mode: 1080p59.94")]);
    assert_eq!(encode_request(&lines), "VIDEO OUTPUT:\nVideo mode: 1080p59.94\n\n");
    let ntsc = video_mode_command(&VideoMode::Mode525i59_94);
    assert_eq!(encode_request(&ntsc), "VIDEO OUTPUT:\nVideo mode: 525i59.94 NTSC\n\n");
    assert_eq!(encode_request(&Vec::new()), "\n");
}

#[test]
fn connection_settings() {
    assert_eq!(PORT, 9800);
    assert_eq!(IDLE_TIMEOUT_MS, 2000);
}

#[test]
fn error_messages() {
    assert_eq!(ClientError::RequestFailed.message(), "request failed");
    assert_eq!(ClientError::ConnectionDropped.message(), "connection dropped");
    assert_eq!(ClientError::ReadFailed(String::from("reset")).message(), "reading failed: reset");
    assert_eq!(ClientError::WriteFailed(String::from("pipe")).message(), "writing failed: pipe");
    assert_eq!(ClientError::Connect(String::from("refused")).message(), "connection failed: refused");
    assert_eq!(ClientError::InvalidMode.message(), "invalid video mode");
}

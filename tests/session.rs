use teranex_ctl::error::ClientError;
use teranex_ctl::mode::VideoMode;
use teranex_ctl::protocol::{finish_burst, video_mode_command, ReadEnd};
use teranex_ctl::session::{Action, Event, Phase, Session};

/// Runs a session against a scripted device: `dump` and `reply` are the two
/// bursts it sends, `closed` makes it drop the connection after the dump.
fn run(mode: VideoMode, reply: &str, closed: bool) -> (Action, String) {
    let (mut session, mut action) = Session::new(video_mode_command(&mode));
    let mut written = String::new();
    let mut reads = 0;
    loop {
        let event = match action {
            Action::Read => {
                reads += 1;
                if reads == 1 {
                    Event::Burst(finish_burst(String::from("STATUS DUMP\n"), ReadEnd::IdleTimeout))
                } else if closed {
                    Event::Burst(finish_burst(String::new(), ReadEnd::EndOfStream))
                } else {
                    Event::Burst(finish_burst(String::from(reply), ReadEnd::IdleTimeout))
                }
            }
            Action::Write(text) => {
                written.push_str(&text);
                Event::Sent(Ok(()))
            }
            done => {
                assert_eq!(session.phase, Phase::Finished);
                return (done, written);
            }
        };
        action = session.step(event);
    }
}

#[test]
fn acknowledged_command_succeeds() {
    let (action, written) = run(VideoMode::Mode1080p59_94, "ACK\n", false);
    assert_eq!(action, Action::Succeed);
    assert_eq!(written, "VIDEO OUTPUT:\nVideo mode: 1080p59.94\n\n");
}

#[test]
fn rejected_command_fails() {
    let (action, written) = run(VideoMode::Mode1080p59_94, "NAK: unsupported\n", false);
    assert_eq!(action, Action::Fail(ClientError::RequestFailed));
    assert_eq!(written, "VIDEO OUTPUT:\nVideo mode: 1080p59.94\n\n");
}

#[test]
fn silent_device_fails_without_error() {
    let (action, _) = run(VideoMode::Mode720p50, "", false);
    assert_eq!(action, Action::Fail(ClientError::RequestFailed));
}

#[test]
fn closed_after_dump_drops_connection() {
    let (action, _) = run(VideoMode::Mode1080p59_94, "ACK\n", true);
    assert_eq!(action, Action::Fail(ClientError::ConnectionDropped));
}

#[test]
fn failed_drain_ends_session() {
    let (mut session, action) = Session::new(video_mode_command(&VideoMode::Mode2160p60));
    assert_eq!(action, Action::Read);
    let next = session.step(Event::Burst(finish_burst(String::new(), ReadEnd::EndOfStream)));
    assert_eq!(next, Action::Fail(ClientError::ConnectionDropped));
    assert_eq!(session.phase, Phase::Finished);
}

#[test]
fn failed_write_ends_session() {
    let (mut session, _) = Session::new(video_mode_command(&VideoMode::Mode2160p60));
    let first = session.step(Event::Burst(Ok(String::from("dump"))));
    assert_eq!(first, Action::Write(String::from("VIDEO OUTPUT:\n")));
    let next = session.step(Event::Sent(Err(String::from("broken pipe"))));
    assert_eq!(next, Action::Fail(ClientError::WriteFailed(String::from("broken pipe"))));
    assert_eq!(session.phase, Phase::Finished);
}

#[test]
fn set_video_mode() {
    for mode in VideoMode::all() {
        let (action, written) = run(mode, "ACK\n", false);
        assert_eq!(action, Action::Succeed);
        let expected = format!("VIDEO OUTPUT:\nVideo mode: {}\n\n", mode.protocol_name());
        assert_eq!(written, expected);
    }
}

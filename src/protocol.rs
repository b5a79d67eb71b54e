use vstd::prelude::*;

use crate::error::ClientError;
use crate::mode::{wire_name, VideoMode};

verus! {

/// TCP port on which the converter listens for control connections.
pub const PORT: u16 = 9800;

/// How long a read waits for more bytes before a reply counts as complete.
pub const IDLE_TIMEOUT_MS: u64 = 2000;

/// How a read of the socket came to an end.
#[derive(Debug, PartialEq, Eq)]
pub enum ReadEnd {
    /// No byte arrived for the idle timeout: the device is done for now.
    IdleTimeout,
    /// The device closed the connection.
    EndOfStream,
    /// The socket failed; holds the system's reason.
    Failed(String),
}

/// Whether a reply begins with the `ACK` token and a line end.
pub open spec fn is_ack(reply: Seq<char>) -> bool {
    reply.len() >= 4 && reply[0] == 'A' && reply[1] == 'C' && reply[2] == 'K' && reply[3] == '\n'
}

/// A line as it goes on the wire: its text and a line end.
pub open spec fn line_text(line: Seq<char>) -> Seq<char> {
    line.push('\n')
}

/// The text of a sequence of lines, each with its line end.
pub open spec fn lines_text(lines: Seq<Seq<char>>) -> Seq<char>
    decreases lines.len(),
{
    if lines.len() == 0 {
        Seq::empty()
    } else {
        lines_text(lines.drop_last()) + line_text(lines.last())
    }
}

/// A command as it goes on the wire: its lines, then an empty line.
pub open spec fn request_text(lines: Seq<Seq<char>>) -> Seq<char> {
    lines_text(lines) + line_text(Seq::empty())
}

/// The views of a vector of strings.
pub open spec fn views(v: Seq<String>) -> Seq<Seq<char>> {
    v.map_values(|s: String| s@)
}

/// The lines of the command that sets the output video mode.
pub open spec fn video_mode_lines(mode: VideoMode) -> Seq<Seq<char>> {
    seq!["VIDEO OUTPUT:"@, "Video mode: "@ + wire_name(mode)]
}

/// Ends a burst read. The text read so far is the reply when the device went
/// quiet; a closed connection or a socket failure is an error instead.
pub fn finish_burst(text: String, end: ReadEnd) -> (r: Result<String, ClientError>)
    ensures
        end == ReadEnd::IdleTimeout ==> (r matches Ok(t) && t@ == text@),
        end == ReadEnd::EndOfStream ==> r == Err::<String, ClientError>(
            ClientError::ConnectionDropped,
        ),
        forall|m: String|
            end == ReadEnd::Failed(m) ==> r == Err::<String, ClientError>(
                ClientError::ReadFailed(m),
            ),
{
    match end {
        ReadEnd::IdleTimeout => Ok(text),
        ReadEnd::EndOfStream => Err(ClientError::ConnectionDropped),
        ReadEnd::Failed(m) => Err(ClientError::ReadFailed(m)),
    }
}

/// Accepts a reply that begins with `ACK` and a line end; anything else,
/// the empty reply included, is `RequestFailed`.
pub fn check_reply(reply: &str) -> (r: Result<(), ClientError>)
    ensures
        r is Ok <==> is_ack(reply@),
        r is Err ==> r == Err::<(), ClientError>(ClientError::RequestFailed),
{
    if reply.unicode_len() >= 4 && reply.get_char(0) == 'A' && reply.get_char(1) == 'C'
        && reply.get_char(2) == 'K' && reply.get_char(3) == '\n' {
        Ok(())
    } else {
        Err(ClientError::RequestFailed)
    }
}

/// A line with its line end, as it is written to the device.
pub fn encode_line(line: &str) -> (r: String)
    ensures
        r@ == line_text(line@),
{
    let mut r = String::from_str(line);
    r.append("\n");
    proof {
        reveal_strlit("\n");
    }
    assert(r@ =~= line_text(line@));
    r
}

/// The text of a command: each line with its line end, then an empty line.
pub fn encode_request(lines: &Vec<String>) -> (r: String)
    ensures
        r@ == request_text(views(lines@)),
{
    let mut r = String::new();
    let mut i: usize = 0;
    while i < lines.len()
        invariant
            i <= lines@.len(),
            r@ == lines_text(views(lines@.subrange(0, i as int))),
        decreases lines@.len() - i,
    {
        let l = encode_line(lines[i].as_str());
        r.append(l.as_str());
        assert(views(lines@.subrange(0, i + 1)).drop_last() =~= views(lines@.subrange(0, i as int)));
        i = i + 1;
    }
    assert(lines@.subrange(0, lines@.len() as int) =~= lines@);
    let end = encode_line("");
    proof {
        reveal_strlit("");
    }
    r.append(end.as_str());
    r
}

/// The lines of the command that sets the output video mode to `mode`.
pub fn video_mode_command(mode: &VideoMode) -> (r: Vec<String>)
    ensures
        views(r@) == video_mode_lines(*mode),
{
    let mut second = String::from_str("Video mode: ");
    let name = mode.protocol_name();
    second.append(name.as_str());
    let r = vec![String::from_str("VIDEO OUTPUT:"), second];
    assert(views(r@) =~= video_mode_lines(*mode));
    r
}

} // verus!

//! Transport commands for the external player and their wire form: each
//! command is one or more line-delimited JSON requests
//! `{"command":[verb, args...]}` sent over its own connection; queries come
//! back as whole seconds.

use vstd::prelude::*;
use crate::text::{append_chars, chars_of, decimal, decimal_chars, digit_char, text_from_chars};

verus! {

/// A transport command for the player process.
#[derive(Clone, Copy, Debug, PartialEq, Eq, Structural)]
pub enum MpvCommand {
    /// Pause (`true`) or resume (`false`).
    TogglePause(bool),
    /// Position and duration, as display text.
    GetProgress,
    /// Position in whole seconds.
    GetPosition,
    /// Seek by a signed number of seconds, relative to the position.
    Seek(i32),
}

/// What a command gives back.
#[derive(Clone, Debug)]
pub enum MpvCommandFeedback {
    Void,
    String(String),
    Int(i32),
}

pub open spec fn seek_request(target: i32) -> Seq<char> {
    "{\"command\":[\"seek\",\""@ + decimal(target as int) + "\",\"relative\"]}"@
}

pub open spec fn pause_request(paused: bool) -> Seq<char> {
    "{\"command\":[\"set_property\",\"pause\","@ + (if paused {
        "true"@
    } else {
        "false"@
    }) + "]}"@
}

pub open spec fn position_request() -> Seq<char> {
    "{\"command\":[\"get_property\",\"playback-time\"]}"@
}

pub open spec fn duration_request() -> Seq<char> {
    "{\"command\":[\"get_property\",\"duration\"]}"@
}

/// The requests a command sends, one per connection, in order.
pub open spec fn requests_of(c: MpvCommand) -> Seq<Seq<char>> {
    match c {
        MpvCommand::Seek(t) => seq![seek_request(t)],
        MpvCommand::TogglePause(p) => seq![pause_request(p)],
        MpvCommand::GetPosition => seq![position_request()],
        MpvCommand::GetProgress => seq![position_request(), duration_request()],
    }
}

/// Whether the replies to a command's requests are read back.
pub open spec fn expects_replies(c: MpvCommand) -> bool {
    c == MpvCommand::GetPosition || c == MpvCommand::GetProgress
}

/// Division by 60 rounding toward zero, as Rust's `/` does.
pub open spec fn minutes_of(s: int) -> int {
    if s >= 0 {
        s / 60
    } else {
        -((-s) / 60)
    }
}

/// The remainder that goes with `minutes_of`, signed like `s`.
pub open spec fn seconds_of(s: int) -> int {
    s - minutes_of(s) * 60
}

/// A number padded with zeros to two characters, as `{:02}` writes it.
pub open spec fn pad2(n: int) -> Seq<char> {
    if 0 <= n < 10 {
        seq!['0', digit_char(n)]
    } else {
        decimal(n)
    }
}

/// `mm:ss` for a number of seconds.
pub open spec fn progress_text(s: int) -> Seq<char> {
    pad2(minutes_of(s)) + seq![':'] + pad2(seconds_of(s))
}

fn pad2_chars(n: i64) -> (r: Vec<char>)
    requires
        n > i64::MIN,
    ensures
        r@ == pad2(n as int),
{
    let mut r: Vec<char> = Vec::new();
    if 0 <= n && n < 10 {
        r.push('0');
        let d = decimal_chars(n);
        assert(d@ == seq![digit_char(n as int)]);
        r.push(d[0]);
        assert(r@ =~= seq!['0', digit_char(n as int)]);
        r
    } else {
        decimal_chars(n)
    }
}

fn progress_chars(seconds: i32) -> (r: Vec<char>)
    ensures
        r@ == progress_text(seconds as int),
{
    let s = seconds as i64;
    let minutes: i64 = if s >= 0 {
        s / 60
    } else {
        -((-s) / 60)
    };
    let secs: i64 = s - minutes * 60;
    let mut r = pad2_chars(minutes);
    r.push(':');
    let tail = pad2_chars(secs);
    append_chars(&mut r, &tail);
    r
}

/// `mm:ss` for a number of seconds, each part padded with zeros to two
/// characters (`75` gives `01:15`).
pub fn progress_formatted(seconds: i32) -> (r: String)
    ensures
        r@ == progress_text(seconds as int),
{
    text_from_chars(&progress_chars(seconds))
}

fn literal(s: &str) -> (r: Vec<char>)
    ensures
        r@ == s@,
{
    chars_of(s)
}

impl MpvCommand {
    /// The JSON requests this command sends, one per connection, in order.
    pub fn requests(&self) -> (r: Vec<String>)
        ensures
            r@.len() == requests_of(*self).len(),
            forall|i: int| 0 <= i < r@.len() ==> #[trigger] r@[i]@ == requests_of(*self)[i],
    {
        let mut r: Vec<String> = Vec::new();
        match self {
            MpvCommand::Seek(target) => {
                let mut cs = literal("{\"command\":[\"seek\",\"");
                let n = decimal_chars(*target as i64);
                append_chars(&mut cs, &n);
                let tail = literal("\",\"relative\"]}");
                append_chars(&mut cs, &tail);
                r.push(text_from_chars(&cs));
            },
            MpvCommand::TogglePause(paused) => {
                let mut cs = literal("{\"command\":[\"set_property\",\"pause\",");
                let value = if *paused {
                    literal("true")
                } else {
                    literal("false")
                };
                append_chars(&mut cs, &value);
                let tail = literal("]}");
                append_chars(&mut cs, &tail);
                r.push(text_from_chars(&cs));
            },
            MpvCommand::GetPosition => {
                r.push(text_from_chars(&literal("{\"command\":[\"get_property\",\"playback-time\"]}")));
            },
            MpvCommand::GetProgress => {
                r.push(text_from_chars(&literal("{\"command\":[\"get_property\",\"playback-time\"]}")));
                r.push(text_from_chars(&literal("{\"command\":[\"get_property\",\"duration\"]}")));
            },
        }
        r
    }

    /// Whether the replies to the requests are to be read back.
    pub fn expects_replies(&self) -> (r: bool)
        ensures
            r == expects_replies(*self),
    {
        match self {
            MpvCommand::GetPosition | MpvCommand::GetProgress => true,
            _ => false,
        }
    }

    /// The command's feedback from the player's replies, one whole number of
    /// seconds per request when the command expects replies: the position
    /// for `GetPosition`, `position / duration` as `mm:ss / mm:ss` for
    /// `GetProgress`, nothing for the others.
    pub fn run(&self, replies: &Vec<i32>) -> (r: MpvCommandFeedback)
        requires
            expects_replies(*self) ==> replies.len() == requests_of(*self).len(),
        ensures
            match *self {
                MpvCommand::GetPosition => r matches MpvCommandFeedback::Int(n) && n == replies@[0],
                MpvCommand::GetProgress => r matches MpvCommandFeedback::String(t) && t@
                    == progress_text(replies@[0] as int) + " / "@ + progress_text(
                    replies@[1] as int,
                ),
                _ => r is Void,
            },
    {
        match self {
            MpvCommand::GetPosition => MpvCommandFeedback::Int(replies[0]),
            MpvCommand::GetProgress => {
                let mut cs = progress_chars(replies[0]);
                let sep = literal(" / ");
                append_chars(&mut cs, &sep);
                let total = progress_chars(replies[1]);
                append_chars(&mut cs, &total);
                MpvCommandFeedback::String(text_from_chars(&cs))
            },
            _ => MpvCommandFeedback::Void,
        }
    }
}

} // verus!

//! The daemon's line-oriented control protocol: one command per line, one
//! fixed reply per command.

use crate::shutdown::ShutdownSignal;
use vstd::prelude::*;

verus! {

/// A control command, as recognised on one line of input.
#[derive(Clone, Copy, Debug, PartialEq, Eq, Structural)]
pub enum Command {
    /// Ask whether the daemon is alive.
    Status,
    /// Ask the daemon to shut down.
    Stop,
    /// Any other text.
    Unknown,
}

/// Whether `c` has the Unicode `White_Space` property.
pub open spec fn is_whitespace(c: char) -> bool {
    let n = c as u32;
    (0x09 <= n <= 0x0D) || n == 0x20 || n == 0x85 || n == 0xA0 || n == 0x1680 || (0x2000 <= n
        <= 0x200A) || n == 0x2028 || n == 0x2029 || n == 0x202F || n == 0x205F || n == 0x3000
}

/// `s` without its leading white space.
pub open spec fn trim_start(s: Seq<char>) -> Seq<char>
    decreases s.len(),
{
    if s.len() > 0 && is_whitespace(s[0]) {
        trim_start(s.drop_first())
    } else {
        s
    }
}

/// `s` without its trailing white space.
pub open spec fn trim_end(s: Seq<char>) -> Seq<char>
    decreases s.len(),
{
    if s.len() > 0 && is_whitespace(s.last()) {
        trim_end(s.drop_last())
    } else {
        s
    }
}

/// `s` without the white space at either end.
pub open spec fn trimmed(s: Seq<char>) -> Seq<char> {
    trim_end(trim_start(s))
}

/// The command that a line of input stands for.
pub open spec fn command_of(line: Seq<char>) -> Command {
    let word = trimmed(line);
    if word == "status"@ {
        Command::Status
    } else if word == "stop"@ {
        Command::Stop
    } else {
        Command::Unknown
    }
}

/// The reply owed to a command, newline included.
pub open spec fn reply_text(command: Command) -> Seq<char> {
    match command {
        Command::Status => "daemon running normally\n"@,
        Command::Stop => "stopping\n"@,
        Command::Unknown => "unknown command\n"@,
    }
}

/// Decides whether a character is white space.
pub fn char_is_whitespace(c: char) -> (b: bool)
    ensures
        b == is_whitespace(c),
{
    let n: u32 = c as u32;
    (0x09 <= n && n <= 0x0D) || n == 0x20 || n == 0x85 || n == 0xA0 || n == 0x1680 || (0x2000 <= n
        && n <= 0x200A) || n == 0x2028 || n == 0x2029 || n == 0x202F || n == 0x205F || n == 0x3000
}

/// The characters of a string slice, in order.
fn chars_of(s: &str) -> (v: Vec<char>)
    ensures
        v@ == s@,
{
    let mut v: Vec<char> = Vec::new();
    for c in it: s.chars()
        invariant
            v@ == it.seq().take(it.index() as int),
    {
        v.push(c);
    }
    v
}

/// The bounds of what is left of `chars` once the white space at both ends
/// is set aside.
fn trim_bounds(chars: &Vec<char>) -> (bounds: (usize, usize))
    ensures
        bounds.0 <= bounds.1 <= chars.len(),
        chars@.subrange(bounds.0 as int, bounds.1 as int) == trimmed(chars@),
{
    let len = chars.len();
    let mut start: usize = 0;
    assert(chars@ =~= chars@.subrange(0, len as int));
    while start < len && char_is_whitespace(chars[start])
        invariant
            start <= len == chars.len(),
            trim_start(chars@) == trim_start(chars@.subrange(start as int, len as int)),
        decreases len - start,
    {
        assert(chars@.subrange(start as int, len as int).drop_first() == chars@.subrange(
            start + 1,
            len as int,
        ));
        start += 1;
    }
    let ghost body = chars@.subrange(start as int, len as int);
    assert(trim_start(chars@) == body);
    let mut end: usize = len;
    while end > start && char_is_whitespace(chars[end - 1])
        invariant
            start <= end <= len == chars.len(),
            body == chars@.subrange(start as int, len as int),
            trim_end(body) == trim_end(chars@.subrange(start as int, end as int)),
        decreases end,
    {
        assert(chars@.subrange(start as int, end as int).drop_last() == chars@.subrange(
            start as int,
            end - 1,
        ));
        end -= 1;
    }
    (start, end)
}

/// Whether the characters of `chars` between `start` and `end` spell `word`.
fn spells(chars: &Vec<char>, start: usize, end: usize, word: &str) -> (same: bool)
    requires
        start <= end <= chars.len(),
    ensures
        same == (chars@.subrange(start as int, end as int) == word@),
{
    let letters = chars_of(word);
    let ghost part = chars@.subrange(start as int, end as int);
    if letters.len() != end - start {
        return false;
    }
    let mut i: usize = 0;
    while i < letters.len()
        invariant
            start <= end <= chars.len(),
            letters.len() == end - start,
            letters@ == word@,
            part == chars@.subrange(start as int, end as int),
            i <= letters.len(),
            forall|k: int| 0 <= k < i ==> part[k] == letters@[k],
        decreases letters.len() - i,
    {
        assert(part[i as int] == chars@[start + i]);
        if chars[start + i] != letters[i] {
            return false;
        }
        i += 1;
    }
    assert(part =~= letters@);
    true
}

/// Reads one line of input as a command: the line is trimmed of white space
/// and compared with the two known words.
pub fn parse_command(line: &str) -> (command: Command)
    ensures
        command == command_of(line@),
{
    let chars = chars_of(line);
    let (start, end) = trim_bounds(&chars);
    if spells(&chars, start, end, "status") {
        Command::Status
    } else if spells(&chars, start, end, "stop") {
        Command::Stop
    } else {
        Command::Unknown
    }
}

/// The reply sent back for a command.
pub fn reply_for(command: Command) -> (reply: String)
    ensures
        reply@ == reply_text(command),
{
    match command {
        Command::Status => "daemon running normally\n".to_owned(),
        Command::Stop => "stopping\n".to_owned(),
        Command::Unknown => "unknown command\n".to_owned(),
    }
}

/// Handles one line received on a control connection. A stop command raises
/// the shutdown signal before the reply is produced; no other line touches
/// the signal.
pub fn handle_line(signal: &mut ShutdownSignal, line: &str) -> (reply: String)
    ensures
        reply@ == reply_text(command_of(line@)),
        final(signal).raised() == (old(signal).raised() || command_of(line@) == Command::Stop),
{
    let command = parse_command(line);
    if command == Command::Stop {
        signal.trigger();
    }
    reply_for(command)
}

} // verus!

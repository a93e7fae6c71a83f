//! Which messages invoke a command.
//!
//! A message invokes a command when its text is the prefix, directly followed
//! by the command's name, and the name ends the text or is followed by
//! whitespace. Nothing may stand before the prefix or between prefix and name,
//! and letter case counts.

use crate::config::{command_prefix, prefix_chars};
use vstd::prelude::*;
use vstd::string::*;

verus! {

/// The commands the bot knows.
#[derive(Clone, Copy, Debug, PartialEq, Eq, Structural)]
pub enum Command {
    Ping,
}

impl Command {
    /// The name by which a message invokes the command.
    pub open spec fn name_chars(self) -> Seq<char> {
        match self {
            Command::Ping => "ping"@,
        }
    }

    /// The name by which a message invokes the command.
    pub fn name(&self) -> (name: &'static str)
        ensures
            name@ == self.name_chars(),
    {
        match self {
            Command::Ping => "ping",
        }
    }
}

/// The characters with the Unicode property `White_Space`.
pub open spec fn is_whitespace(c: char) -> bool {
    let code = c as u32;
    ||| 0x09 <= code <= 0x0D
    ||| code == 0x20
    ||| code == 0x85
    ||| code == 0xA0
    ||| code == 0x1680
    ||| 0x2000 <= code <= 0x200A
    ||| code == 0x2028
    ||| code == 0x2029
    ||| code == 0x202F
    ||| code == 0x205F
    ||| code == 0x3000
}

/// Whether `c` ends a command name.
pub fn whitespace(c: char) -> (white: bool)
    ensures
        white == is_whitespace(c),
{
    let code: u32 = c as u32;
    (0x09 <= code && code <= 0x0D) || code == 0x20 || code == 0x85 || code == 0xA0 || code
        == 0x1680 || (0x2000 <= code && code <= 0x200A) || code == 0x2028 || code == 0x2029
        || code == 0x202F || code == 0x205F || code == 0x3000
}

/// `content` is the prefix and `name`, then nothing more or whitespace.
pub open spec fn invokes(content: Seq<char>, name: Seq<char>) -> bool {
    let head = prefix_chars() + name;
    &&& head.is_prefix_of(content)
    &&& content.len() == head.len() || is_whitespace(content[head.len() as int])
}

/// The command that a message with the text `content` invokes, if any.
pub open spec fn recognized(content: Seq<char>) -> Option<Command> {
    if invokes(content, Command::Ping.name_chars()) {
        Some(Command::Ping)
    } else {
        None
    }
}

/// Whether the text `content` invokes the command called `name`.
fn invokes_name(content: &str, name: &str) -> (hit: bool)
    ensures
        hit == invokes(content@, name@),
{
    let head = String::from_str(command_prefix()).concat(name);
    let head = head.as_str();
    let wanted = head.unicode_len();
    let given = content.unicode_len();
    if given < wanted {
        return false;
    }
    let mut i: usize = 0;
    while i < wanted
        invariant
            0 <= i <= wanted <= given,
            head@ == prefix_chars() + name@,
            wanted == head@.len(),
            given == content@.len(),
            head@.take(i as int) == content@.take(i as int),
        decreases wanted - i,
    {
        if content.get_char(i) != head.get_char(i) {
            assert(!head@.is_prefix_of(content@)) by {
                let same = content@.subrange(0, head@.len() as int);
                assert(same[i as int] == content@[i as int]);
            }
            return false;
        }
        assert(head@.take(i + 1) == head@.take(i as int).push(head@[i as int]));
        assert(content@.take(i + 1) == content@.take(i as int).push(content@[i as int]));
        i = i + 1;
    }
    assert(head@ == head@.take(wanted as int));
    given == wanted || whitespace(content.get_char(wanted))
}

/// Finds the command that a message with the text `content` invokes.
pub fn recognize(content: &str) -> (found: Option<Command>)
    ensures
        found == recognized(content@),
{
    if invokes_name(content, Command::Ping.name()) {
        Some(Command::Ping)
    } else {
        None
    }
}

} // verus!

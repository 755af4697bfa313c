//! The text commands of the bot: how a message is read as a command, and the
//! list of commands that `/help` shows.

use vstd::prelude::*;
use vstd::string::StringExecFns;
use crate::text::{
    ascii_lower_char, ascii_lowercase, chars_of, lower_ascii_char, same_ignoring_ascii_case,
    same_text,
};

verus! {

/// The commands that the bot knows.
#[derive(Debug, Clone, Copy, PartialEq, Eq, Structural)]
pub enum Command {
    /// Lists the commands.
    Help,
    /// Shows the main menu.
    Start,
}

impl Command {
    /// The word after the `/` that calls the command.
    pub open spec fn name(self) -> Seq<char> {
        match self {
            Command::Help => "help"@,
            Command::Start => "start"@,
        }
    }

    /// What the list of commands says about the command.
    pub open spec fn description(self) -> Seq<char> {
        match self {
            Command::Help => "Display this text"@,
            Command::Start => "Show the main menu"@,
        }
    }

    /// The command as it is typed: `/` and its name.
    pub open spec fn typed(self) -> Seq<char> {
        "/"@ + self.name()
    }

    /// The command's line in the list of commands.
    pub open spec fn line(self) -> Seq<char> {
        self.typed() + " — "@ + self.description()
    }

    /// The word after the `/` that calls the command.
    pub fn as_str(self) -> (r: &'static str)
        ensures
            r@ == self.name(),
    {
        match self {
            Command::Help => "help",
            Command::Start => "start",
        }
    }

    /// What the list of commands says about the command.
    pub fn description_str(self) -> (r: &'static str)
        ensures
            r@ == self.description(),
    {
        match self {
            Command::Help => "Display this text",
            Command::Start => "Show the main menu",
        }
    }
}

/// The list of commands: one line for each, `/help` first.
pub open spec fn descriptions_text() -> Seq<char> {
    Command::Help.line() + "\n"@ + Command::Start.line()
}

/// Appends the line of `command` to `out`.
fn push_line(out: &mut String, command: Command)
    ensures
        final(out)@ == old(out)@ + command.line(),
{
    out.append("/");
    out.append(command.as_str());
    out.append(" — ");
    out.append(command.description_str());
    assert(out@ =~= old(out)@ + command.line());
}

/// The list of commands, as `/help` shows it.
pub fn descriptions() -> (r: String)
    ensures
        r@ == descriptions_text(),
{
    let mut out = String::new();
    push_line(&mut out, Command::Help);
    out.append("\n");
    push_line(&mut out, Command::Start);
    assert(out@ =~= descriptions_text());
    out
}

/// Where `c` first stands in `s`, or the length of `s` where it does not
/// occur.
pub open spec fn first_index(s: Seq<char>, c: char) -> int
    decreases s.len(),
{
    if s.len() == 0 || s[0] == c {
        0
    } else {
        1 + first_index(s.drop_first(), c)
    }
}

/// `first_index(s, c)` is the one position before which `c` does not occur
/// and at which either `c` stands or `s` ends.
pub proof fn lemma_first_index(s: Seq<char>, c: char, p: int)
    requires
        0 <= p <= s.len(),
        forall|j: int| 0 <= j < p ==> s[j] != c,
        p < s.len() ==> s[p] == c,
    ensures
        first_index(s, c) == p,
    decreases s.len(),
{
    if s.len() == 0 || s[0] == c {
    } else {
        let rest = s.drop_first();
        assert forall|j: int| 0 <= j < p - 1 implies rest[j] != c by {
            assert(rest[j] == s[j + 1]);
        }
        lemma_first_index(rest, c, p - 1);
    }
}

/// The part of a message that may hold a command: everything before the
/// first space.
pub open spec fn head_of(text: Seq<char>) -> Seq<char> {
    text.take(first_index(text, ' '))
}

/// The command as the message names it: the head up to its first `@`.
pub open spec fn command_word(text: Seq<char>) -> Seq<char> {
    head_of(text).take(first_index(head_of(text), '@'))
}

/// The bot that the message addresses its command to: what stands between
/// the first `@` of the head and the next one. `None` where the head holds
/// no `@`.
pub open spec fn addressee(text: Seq<char>) -> Option<Seq<char>> {
    let head = head_of(text);
    let at = first_index(head, '@');
    if at < head.len() {
        let rest = head.skip(at + 1);
        Some(rest.take(first_index(rest, '@')))
    } else {
        None
    }
}

/// Why a message is no command of the bot.
#[derive(Debug, Clone, PartialEq, Eq)]
pub enum CommandError {
    /// The command is addressed to another bot, whose name this is.
    WrongBotName(String),
    /// The bot has no command of this name.
    UnknownCommand(String),
}

/// The mathematical value of a [`CommandError`].
pub enum CommandErrorModel {
    WrongBotName(Seq<char>),
    UnknownCommand(Seq<char>),
}

impl View for CommandError {
    type V = CommandErrorModel;

    open spec fn view(&self) -> CommandErrorModel {
        match self {
            CommandError::WrongBotName(name) => CommandErrorModel::WrongBotName(name@),
            CommandError::UnknownCommand(word) => CommandErrorModel::UnknownCommand(word@),
        }
    }
}

/// How the bot named `bot_name` reads `text`. A command addressed to another
/// bot is refused before its name is looked at; the names of the bots are
/// compared without regard to the case of ASCII letters, the commands
/// exactly. What follows the first space is not looked at.
pub open spec fn command_of(
    text: Seq<char>,
    bot_name: Seq<char>,
) -> Result<Command, CommandErrorModel> {
    let word = command_word(text);
    if addressee(text) is Some && !same_ignoring_ascii_case(addressee(text)->0, bot_name) {
        Err(CommandErrorModel::WrongBotName(addressee(text)->0))
    } else if word == Command::Help.typed() {
        Ok(Command::Help)
    } else if word == Command::Start.typed() {
        Ok(Command::Start)
    } else {
        Err(CommandErrorModel::UnknownCommand(word))
    }
}

/// The first position from `from` on, and before `to`, at which `c` stands
/// in `chars`; `to` where there is none.
fn position_of(chars: &Vec<char>, from: usize, to: usize, c: char) -> (p: usize)
    requires
        from <= to <= chars@.len(),
    ensures
        p == from + first_index(chars@.subrange(from as int, to as int), c),
        from <= p <= to,
{
    let mut i: usize = from;
    while i < to && chars[i] != c
        invariant
            from <= i <= to <= chars@.len(),
            forall|j: int| from <= j < i ==> chars@[j] != c,
        decreases to - i,
    {
        i = i + 1;
    }
    proof {
        lemma_first_index(chars@.subrange(from as int, to as int), c, i - from);
    }
    i
}

/// Whether `a[from..to]` and `b` are the same but for the case of ASCII
/// letters.
fn matches_ignoring_ascii_case(a: &Vec<char>, from: usize, to: usize, b: &Vec<char>) -> (r: bool)
    requires
        from <= to <= a@.len(),
    ensures
        r == same_ignoring_ascii_case(a@.subrange(from as int, to as int), b@),
{
    let ghost x = a@.subrange(from as int, to as int);
    if to - from != b.len() {
        assert(ascii_lowercase(x).len() != ascii_lowercase(b@).len());
        return false;
    }
    let mut i: usize = 0;
    while i < b.len()
        invariant
            from <= to <= a@.len(),
            to - from == b@.len(),
            i <= b@.len(),
            x == a@.subrange(from as int, to as int),
            forall|j: int| 0 <= j < i ==> ascii_lower_char(x[j]) == ascii_lower_char(b@[j]),
        decreases b@.len() - i,
    {
        if lower_ascii_char(a[from + i]) != lower_ascii_char(b[i]) {
            assert(ascii_lowercase(x)[i as int] != ascii_lowercase(b@)[i as int]);
            return false;
        }
        i = i + 1;
    }
    assert(ascii_lowercase(x) =~= ascii_lowercase(b@));
    true
}

/// Reads `text` as a command to the bot named `bot_name`.
pub fn parse_command(text: &str, bot_name: &str) -> (r: Result<Command, CommandError>)
    ensures
        r is Ok <==> command_of(text@, bot_name@) is Ok,
        r matches Ok(command) ==> command_of(text@, bot_name@) == Ok::<Command, CommandErrorModel>(
            command,
        ),
        r matches Err(e) ==> command_of(text@, bot_name@) == Err::<Command, CommandErrorModel>(e@),
{
    let chars = chars_of(text);
    let space = position_of(&chars, 0, chars.len(), ' ');
    let at = position_of(&chars, 0, space, '@');
    proof {
        assert(chars@.subrange(0, chars@.len() as int) =~= text@);
        assert(chars@.subrange(0, space as int) =~= head_of(text@));
        assert(chars@.subrange(0, at as int) =~= command_word(text@));
    }
    if at < space {
        let end = position_of(&chars, at + 1, space, '@');
        proof {
            let rest = head_of(text@).skip(at + 1);
            assert(chars@.subrange(at + 1, space as int) =~= rest);
            assert(chars@.subrange(at + 1, end as int) =~= rest.take(first_index(rest, '@')));
        }
        let bot = chars_of(bot_name);
        if !matches_ignoring_ascii_case(&chars, at + 1, end, &bot) {
            let name = text.substring_char(at + 1, end).to_owned();
            return Err(CommandError::WrongBotName(name));
        }
    }
    let word = text.substring_char(0, at);
    proof {
        reveal_strlit("/");
        reveal_strlit("help");
        reveal_strlit("start");
        reveal_strlit("/help");
        reveal_strlit("/start");
        assert("/help"@ =~= Command::Help.typed());
        assert("/start"@ =~= Command::Start.typed());
    }
    if same_text(word, "/help") {
        Ok(Command::Help)
    } else if same_text(word, "/start") {
        Ok(Command::Start)
    } else {
        Err(CommandError::UnknownCommand(word.to_owned()))
    }
}

} // verus!

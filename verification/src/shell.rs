//! A shell to try the drives with.
use vstd::prelude::*;

use crate::cbmtype;
use crate::cbmtype::{CbmError, CbmStatus};
use crate::text;
use crate::text::{same, words};

verus! {

/// What is typed in.
#[derive(Debug)]
pub enum ShellCommand {
    Nothing,
    Quit,
    Identify,
    Status,
    ResetBus,
    ResetUsb,
    /// Send a command to the drive
    Command(String),
    Format { name: String, id: String },
    Help,
    /// The command lacks something; this is how it is used
    Usage(&'static str),
    Unknown,
}

/// What is typed in, with its texts as sequences of characters.
#[verifier::ext_equal]
pub enum ShellCommandView {
    Nothing,
    Quit,
    Identify,
    Status,
    ResetBus,
    ResetUsb,
    Command(Seq<char>),
    Format { name: Seq<char>, id: Seq<char> },
    Help,
    Usage(Seq<char>),
    Unknown,
}

impl View for ShellCommand {
    type V = ShellCommandView;

    open spec fn view(&self) -> ShellCommandView {
        match *self {
            ShellCommand::Nothing => ShellCommandView::Nothing,
            ShellCommand::Quit => ShellCommandView::Quit,
            ShellCommand::Identify => ShellCommandView::Identify,
            ShellCommand::Status => ShellCommandView::Status,
            ShellCommand::ResetBus => ShellCommandView::ResetBus,
            ShellCommand::ResetUsb => ShellCommandView::ResetUsb,
            ShellCommand::Command(s) => ShellCommandView::Command(s@),
            ShellCommand::Format { name, id } => ShellCommandView::Format { name: name@, id: id@ },
            ShellCommand::Help => ShellCommandView::Help,
            ShellCommand::Usage(s) => ShellCommandView::Usage(s@),
            ShellCommand::Unknown => ShellCommandView::Unknown,
        }
    }
}

/// Words with a space between each two.
pub open spec fn joined(parts: Seq<Seq<char>>) -> Seq<char>
    decreases parts.len(),
{
    if parts.len() == 0 {
        Seq::empty()
    } else if parts.len() == 1 {
        parts[0]
    } else {
        joined(parts.drop_last()) + " "@ + parts.last()
    }
}

/// What is meant by words that are typed in.
pub open spec fn command_of(cmd: Seq<Seq<char>>) -> ShellCommandView {
    if cmd.len() == 0 {
        ShellCommandView::Nothing
    } else if cmd[0] == "quit"@ || cmd[0] == "exit"@ || cmd[0] == "q"@ || cmd[0] == "x"@ {
        ShellCommandView::Quit
    } else if cmd[0] == "identify"@ || cmd[0] == "id"@ || cmd[0] == "i"@ {
        ShellCommandView::Identify
    } else if cmd[0] == "status"@ || cmd[0] == "getstatus"@ || cmd[0] == "s"@ {
        ShellCommandView::Status
    } else if cmd[0] == "reset"@ || cmd[0] == "resetbus"@ || cmd[0] == "busreset"@ || cmd[0] == "r"@ || cmd[0] == "b"@ {
        ShellCommandView::ResetBus
    } else if cmd[0] == "u"@ || cmd[0] == "usbreset"@ || cmd[0] == "resetusb"@ {
        ShellCommandView::ResetUsb
    } else if cmd[0] == "command"@ || cmd[0] == "cmd"@ || cmd[0] == "c"@ {
        if cmd.len() < 2 {
            ShellCommandView::Usage("Usage: command <cmd-string>"@)
        } else {
            ShellCommandView::Command(joined(cmd.skip(1)))
        }
    } else if cmd[0] == "format"@ || cmd[0] == "f"@ {
        if cmd.len() != 3 {
            ShellCommandView::Usage("Usage: format <name> <id>"@)
        } else {
            ShellCommandView::Format { name: cmd[1], id: cmd[2] }
        }
    } else if cmd[0] == "help"@ || cmd[0] == "h"@ || cmd[0] == "?"@ {
        ShellCommandView::Help
    } else {
        ShellCommandView::Unknown
    }
}

fn join(parts: &Vec<String>, from: usize) -> (s: String)
    requires
        from < parts@.len(),
    ensures
        s@ == joined(text::texts(parts@).skip(from as int)),
{
    let ghost all = text::texts(parts@).skip(from as int);
    let n: usize = parts.len();
    let mut s = parts[from].clone();
    let mut i: usize = from + 1;
    assert(all.take(1)[0] == parts@[from as int]@);
    while i < n
        invariant
            n == parts@.len(),
            from < i <= parts@.len(),
            all == text::texts(parts@).skip(from as int),
            s@ == joined(all.take(i - from)),
        decreases parts@.len() - i,
    {
        s.append(" ");
        s.append(parts[i].as_str());
        assert(all.take(i + 1 - from).drop_last() =~= all.take(i - from));
        assert(all.take(i + 1 - from).last() == parts@[i as int]@);
        i = i + 1;
    }
    assert(all.take(i - from) =~= all);
    s
}

/// What is meant by a line that is typed in.
pub fn parse_command(line: &str) -> (c: ShellCommand)
    ensures
        c@ == command_of(text::words_of(line@)),
{
    let cmd = words(line);
    let ghost all = text::texts(cmd@);
    if cmd.len() == 0 {
        return ShellCommand::Nothing;
    }
    let first = cmd[0].as_str();
    assert(all[0] == first@);
    if same(first, "quit") || same(first, "exit") || same(first, "q") || same(first, "x") {
        ShellCommand::Quit
    } else if same(first, "identify") || same(first, "id") || same(first, "i") {
        ShellCommand::Identify
    } else if same(first, "status") || same(first, "getstatus") || same(first, "s") {
        ShellCommand::Status
    } else if same(first, "reset") || same(first, "resetbus") || same(first, "busreset") || same(first, "r") || same(first, "b") {
        ShellCommand::ResetBus
    } else if same(first, "u") || same(first, "usbreset") || same(first, "resetusb") {
        ShellCommand::ResetUsb
    } else if same(first, "command") || same(first, "cmd") || same(first, "c") {
        if cmd.len() < 2 {
            ShellCommand::Usage("Usage: command <cmd-string>")
        } else {
            ShellCommand::Command(join(&cmd, 1))
        }
    } else if same(first, "format") || same(first, "f") {
        if cmd.len() != 3 {
            ShellCommand::Usage("Usage: format <name> <id>")
        } else {
            assert(all[1] == cmd@[1]@ && all[2] == cmd@[2]@);
            ShellCommand::Format { name: cmd[1].clone(), id: cmd[2].clone() }
        }
    } else if same(first, "help") || same(first, "h") || same(first, "?") {
        ShellCommand::Help
    } else {
        ShellCommand::Unknown
    }
}

/// The lines of the help.
pub open spec fn help() -> Seq<Seq<char>> {
    seq![
        "Available commands:"@,
        "  i|id|identify       - Get device info"@,
        "  s|status            - Get device status"@,
        "  r|b|reset           - Reset the IEC bus"@,
        "  u|usbreset          - Reset the USB device"@,
        "  c|command <cmd>     - Send command to device"@,
        "  f|ormat <name> <id> - Format disk"@,
        "  h|?|help            - Show this help"@,
        "  q|x|quit|exit       - Exit program"@,
    ]
}

/// The lines of the help.
pub fn help_lines() -> (lines: Vec<String>)
    ensures
        text::texts(lines@) == help(),
{
    let lines = vec![
        "Available commands:".to_owned(),
        "  i|id|identify       - Get device info".to_owned(),
        "  s|status            - Get device status".to_owned(),
        "  r|b|reset           - Reset the IEC bus".to_owned(),
        "  u|usbreset          - Reset the USB device".to_owned(),
        "  c|command <cmd>     - Send command to device".to_owned(),
        "  f|ormat <name> <id> - Format disk".to_owned(),
        "  h|?|help            - Show this help".to_owned(),
        "  q|x|quit|exit       - Exit program".to_owned(),
    ];
    assert(text::texts(lines@) =~= help());
    lines
}

/// The line that is shown for what came of a command: what was to be shown, or the error.
pub fn report(done: &str, outcome: &Result<(), CbmError>) -> (s: String)
    ensures
        s@ == (match *outcome {
            Ok(_) => done@,
            Err(e) => "Error: "@ + e@.text(),
        }),
{
    match outcome {
        Ok(_) => done.to_owned(),
        Err(e) => {
            let mut s = "Error: ".to_owned();
            s.append(e.to_string().as_str());
            s
        },
    }
}

/// The line that is shown for a status.
pub fn report_status(outcome: &Result<CbmStatus, CbmError>) -> (s: String)
    ensures
        s@ == (match *outcome {
            Ok(status) => "Status: "@ + cbmtype::status_text(status@),
            Err(e) => "Error: "@ + e@.text(),
        }),
{
    match outcome {
        Ok(status) => {
            let mut s = "Status: ".to_owned();
            s.append(status.to_string().as_str());
            s
        },
        Err(e) => {
            let mut s = "Error: ".to_owned();
            s.append(e.to_string().as_str());
            s
        },
    }
}

} // verus!

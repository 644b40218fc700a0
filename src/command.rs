use vstd::prelude::*;
use vstd::string::*;

verus! {

/// Name of the sub-command that replays operations from a dump file.
pub const FROM_FILE_SUBCOMMAND: &'static str = "from-file";

/// Name of the sub-command that transliterates names to ASCII.
pub const TO_ASCII_SUBCOMMAND: &'static str = "to-ascii";

/// Application commands.
#[derive(Debug, PartialEq, Eq, Structural, Clone, Copy)]
pub enum AppCommand {
    Root,
    FromFile,
    ToASCII,
}

/// The command that a sub-command name selects, if it names one.
pub open spec fn command_named(name: Seq<char>) -> Option<AppCommand> {
    if name.len() == 0 {
        Some(AppCommand::Root)
    } else if name == "from-file"@ {
        Some(AppCommand::FromFile)
    } else if name == "to-ascii"@ {
        Some(AppCommand::ToASCII)
    } else {
        None
    }
}

/// The message that reports an unregistered sub-command name.
pub open spec fn unknown_command_message(name: Seq<char>) -> Seq<char> {
    "Non-registered subcommand '"@ + name + "'"@
}

/// Character-wise equality of two strings.
pub fn str_eq(a: &str, b: &str) -> (r: bool)
    ensures
        r == (a@ == b@),
{
    let n = a.unicode_len();
    if n != b.unicode_len() {
        return false;
    }
    let mut i: usize = 0;
    while i < n
        invariant
            n == a@.len(),
            n == b@.len(),
            i <= n,
            a@.subrange(0, i as int) == b@.subrange(0, i as int),
        decreases n - i,
    {
        if a.get_char(i) != b.get_char(i) {
            return false;
        }
        assert(a@.subrange(0, i + 1) == a@.subrange(0, i as int).push(a@[i as int]));
        assert(b@.subrange(0, i + 1) == b@.subrange(0, i as int).push(b@[i as int]));
        i = i + 1;
    }
    assert(a@ == a@.subrange(0, n as int));
    assert(b@ == b@.subrange(0, n as int));
    true
}

impl AppCommand {
    /// Selects the command for a sub-command name; the empty name selects
    /// the root command.
    pub fn from_str(name: &str) -> (r: Result<AppCommand, String>)
        ensures
            command_named(name@) matches Some(c) ==> r == Ok::<AppCommand, String>(c),
            command_named(name@) is None ==> (r matches Err(m) && m@
                == unknown_command_message(name@)),
    {
        proof {
            reveal_strlit("");
            reveal_strlit("from-file");
            reveal_strlit("Non-registered subcommand '");
            reveal_strlit("'");
            reveal_strlit("to-ascii");
        }
        if str_eq(name, "") {
            Ok(AppCommand::Root)
        } else if str_eq(name, "from-file") {
            Ok(AppCommand::FromFile)
        } else if str_eq(name, "to-ascii") {
            Ok(AppCommand::ToASCII)
        } else {
            proof {
                if name@.len() == 0 {
                    assert(name@ =~= ""@);
                }
            }
            let mut m = String::from_str("Non-registered subcommand '");
            m.append(name);
            m.append("'");
            Err(m)
        }
    }
}

} // verus!

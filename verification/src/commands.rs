//! The command table: typed command strings and the actions they name.
//!
//! Dispatch is exact string match against a table of bindings, built once
//! at startup.  An unrecognized command resolves to a designated no-op
//! rather than an error.  The actions themselves (persisting a buffer)
//! touch the file system and are performed by the surrounding application;
//! here a command resolves to which action is to run.
use vstd::prelude::*;

use crate::editor::Editor;

verus! {

/// The kind of action a typed command resolves to.
#[derive(Clone, Copy, Debug, PartialEq, Eq, Structural)]
pub enum CommandType {
    /// Persist the active buffer.
    SaveFile,
    /// No binding matched: the designated no-op.
    Unrecognized,
}

/// One binding from a command string to the action it names.
pub struct CommandBinding {
    /// The exact string that invokes the action.
    pub name: String,
    /// The action it resolves to.
    pub command: CommandType,
}

/// The action a command string resolves to under a sequence of bindings:
/// that of the first binding whose name matches exactly, `Unrecognized`
/// when none does.
pub open spec fn spec_lookup(bindings: Seq<CommandBinding>, name: Seq<char>) -> CommandType
    decreases bindings.len(),
{
    if bindings.len() == 0 {
        CommandType::Unrecognized
    } else if bindings[0].name@ == name {
        bindings[0].command
    } else {
        spec_lookup(bindings.drop_first(), name)
    }
}

/// What the default table resolves each command string to: the empty
/// command saves the active buffer, everything else is unrecognized.
pub open spec fn default_lookup(name: Seq<char>) -> CommandType {
    if name == Seq::<char>::empty() {
        CommandType::SaveFile
    } else {
        CommandType::Unrecognized
    }
}

/// The table of command bindings, built once at startup and immutable
/// afterwards.
pub struct CommandList {
    /// The bindings, searched in order.
    pub bindings: Vec<CommandBinding>,
}

impl CommandList {
    /// An empty table: every command is unrecognized.
    pub fn new() -> (c: CommandList)
        ensures
            c.bindings@.len() == 0,
            forall|name: Seq<char>| spec_lookup(c.bindings@, name) == CommandType::Unrecognized,
    {
        CommandList { bindings: Vec::new() }
    }

    /// The default table: submitting the empty command saves the active
    /// buffer, and nothing else is bound.
    pub fn new_with_default_bindings() -> (c: CommandList)
        ensures
            forall|name: Seq<char>|
                spec_lookup(c.bindings@, name) == default_lookup(name),
    {
        let mut bindings: Vec<CommandBinding> = Vec::new();
        bindings.push(CommandBinding { name: String::new(), command: CommandType::SaveFile });
        let c = CommandList { bindings };
        proof {
            assert forall|name: Seq<char>|
                spec_lookup(c.bindings@, name) == default_lookup(name) by {
                reveal_with_fuel(spec_lookup, 3);
            }
        }
        c
    }

    /// Adds a binding at the end of the table; earlier bindings keep
    /// priority.
    pub fn register(&mut self, name: String, command: CommandType)
        ensures
            final(self).bindings@ == old(self).bindings@.push(
                CommandBinding { name, command },
            ),
    {
        self.bindings.push(CommandBinding { name, command });
    }

    /// The action `command` resolves to: that of the first binding whose
    /// name matches exactly, the no-op when none does.
    pub fn get_command_type(&self, command: String) -> (r: CommandType)
        ensures
            r == spec_lookup(self.bindings@, command@),
    {
        let n = self.bindings.len();
        let mut i: usize = 0;
        proof {
            assert(self.bindings@.skip(0) =~= self.bindings@);
        }
        while i < n
            invariant
                i <= n,
                n == self.bindings@.len(),
                spec_lookup(self.bindings@, command@) == spec_lookup(
                    self.bindings@.skip(i as int),
                    command@,
                ),
            decreases n - i,
        {
            proof {
                assert(self.bindings@.skip(i as int)[0] == self.bindings@[i as int]);
                assert(self.bindings@.skip(i as int).drop_first() =~= self.bindings@.skip(
                    i as int + 1,
                ));
            }
            if self.bindings[i].name == command {
                return self.bindings[i].command;
            }
            i = i + 1;
        }
        proof {
            assert(self.bindings@.skip(n as int) =~= Seq::<CommandBinding>::empty());
        }
        CommandType::Unrecognized
    }

    /// Resolves `command` and reports which action is to run on the
    /// editor; the surrounding application performs it, with read access
    /// to the editor's state.  An unrecognized command resolves to the
    /// no-op, never to an error.
    pub fn execute(&self, command: String, _editor: &Editor) -> (r: CommandType)
        ensures
            r == spec_lookup(self.bindings@, command@),
    {
        self.get_command_type(command)
    }
}

} // verus!

//! The table of chat commands: for each command its permission, the users
//! who may run it and its aliases. A command stands in the table once.

use vstd::prelude::*;
use crate::chat::Command;
use crate::chat::CommandView;
use crate::chat::Permission;

verus! {

/// What is configured for one chat command.
#[derive(Debug, PartialEq, Eq)]
pub struct CommandInfo {
    pub permission: Option<Permission>,
    pub user_permissions: Option<Vec<String>>,
    pub alias: Option<Vec<String>>,
}

pub struct CommandInfoView {
    pub permission: Option<Permission>,
    pub user_permissions: Option<Seq<Seq<char>>>,
    pub alias: Option<Seq<Seq<char>>>,
}

impl View for CommandInfo {
    type V = CommandInfoView;

    open spec fn view(&self) -> CommandInfoView {
        CommandInfoView {
            permission: self.permission,
            user_permissions: self.user_permissions.deep_view(),
            alias: self.alias.deep_view(),
        }
    }
}

impl DeepView for CommandInfo {
    type V = CommandInfoView;

    open spec fn deep_view(&self) -> CommandInfoView {
        self.view()
    }
}

impl CommandInfoView {
    /// Nothing configured.
    pub open spec fn empty() -> CommandInfoView {
        CommandInfoView { permission: None, user_permissions: None, alias: None }
    }

    /// Whether `alias` is one of this command's aliases.
    pub open spec fn has_alias(self, alias: Seq<char>) -> bool {
        self.alias matches Some(names) && names.contains(alias)
    }
}

impl Default for CommandInfo {
    fn default() -> (r: Self)
        ensures
            r@ == CommandInfoView::empty(),
    {
        CommandInfo { permission: None, user_permissions: None, alias: None }
    }
}

/// One line of the table.
#[derive(Debug, PartialEq, Eq)]
pub struct CommandEntry {
    pub command: Command,
    pub info: CommandInfo,
}

impl View for CommandEntry {
    type V = (CommandView, CommandInfoView);

    open spec fn view(&self) -> (CommandView, CommandInfoView) {
        (self.command@, self.info@)
    }
}

impl DeepView for CommandEntry {
    type V = (CommandView, CommandInfoView);

    open spec fn deep_view(&self) -> (CommandView, CommandInfoView) {
        self.view()
    }
}

/// Whether no command stands twice in a table.
pub open spec fn distinct_commands(table: Seq<(CommandView, CommandInfoView)>) -> bool {
    forall|i: int, j: int| 0 <= i < j < table.len() ==> table[i].0 != table[j].0
}

/// Whether line `i` is the first line of a command in a table.
pub open spec fn is_line_of(
    table: Seq<(CommandView, CommandInfoView)>,
    command: CommandView,
    i: int,
) -> bool {
    &&& 0 <= i < table.len()
    &&& table[i].0 == command
    &&& forall|j: int| 0 <= j < i ==> table[j].0 != command
}

/// The line of a command in a table, if it has one.
pub open spec fn line_of(
    table: Seq<(CommandView, CommandInfoView)>,
    command: CommandView,
) -> Option<int> {
    if exists|i: int| is_line_of(table, command, i) {
        Some(choose|i: int| is_line_of(table, command, i))
    } else {
        None
    }
}

/// Whether a command has a line in a table.
pub open spec fn has_line(
    table: Seq<(CommandView, CommandInfoView)>,
    command: CommandView,
) -> bool {
    exists|i: int| 0 <= i < table.len() && table[i].0 == command
}

/// The table with the given information under the given command: in the
/// command's line where it has one, else in a new last line.
pub open spec fn with_info(
    table: Seq<(CommandView, CommandInfoView)>,
    command: CommandView,
    info: CommandInfoView,
) -> Seq<(CommandView, CommandInfoView)> {
    match line_of(table, command) {
        Some(i) => table.update(i, (command, info)),
        None => table.push((command, info)),
    }
}

/// The commands of a configuration, in the order in which they were first
/// named.
#[derive(Debug, PartialEq, Eq)]
pub struct Commands {
    entries: Vec<CommandEntry>,
}

impl View for Commands {
    type V = Seq<(CommandView, CommandInfoView)>;

    closed spec fn view(&self) -> Seq<(CommandView, CommandInfoView)> {
        self.entries.deep_view()
    }
}

impl DeepView for Commands {
    type V = Seq<(CommandView, CommandInfoView)>;

    open spec fn deep_view(&self) -> Seq<(CommandView, CommandInfoView)> {
        self.view()
    }
}

impl Commands {
    #[verifier::type_invariant]
    spec fn well_formed(&self) -> bool {
        distinct_commands(self.entries.deep_view())
    }

    /// An empty table.
    pub fn new() -> (r: Commands)
        ensures
            r@ == Seq::<(CommandView, CommandInfoView)>::empty(),
    {
        let r = Commands { entries: Vec::new() };
        r
    }

    /// The number of lines. No command stands in two of them.
    pub fn len(&self) -> (r: usize)
        ensures
            r == self@.len(),
            distinct_commands(self@),
    {
        proof {
            use_type_invariant(self);
        }
        self.entries.len()
    }

    /// The command of line `i`.
    pub fn command_at(&self, i: usize) -> (r: &Command)
        requires
            i < self@.len(),
        ensures
            r@ == self@[i as int].0,
    {
        &self.entries[i].command
    }

    /// The information in line `i`.
    pub fn info_at(&self, i: usize) -> (r: &CommandInfo)
        requires
            i < self@.len(),
        ensures
            r@ == self@[i as int].1,
    {
        &self.entries[i].info
    }

    /// The line of a command, if it has one.
    pub fn position(&self, command: &Command) -> (r: Option<usize>)
        ensures
            match r {
                Some(i) => line_of(self@, command@) == Some(i as int),
                None => line_of(self@, command@) is None,
            },
            r matches Some(i) ==> is_line_of(self@, command@, i as int),
            r is None ==> !has_line(self@, command@),
    {
        let mut i: usize = 0;
        while i < self.entries.len()
            invariant
                0 <= i <= self.entries.len(),
                self@ == self.entries.deep_view(),
                forall|j: int| 0 <= j < i ==> self@[j].0 != command@,
            decreases self.entries.len() - i,
        {
            if self.entries[i].command.same(command) {
                assert(is_line_of(self@, command@, i as int));
                return Some(i);
            }
            i += 1;
        }
        None
    }

    /// Whether a command has a line.
    pub fn contains_key(&self, command: &Command) -> (r: bool)
        ensures
            r == has_line(self@, command@),
    {
        self.position(command).is_some()
    }

    /// Puts the given information under the given command, in the command's
    /// line where it has one, else in a new last line.
    pub fn insert(&mut self, command: Command, info: CommandInfo)
        ensures
            final(self)@ == with_info(old(self)@, command@, info@),
    {
        proof {
            use_type_invariant(&*self);
        }
        let at = self.position(&command);
        let ghost before = self@;
        let mut lines: Vec<CommandEntry> = Vec::new();
        std::mem::swap(&mut self.entries, &mut lines);
        match at {
            Some(i) => {
                let _ = lines.remove(i);
                lines.insert(i, CommandEntry { command, info });
                assert(lines.deep_view() =~= before.update(i as int, (command@, info@)));
                assert(distinct_commands(lines.deep_view())) by {
                    assert(before.update(i as int, (command@, info@))[i as int].0
                        == before[i as int].0);
                }
            },
            None => {
                lines.push(CommandEntry { command, info });
                assert(lines.deep_view() =~= before.push((command@, info@)));
            },
        }
        std::mem::swap(&mut self.entries, &mut lines);
    }

    /// Replaces the information in line `i` and hands back what stood there.
    pub fn replace_info(&mut self, i: usize, info: CommandInfo) -> (r: CommandInfo)
        requires
            i < old(self)@.len(),
        ensures
            r@ == old(self)@[i as int].1,
            final(self)@ == old(self)@.update(i as int, (old(self)@[i as int].0, info@)),
    {
        proof {
            use_type_invariant(&*self);
        }
        let ghost before = self@;
        let mut lines: Vec<CommandEntry> = Vec::new();
        std::mem::swap(&mut self.entries, &mut lines);
        let line = lines.remove(i);
        let CommandEntry { command, info: old_info } = line;
        lines.insert(i, CommandEntry { command, info });
        assert(lines.deep_view() =~= before.update(i as int, (before[i as int].0, info@)));
        assert(distinct_commands(lines.deep_view())) by {
            assert(before.update(i as int, (before[i as int].0, info@))[i as int].0
                == before[i as int].0);
        }
        std::mem::swap(&mut self.entries, &mut lines);
        old_info
    }
}

} // verus!

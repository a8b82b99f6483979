//! Changes to the table of chat commands: permissions and aliases.

use vstd::prelude::*;
use crate::chat::command_named;
use crate::chat::Command;
use crate::chat::CommandView;
use crate::chat::Permission;
use crate::config::commands::line_of;
use crate::config::commands::with_info;
use crate::config::commands::CommandInfo;
use crate::config::commands::CommandInfoView;
use crate::config::commands::Commands;
use crate::text::same_text;

verus! {

/// What is configured for a command in a table; nothing where the command
/// has no line.
pub open spec fn info_of(
    table: Seq<(CommandView, CommandInfoView)>,
    command: CommandView,
) -> CommandInfoView {
    match line_of(table, command) {
        Some(i) => table[i].1,
        None => CommandInfoView::empty(),
    }
}

/// A command's information after a change: a permission that is given
/// replaces the old one, an alias that is given is added behind the others.
pub open spec fn touched(
    info: CommandInfoView,
    permission: Option<Permission>,
    alias: Option<Seq<char>>,
) -> CommandInfoView {
    CommandInfoView {
        permission: if permission is Some {
            permission
        } else {
            info.permission
        },
        user_permissions: info.user_permissions,
        alias: match alias {
            Some(name) => Some(
                match info.alias {
                    Some(names) => names.push(name),
                    None => seq![name],
                },
            ),
            None => info.alias,
        },
    }
}

/// The table after a change to one command, which gets a line if it had
/// none.
pub open spec fn with_change(
    table: Seq<(CommandView, CommandInfoView)>,
    command: CommandView,
    permission: Option<Permission>,
    alias: Option<Seq<char>>,
) -> Seq<(CommandView, CommandInfoView)> {
    with_info(table, command, touched(info_of(table, command), permission, alias))
}

/// The table after a change to the command called `name`. A name that is no
/// command changes nothing.
pub open spec fn command_updated(
    table: Seq<(CommandView, CommandInfoView)>,
    name: Seq<char>,
    permission: Option<Permission>,
    alias: Option<Seq<char>>,
) -> Seq<(CommandView, CommandInfoView)> {
    let command = command_named(name);
    if command is Unknown {
        table
    } else {
        with_change(table, command, permission, alias)
    }
}

/// Whether some command of the table has the alias.
pub open spec fn alias_known(table: Seq<(CommandView, CommandInfoView)>, alias: Seq<char>) -> bool {
    exists|i: int| 0 <= i < table.len() && table[i].1.has_alias(alias)
}

/// Whether line `i` is the first whose command has the alias.
pub open spec fn is_holder(
    table: Seq<(CommandView, CommandInfoView)>,
    alias: Seq<char>,
    i: int,
) -> bool {
    &&& 0 <= i < table.len()
    &&& table[i].1.has_alias(alias)
    &&& forall|j: int| 0 <= j < i ==> !table[j].1.has_alias(alias)
}

/// Whether `j` is the first place of `alias` among `names`.
pub open spec fn is_first_place(names: Seq<Seq<char>>, alias: Seq<char>, j: int) -> bool {
    &&& 0 <= j < names.len()
    &&& names[j] == alias
    &&& forall|k: int| 0 <= k < j ==> names[k] != alias
}

/// The names without the one at place `j`: the last name takes its place.
pub open spec fn swap_removed(names: Seq<Seq<char>>, j: int) -> Seq<Seq<char>> {
    names.update(j, names.last()).drop_last()
}

/// The table without the alias: it leaves the first command that has it,
/// at the first place where it stands there, and the command's last alias
/// takes that place. A table that does not know the alias stays as it is.
pub open spec fn without_alias(
    table: Seq<(CommandView, CommandInfoView)>,
    alias: Seq<char>,
) -> Seq<(CommandView, CommandInfoView)> {
    if alias_known(table, alias) {
        let i = choose|i: int| is_holder(table, alias, i);
        let names = table[i].1.alias->0;
        let j = choose|j: int| is_first_place(names, alias, j);
        table.update(
            i,
            (table[i].0, CommandInfoView { alias: Some(swap_removed(names, j)), ..table[i].1 }),
        )
    } else {
        table
    }
}

fn place_of(names: &Vec<String>, alias: &str) -> (r: Option<usize>)
    ensures
        match r {
            Some(j) => is_first_place(names.deep_view(), alias@, j as int),
            None => !names.deep_view().contains(alias@),
        },
{
    let mut j: usize = 0;
    while j < names.len()
        invariant
            0 <= j <= names.len(),
            forall|k: int| 0 <= k < j ==> names.deep_view()[k] != alias@,
        decreases names.len() - j,
    {
        if same_text(names[j].as_str(), alias) {
            return Some(j);
        }
        j += 1;
    }
    None
}

fn alias_place(info: &CommandInfo, alias: &str) -> (r: Option<usize>)
    ensures
        match r {
            Some(j) => info@.alias is Some && is_first_place(info@.alias->0, alias@, j as int),
            None => !info@.has_alias(alias@),
        },
{
    match &info.alias {
        Some(names) => place_of(names, alias),
        None => None,
    }
}

impl Commands {
    /// Changes one command, giving it a line if it had none: a permission
    /// that is given replaces the old one, an alias that is given is added.
    pub fn touch(&mut self, command: Command, permission: Option<Permission>, alias: Option<String>)
        ensures
            final(self)@ == with_change(old(self)@, command@, permission, alias.deep_view()),
    {
        let ghost before = self@;
        let at = self.position(&command);
        let i: usize = match at {
            Some(i) => i,
            None => {
                let end = self.len();
                self.insert(command, CommandInfo::default());
                end
            },
        };
        let mut info = self.replace_info(i, CommandInfo::default());
        let ghost was = info@;
        assert(was == info_of(before, command@));
        if permission.is_some() {
            info.permission = permission;
        }
        match alias {
            Some(name) => {
                match info.alias {
                    Some(ref mut names) => {
                        let ghost old_names = names.deep_view();
                        names.push(name);
                        assert(names.deep_view() =~= old_names.push(name@));
                    },
                    None => {
                        let mut names: Vec<String> = Vec::new();
                        names.push(name);
                        assert(names.deep_view() =~= seq![name@]);
                        info.alias = Some(names);
                    },
                }
            },
            None => {},
        }
        assert(info@ == touched(was, permission, alias.deep_view()));
        let _ = self.replace_info(i, info);
        assert(self@ =~= with_change(before, command@, permission, alias.deep_view()));
    }

    /// Whether some command has the alias.
    pub fn contains_alias(&self, alias: &str) -> (r: bool)
        ensures
            r == alias_known(self@, alias@),
    {
        self.holder_of(alias).is_some()
    }

    /// The first line whose command has the alias, and the alias's first
    /// place there.
    fn holder_of(&self, alias: &str) -> (r: Option<(usize, usize)>)
        ensures
            match r {
                Some((i, j)) => {
                    &&& is_holder(self@, alias@, i as int)
                    &&& is_first_place(self@[i as int].1.alias->0, alias@, j as int)
                },
                None => !alias_known(self@, alias@),
            },
    {
        let n = self.len();
        let mut i: usize = 0;
        while i < n
            invariant
                n == self@.len(),
                0 <= i <= n,
                forall|k: int| 0 <= k < i ==> !self@[k].1.has_alias(alias@),
            decreases n - i,
        {
            match alias_place(self.info_at(i), alias) {
                Some(j) => {
                    return Some((i, j));
                },
                None => {},
            }
            i += 1;
        }
        None
    }

    /// Removes the alias from the first command that has it and says
    /// whether there was one.
    pub fn remove_alias(&mut self, alias: &str) -> (r: bool)
        ensures
            r == alias_known(old(self)@, alias@),
            final(self)@ == without_alias(old(self)@, alias@),
    {
        let ghost before = self@;
        match self.holder_of(alias) {
            Some((i, j)) => {
                let mut info = self.replace_info(i, CommandInfo::default());
                match info.alias {
                    Some(ref mut names) => {
                        let ghost old_names = names.deep_view();
                        let _ = names.swap_remove(j);
                        assert(names.deep_view() =~= swap_removed(old_names, j as int));
                    },
                    None => {},
                }
                let _ = self.replace_info(i, info);
                proof {
                    let i2 = choose|i: int| is_holder(before, alias@, i);
                    assert(i2 == i);
                    let names = before[i as int].1.alias->0;
                    let j2 = choose|j: int| is_first_place(names, alias@, j);
                    assert(j2 == j);
                    assert(self@ =~= without_alias(before, alias@));
                }
                true
            },
            None => false,
        }
    }
}

/// Applies one line of a command list to the table: the command called
/// `command` gets the permission, if one is given, and the alias, if one is
/// given. A name that is no command changes nothing.
pub fn update_command(
    config: &mut Commands,
    command: String,
    permission: Option<Permission>,
    alias: Option<String>,
)
    ensures
        final(config)@ == command_updated(old(config)@, command@, permission, alias.deep_view()),
{
    let command = Command::from_name(command.as_str());
    if let Command::Unknown(_) = command {
        return ;
    }
    config.touch(command, permission, alias);
}

} // verus!

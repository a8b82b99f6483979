//! What is done to a configuration once it has been read.

use vstd::prelude::*;
use crate::chat::CommandView;
use crate::config::Chat;
use crate::config::ChatView;
use crate::config::Config;
use crate::config::commands::CommandInfo;
use crate::config::commands::CommandInfoView;
use crate::config::commands::Commands;
use crate::config::order::is_stable_sort;
use crate::text::ascii_lowercase;
use crate::text::lemma_ascii_lowercase_idempotent;
use crate::text::make_ascii_lowercase;

verus! {

/// The names, each in ASCII lower case.
pub open spec fn lowered(names: Seq<Seq<char>>) -> Seq<Seq<char>> {
    Seq::new(names.len(), |i: int| ascii_lowercase(names[i]))
}

/// A command's information with its users' names in lower case.
pub open spec fn lowered_info(info: CommandInfoView) -> CommandInfoView {
    CommandInfoView {
        user_permissions: match info.user_permissions {
            Some(users) => Some(lowered(users)),
            None => None,
        },
        ..info
    }
}

/// A table with the users' names of every command in lower case.
pub open spec fn lowered_table(table: Seq<(CommandView, CommandInfoView)>) -> Seq<
    (CommandView, CommandInfoView),
> {
    Seq::new(table.len(), |i: int| (table[i].0, lowered_info(table[i].1)))
}

/// Chat settings in which every user's name is in lower case: the
/// channel's, the admins', and those of the commands' users.
pub open spec fn normalized_chat(chat: ChatView) -> ChatView {
    ChatView {
        username: ascii_lowercase(chat.username),
        admins: lowered(chat.admins),
        commands: match chat.commands {
            Some(table) => Some(lowered_table(table)),
            None => None,
        },
        ..chat
    }
}

/// Putting chat settings into their working form twice is the same as
/// doing it once.
pub proof fn law_normalizing_twice_changes_nothing(chat: ChatView)
    ensures
        normalized_chat(normalized_chat(chat)) == normalized_chat(chat),
{
    lemma_ascii_lowercase_idempotent(chat.username);
    lemma_lowered_twice(chat.admins);
    match chat.commands {
        Some(table) => {
            assert forall|i: int| 0 <= i < table.len() implies lowered_info(
                lowered_info(table[i].1),
            ) == lowered_info(table[i].1) by {
                match table[i].1.user_permissions {
                    Some(users) => {
                        lemma_lowered_twice(users);
                    },
                    None => {},
                }
            }
            assert(lowered_table(lowered_table(table)) =~= lowered_table(table));
        },
        None => {},
    }
}

proof fn lemma_lowered_twice(names: Seq<Seq<char>>)
    ensures
        lowered(lowered(names)) == lowered(names),
{
    assert forall|i: int| 0 <= i < names.len() implies ascii_lowercase(ascii_lowercase(names[i]))
        == ascii_lowercase(names[i]) by {
        lemma_ascii_lowercase_idempotent(names[i]);
    }
}

/// Puts every name into ASCII lower case.
pub fn lowercase_all(names: &mut Vec<String>)
    ensures
        final(names).deep_view() == lowered(old(names).deep_view()),
{
    let ghost before = names.deep_view();
    let mut i: usize = 0;
    while i < names.len()
        invariant
            0 <= i <= names.len(),
            names.len() == before.len(),
            forall|j: int| 0 <= j < i ==> names.deep_view()[j] == ascii_lowercase(before[j]),
            forall|j: int| i <= j < names.len() ==> names.deep_view()[j] == before[j],
        decreases names.len() - i,
    {
        let ghost current = names.deep_view();
        let mut name = names[i].clone();
        make_ascii_lowercase(&mut name);
        names.set(i, name);
        assert forall|j: int| 0 <= j < names.len() implies names.deep_view()[j] == (if j == i {
            ascii_lowercase(before[j])
        } else {
            current[j]
        }) by {}
        i += 1;
    }
}

impl Commands {
    /// Puts the users' names of every command into ASCII lower case.
    pub fn lowercase_users(&mut self)
        ensures
            final(self)@ == lowered_table(old(self)@),
    {
        let ghost before = self@;
        let n = self.len();
        let mut i: usize = 0;
        while i < n
            invariant
                0 <= i <= n,
                n == before.len(),
                self@.len() == n,
                forall|j: int| 0 <= j < i ==> self@[j] == (before[j].0, lowered_info(before[j].1)),
                forall|j: int| i <= j < n ==> self@[j] == before[j],
            decreases n - i,
        {
            let mut info = self.replace_info(i, CommandInfo::default());
            match info.user_permissions {
                Some(ref mut users) => {
                    lowercase_all(users);
                },
                None => {},
            }
            let _ = self.replace_info(i, info);
            i += 1;
        }
    }
}

impl Chat {
    /// Puts every user's name into ASCII lower case.
    pub fn normalize(&mut self)
        ensures
            final(self)@ == normalized_chat(old(self)@),
    {
        make_ascii_lowercase(&mut self.username);
        lowercase_all(&mut self.admins);
        match self.commands {
            Some(ref mut table) => {
                table.lowercase_users();
            },
            None => {},
        }
    }
}

impl Config {
    /// Brings a configuration that was just read into its working form:
    /// the servers in order of precedence, every user's name in lower case.
    /// Nothing else changes.
    pub fn normalize(&mut self)
        ensures
            is_stable_sort(
                final(self).switcher.stream_servers@,
                old(self).switcher.stream_servers@,
            ),
            final(self).switcher == (crate::config::Switcher {
                stream_servers: final(self).switcher.stream_servers,
                ..old(self).switcher
            }),
            final(self)@.chat == (match old(self)@.chat {
                Some(chat) => Some(normalized_chat(chat)),
                None => None,
            }),
            final(self).user == old(self).user,
            final(self).software == old(self).software,
            final(self).optional_scenes == old(self).optional_scenes,
            final(self).optional_options == old(self).optional_options,
    {
        self.switcher.sort_stream_servers();
        match self.chat {
            Some(ref mut chat) => {
                chat.normalize();
            },
            None => {},
        }
    }
}

} // verus!

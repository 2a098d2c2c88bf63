//! Temporary changes to a command.

use crate::string_map::StringMap;
use vstd::prelude::*;

verus! {

/// This struct allows to temporarily disable commands, their group (usage is up to the user) and
/// add or remove aliases.
///
/// This struct does not store any reference to a command.
/// It is supposed to be used as a value in a map.
#[derive(Debug, Clone)]
pub struct CommandOverride {
    /// Disables this command.
    /// The command is ignored when the command to be executed is determined.
    pub disabled: bool,
    /// Disables the group of this command, without changing the disabled flag itself.
    pub group_disabled: bool,
    /// Aliases that are added to (true) or removed from (false) the command.
    pub changed_aliases: StringMap<bool>,
}

impl Default for CommandOverride {
    fn default() -> (r: Self)
        ensures
            !r.disabled,
            !r.group_disabled,
            r.changed_aliases@ == Map::<Seq<char>, bool>::empty(),
            r.changed_aliases.entry_seq() == Seq::<(Seq<char>, bool)>::empty(),
    {
        CommandOverride { disabled: false, group_disabled: false, changed_aliases: StringMap::new() }
    }
}

impl CommandOverride {
    /// Whether the command may not be executed.
    pub open spec fn disables(self) -> bool {
        self.disabled || self.group_disabled
    }

    /// Whether the command does not answer to `alias` any more.
    pub open spec fn removes(self, alias: Seq<char>) -> bool {
        self.changed_aliases@.contains_key(alias) && !self.changed_aliases@[alias]
    }

    /// The aliases that the command has got in addition to its own.
    pub open spec fn added(self) -> Seq<Seq<char>> {
        self.changed_aliases.entry_seq().filter(|e: (Seq<char>, bool)| e.1).map_values(
            |e: (Seq<char>, bool)| e.0,
        )
    }

    /// The aliases of a command with the aliases `own` under this override.
    pub open spec fn aliases(self, own: Seq<Seq<char>>) -> Seq<Seq<char>> {
        own.filter(|a: Seq<char>| !self.removes(a)) + self.added()
    }

    /// Whether the command may not be executed.
    pub fn is_disabling(&self) -> (r: bool)
        ensures
            r == self.disables(),
    {
        self.disabled || self.group_disabled
    }
}

} // verus!

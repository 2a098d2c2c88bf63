//! The full names of subcommands.

use crate::structs::command::Command;
use crate::structs::command_storage::CommandStorage;
use vstd::prelude::*;

verus! {

/// The name of a command below `parent`: the two names with a space between them.
pub open spec fn joined(parent: Seq<char>, name: Seq<char>) -> Seq<char> {
    parent + " "@ + name
}

/// The qualified name that `c` gets below `parent`. Without a parent it keeps the one it has.
pub open spec fn qualified_name_of<H>(c: Command<H>, parent: Option<Seq<char>>) -> Seq<char> {
    match parent {
        Some(parent) => joined(parent, c.name@),
        None => c.qualified_name@,
    }
}

/// Whether `after` is `before` with the qualified names that it and its subcommands get below
/// `parent`, and otherwise unchanged.
pub open spec fn is_qualified<H>(
    before: Command<H>,
    after: Command<H>,
    parent: Option<Seq<char>>,
) -> bool
    decreases before, 0nat,
{
    &&& after == (Command {
        qualified_name: after.qualified_name,
        subcommands: after.subcommands,
        ..before
    })
    &&& after.qualified_name@ == qualified_name_of(before, parent)
    &&& parent is None ==> after.qualified_name == before.qualified_name
    &&& after.subcommands@.len() == before.subcommands@.len()
    &&& are_qualified(
        before.subcommands@,
        after.subcommands@,
        before.subcommands@.len(),
        Some(after.qualified_name@),
    )
}

/// Whether each of the first `n` commands of `after` is the one of `before` with the qualified
/// names that it and its subcommands get below `parent`.
pub open spec fn are_qualified<H>(
    before: Seq<Command<H>>,
    after: Seq<Command<H>>,
    n: nat,
    parent: Option<Seq<char>>,
) -> bool
    decreases before, n,
{
    n == 0 || n > before.len() || (are_qualified(before, after, (n - 1) as nat, parent)
        && is_qualified(before[n - 1], after[n - 1], parent))
}

/// Only the first `n` commands matter.
proof fn lemma_are_qualified_prefix<H>(
    before: Seq<Command<H>>,
    after: Seq<Command<H>>,
    other: Seq<Command<H>>,
    n: nat,
    parent: Option<Seq<char>>,
)
    requires
        forall|i: int| 0 <= i < n ==> after[i] == other[i],
        are_qualified(before, after, n, parent),
    ensures
        are_qualified(before, other, n, parent),
    decreases n,
{
    if 0 < n <= before.len() {
        lemma_are_qualified_prefix(before, after, other, (n - 1) as nat, parent);
    }
}

fn join(parent: &String, name: &String) -> (r: String)
    ensures
        r@ == joined(parent@, name@),
{
    let mut r = parent.clone();
    r.append(" ");
    r.append(name.as_str());
    r
}

impl<H> Command<H> {
    /// Updates the qualified name for this command and all subcommands of this command, to include
    /// the qualified name of the parent command.
    pub fn set_qualified_names_recursively(&mut self, parent_name: &Option<&String>)
        ensures
            is_qualified(
                *old(self),
                *final(self),
                match *parent_name {
                    Some(parent) => Some(parent@),
                    None => None,
                },
            ),
        decreases *old(self),
    {
        if let Some(parent_name) = parent_name {
            self.qualified_name = join(parent_name, &self.name);
        }
        self.subcommands.set_qualified_names(Some(&self.qualified_name));
    }
}

impl<H> CommandStorage<H> {
    /// This fixes the qualified names for all commands and subcommands of this CommandStorage.
    pub fn set_qualified_names(&mut self, parent_name: Option<&String>)
        ensures
            final(self)@.len() == old(self)@.len(),
            are_qualified(
                old(self)@,
                final(self)@,
                old(self)@.len(),
                match parent_name {
                    Some(parent) => Some(parent@),
                    None => None,
                },
            ),
        decreases *old(self),
    {
        let ghost parent = match parent_name {
            Some(parent) => Some(parent@),
            None => None,
        };
        let ghost before = self@;
        let mut i: usize = 0;
        while i < self.0.len()
            invariant
                i <= before.len(),
                before == old(self).0@,
                self.0@.len() == before.len(),
                parent == (match parent_name {
                    Some(parent) => Some(parent@),
                    None => None,
                }),
                forall|j: int| i <= j < before.len() ==> self.0@[j] == before[j],
                are_qualified(before, self.0@, i as nat, parent),
            decreases before.len() - i,
        {
            let ghost prev = self.0@;
            assert(decreases_to!(*old(self) => old(self).0));
            assert(decreases_to!(old(self).0 => old(self).0@));
            assert(decreases_to!(old(self).0@ => old(self).0@[i as int]));
            self.0[i].set_qualified_names_recursively(&parent_name);
            proof {
                lemma_are_qualified_prefix(before, prev, self.0@, i as nat, parent);
            }
            i = i + 1;
        }
    }
}

/// The command that is reached from `c` by going down to the subcommand at each index of `path`.
pub open spec fn command_at<H>(c: Command<H>, path: Seq<int>) -> Command<H>
    decreases path.len(),
{
    if path.len() == 0 {
        c
    } else {
        command_at(c, path.drop_last()).subcommands@[path.last()]
    }
}

/// Whether there is a subcommand at each index of `path`.
pub open spec fn is_path<H>(c: Command<H>, path: Seq<int>) -> bool
    decreases path.len(),
{
    path.len() == 0 || (is_path(c, path.drop_last()) && 0 <= path.last() < command_at(
        c,
        path.drop_last(),
    ).subcommands@.len())
}

/// `start`, followed by the names of the subcommands along `path`, each after a space.
pub open spec fn path_name<H>(start: Seq<char>, c: Command<H>, path: Seq<int>) -> Seq<char>
    decreases path.len(),
{
    if path.len() == 0 {
        start
    } else {
        joined(path_name(start, c, path.drop_last()), command_at(c, path).name@)
    }
}

proof fn lemma_are_qualified_at<H>(
    before: Seq<Command<H>>,
    after: Seq<Command<H>>,
    n: nat,
    parent: Option<Seq<char>>,
    i: int,
)
    requires
        are_qualified(before, after, n, parent),
        0 <= i < n <= before.len(),
    ensures
        is_qualified(before[i], after[i], parent),
    decreases n,
{
    if i < n - 1 {
        lemma_are_qualified_at(before, after, (n - 1) as nat, parent, i);
    }
}

proof fn lemma_qualified_at_path<H>(
    before: Command<H>,
    after: Command<H>,
    parent: Option<Seq<char>>,
    path: Seq<int>,
)
    requires
        is_qualified(before, after, parent),
        is_path(before, path),
    ensures
        is_path(after, path),
        command_at(after, path).qualified_name@ == path_name(
            qualified_name_of(before, parent),
            before,
            path,
        ),
        path.len() > 0 ==> is_qualified(
            command_at(before, path),
            command_at(after, path),
            Some(command_at(after, path.drop_last()).qualified_name@),
        ),
    decreases path.len(),
{
    if path.len() > 0 {
        let init = path.drop_last();
        lemma_qualified_at_path(before, after, parent, init);
        let b = command_at(before, init);
        let a = command_at(after, init);
        lemma_are_qualified_at(
            b.subcommands@,
            a.subcommands@,
            b.subcommands@.len(),
            Some(a.qualified_name@),
            path.last(),
        );
    }
}

/// After [`Command::set_qualified_names_recursively`] the qualified name of every nested
/// subcommand is made of the names on the way to it, with a space between them.
pub proof fn law_qualified_name_is_path<H>(
    before: Command<H>,
    after: Command<H>,
    parent: Option<Seq<char>>,
    path: Seq<int>,
)
    requires
        is_qualified(before, after, parent),
        is_path(before, path),
    ensures
        is_path(after, path),
        command_at(after, path).qualified_name@ == path_name(
            qualified_name_of(before, parent),
            before,
            path,
        ),
{
    lemma_qualified_at_path(before, after, parent, path);
}

/// Whether `after` is `before`, with all its subcommands: no name differs, and neither does
/// anything else.
pub open spec fn is_unchanged<H>(before: Command<H>, after: Command<H>) -> bool
    decreases before, 0nat,
{
    &&& after == (Command {
        qualified_name: after.qualified_name,
        subcommands: after.subcommands,
        ..before
    })
    &&& after.qualified_name@ == before.qualified_name@
    &&& after.subcommands@.len() == before.subcommands@.len()
    &&& are_unchanged(before.subcommands@, after.subcommands@, before.subcommands@.len())
}

/// Whether the first `n` commands of `after` are those of `before`.
pub open spec fn are_unchanged<H>(before: Seq<Command<H>>, after: Seq<Command<H>>, n: nat) -> bool
    decreases before, n,
{
    n == 0 || n > before.len() || (are_unchanged(before, after, (n - 1) as nat) && is_unchanged(
        before[n - 1],
        after[n - 1],
    ))
}

/// Setting the qualified names of a command once more changes nothing: what a second call of
/// [`Command::set_qualified_names_recursively`] leaves is what the first one left.
pub proof fn law_qualifying_command_is_idempotent<H>(
    before: Command<H>,
    once: Command<H>,
    twice: Command<H>,
    parent: Option<Seq<char>>,
)
    requires
        is_qualified(before, once, parent),
        is_qualified(once, twice, parent),
    ensures
        is_unchanged(once, twice),
    decreases before, 0nat,
{
    lemma_qualifying_first_is_idempotent(
        before.subcommands@,
        once.subcommands@,
        twice.subcommands@,
        before.subcommands@.len(),
        Some(once.qualified_name@),
    );
}

proof fn lemma_qualifying_first_is_idempotent<H>(
    before: Seq<Command<H>>,
    once: Seq<Command<H>>,
    twice: Seq<Command<H>>,
    n: nat,
    parent: Option<Seq<char>>,
)
    requires
        n <= before.len(),
        before.len() == once.len(),
        are_qualified(before, once, n, parent),
        are_qualified(once, twice, n, parent),
    ensures
        are_unchanged(once, twice, n),
    decreases before, n,
{
    if n > 0 {
        lemma_qualifying_first_is_idempotent(before, once, twice, (n - 1) as nat, parent);
        law_qualifying_command_is_idempotent(before[n - 1], once[n - 1], twice[n - 1], parent);
    }
}

/// Setting the qualified names of a storage once more changes nothing: what a second call of
/// [`CommandStorage::set_qualified_names`] leaves is what the first one left.
pub proof fn law_qualifying_is_idempotent<H>(
    before: Seq<Command<H>>,
    once: Seq<Command<H>>,
    twice: Seq<Command<H>>,
    parent: Option<Seq<char>>,
)
    requires
        once.len() == before.len(),
        are_qualified(before, once, before.len(), parent),
        twice.len() == once.len(),
        are_qualified(once, twice, once.len(), parent),
    ensures
        are_unchanged(once, twice, once.len()),
{
    lemma_qualifying_first_is_idempotent(before, once, twice, before.len(), parent);
}

} // verus!

//! Laws on the context menu commands of a storage and on full names.

use crate::structs::command::{Command, ContextMenuCommandAction};
use crate::structs::command_storage::{
    context_commands, is_context_command, is_within, law_context_commands_are_complete,
    nested_context_commands, ContextMenuType,
};
use crate::structs::qualified_names::{are_qualified, is_qualified};
use vstd::prelude::*;

verus! {

/// The context menu commands of a type are the stored commands that act on users, or on messages,
/// on whatever level they are.
pub proof fn law_context_commands<H>(s: Seq<Command<H>>, c: Command<H>)
    ensures
        context_commands(s, ContextMenuType::User).contains(c) <==> is_within(c, s) && (
        c.context_menu_action matches Some(ContextMenuCommandAction::User(_))),
        context_commands(s, ContextMenuType::Message).contains(c) <==> is_within(c, s) && (
        c.context_menu_action matches Some(ContextMenuCommandAction::Message(_))),
{
    law_context_commands_are_complete(s, ContextMenuType::User, c);
    law_context_commands_are_complete(s, ContextMenuType::Message, c);
}

proof fn lemma_nested_prefix<H>(
    s: Seq<Command<H>>,
    t: Seq<Command<H>>,
    n: nat,
    kind: ContextMenuType,
)
    requires
        n <= s.len(),
        n <= t.len(),
        forall|i: int| 0 <= i < n ==> s[i] == t[i],
    ensures
        nested_context_commands(s, n, kind) == nested_context_commands(t, n, kind),
    decreases n,
{
    if n > 0 {
        lemma_nested_prefix(s, t, (n - 1) as nat, kind);
    }
}

/// Each of them is listed once: one more command adds itself, if it is one, and those among its
/// subcommands, and nothing else.
pub proof fn law_number_of_context_commands<H>(
    s: Seq<Command<H>>,
    c: Command<H>,
    kind: ContextMenuType,
)
    ensures
        context_commands(Seq::<Command<H>>::empty(), kind).len() == 0,
        context_commands(s.push(c), kind).len() == context_commands(s, kind).len()
            + context_commands(c.subcommands@, kind).len() + (match (kind, c.context_menu_action) {
            (ContextMenuType::User, Some(ContextMenuCommandAction::User(_))) => 1nat,
            (ContextMenuType::Message, Some(ContextMenuCommandAction::Message(_))) => 1nat,
            _ => 0nat,
        }),
{
    reveal(Seq::filter);
    let t = s.push(c);
    let p = |c: Command<H>| is_context_command(c, kind);
    assert(t.drop_last() =~= s);
    assert(t.last() == c);
    lemma_nested_prefix(t, s, s.len(), kind);
    assert(t.filter(p) == if p(c) {
        s.filter(p).push(c)
    } else {
        s.filter(p)
    });
    assert(nested_context_commands(t, t.len(), kind) == nested_context_commands(s, s.len(), kind)
        + context_commands(c.subcommands@, kind));
}

proof fn lemma_qualified_subcommand<H>(
    before: Seq<Command<H>>,
    after: Seq<Command<H>>,
    n: nat,
    parent: Option<Seq<char>>,
    i: int,
)
    requires
        are_qualified(before, after, n, parent),
        0 <= i < n <= before.len(),
    ensures
        is_qualified(before[i], after[i], parent),
    decreases n,
{
    if i < n - 1 {
        lemma_qualified_subcommand(before, after, (n - 1) as nat, parent, i);
    }
}

/// Below a parent a command gets the name of the parent, a space and its own name; without a parent
/// it keeps the full name that it has. Each of its subcommands gets the full name of the command, a
/// space and its own name. All else stays as it is, and no subcommand is lost.
pub proof fn law_qualified_names<H>(
    before: Command<H>,
    after: Command<H>,
    parent: Option<Seq<char>>,
    i: int,
)
    requires
        is_qualified(before, after, parent),
    ensures
        parent matches Some(name) ==> after.qualified_name@ == name + seq![' '] + before.name@,
        parent is None ==> after.qualified_name@ == before.qualified_name@,
        after == (Command {
            qualified_name: after.qualified_name,
            subcommands: after.subcommands,
            ..before
        }),
        after.subcommands@.len() == before.subcommands@.len(),
        0 <= i < before.subcommands@.len() ==> {
            let below = after.subcommands@[i];
            &&& below.qualified_name@ == after.qualified_name@ + seq![' ']
                + before.subcommands@[i].name@
            &&& is_qualified(before.subcommands@[i], below, Some(after.qualified_name@))
        },
{
    reveal_strlit(" ");
    assert(" "@ =~= seq![' ']);
    if 0 <= i < before.subcommands@.len() {
        lemma_qualified_subcommand(
            before.subcommands@,
            after.subcommands@,
            before.subcommands@.len(),
            Some(after.qualified_name@),
            i,
        );
    }
}

/// Every command of a storage gets the full name that it has below the parent.
pub proof fn law_qualified_storage<H>(
    before: Seq<Command<H>>,
    after: Seq<Command<H>>,
    parent: Option<Seq<char>>,
    i: int,
)
    requires
        are_qualified(before, after, before.len(), parent),
        0 <= i < before.len(),
    ensures
        is_qualified(before[i], after[i], parent),
        parent matches Some(name) ==> after[i].qualified_name@ == name + seq![' ']
            + before[i].name@,
        parent is None ==> after[i].qualified_name@ == before[i].qualified_name@,
{
    lemma_qualified_subcommand(before, after, before.len(), parent, i);
    law_qualified_names(before[i], after[i], parent, 0);
}

} // verus!

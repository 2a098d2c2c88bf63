//! Laws on how many faults the checks report: each is told once.

use crate::laws::checks::slash_before;
use crate::laws::options::{law_conflicting_names, share_name};
use crate::seqs::concat_range;
use crate::structs::command::{Command, CommandParameter};
use crate::structs::command_override::CommandOverride;
use crate::structs::command_storage::{context_commands, ContextMenuType};
use crate::structs::consistency::{
    collision_fault, collisions_after, faults_of_command, faults_of_first, faults_of_storage,
    faults_of_top_level, slash_commands,
};
use crate::structs::naming::naming_collision;
use vstd::prelude::*;

verus! {

/// 1 if `b` holds, else 0.
pub open spec fn one_if(b: bool) -> int {
    if b {
        1
    } else {
        0
    }
}

/// How many of the commands after the `i`th and before the `n`th share an identifier with the
/// `i`th.
pub open spec fn colliding_after<H>(
    s: Seq<Command<H>>,
    i: int,
    n: int,
    case_insensitive: bool,
    overrides: Map<Seq<char>, CommandOverride>,
) -> int
    decreases n - i,
{
    if n <= i + 1 {
        0
    } else {
        colliding_after(s, i, n - 1, case_insensitive, overrides) + one_if(
            naming_collision(s[i], s[n - 1], case_insensitive, overrides).len() > 0,
        )
    }
}

/// How many pairs of commands share an identifier, of which one is among the first `n` and the other
/// comes after it.
pub open spec fn colliding<H>(
    s: Seq<Command<H>>,
    n: int,
    case_insensitive: bool,
    overrides: Map<Seq<char>, CommandOverride>,
) -> int
    decreases n,
{
    if n <= 0 {
        0
    } else {
        colliding(s, n - 1, case_insensitive, overrides) + colliding_after(
            s,
            n - 1,
            s.len() as int,
            case_insensitive,
            overrides,
        )
    }
}

/// How many of the first `n` commands something is wrong with.
pub open spec fn faulty<H>(
    s: Seq<Command<H>>,
    n: int,
    level: u8,
    parent: Option<Command<H>>,
    case_insensitive: bool,
    overrides: Map<Seq<char>, CommandOverride>,
) -> int
    decreases n,
{
    if n <= 0 {
        0
    } else {
        faulty(s, n - 1, level, parent, case_insensitive, overrides) + one_if(
            faults_of_command(s[n - 1], level, parent, case_insensitive, overrides).len() > 0,
        )
    }
}

proof fn lemma_collisions_after<H>(
    s: Seq<Command<H>>,
    i: int,
    n: int,
    case_insensitive: bool,
    overrides: Map<Seq<char>, CommandOverride>,
)
    ensures
        concat_range(
            i + 1,
            n,
            |j: int| collision_fault(s[i], s[j], case_insensitive, overrides),
        ).len() == colliding_after(s, i, n, case_insensitive, overrides),
    decreases n - i,
{
    if n > i + 1 {
        lemma_collisions_after(s, i, n - 1, case_insensitive, overrides);
    }
}

proof fn lemma_all_collisions<H>(
    s: Seq<Command<H>>,
    n: int,
    case_insensitive: bool,
    overrides: Map<Seq<char>, CommandOverride>,
)
    ensures
        concat_range(
            0,
            n,
            |i: int| collisions_after(s, i, case_insensitive, overrides),
        ).len() == colliding(s, n, case_insensitive, overrides),
    decreases n,
{
    if n > 0 {
        lemma_all_collisions(s, n - 1, case_insensitive, overrides);
        lemma_collisions_after(s, n - 1, s.len() as int, case_insensitive, overrides);
    }
}

proof fn lemma_faults_of_first<H>(
    s: Seq<Command<H>>,
    n: nat,
    level: u8,
    parent: Option<Command<H>>,
    case_insensitive: bool,
    overrides: Map<Seq<char>, CommandOverride>,
)
    requires
        n <= s.len(),
    ensures
        faults_of_first(s, n, level, parent, case_insensitive, overrides).len() == faulty(
            s,
            n as int,
            level,
            parent,
            case_insensitive,
            overrides,
        ) + colliding(s, n as int, case_insensitive, overrides),
    decreases n,
{
    if n > 0 {
        lemma_faults_of_first(s, (n - 1) as nat, level, parent, case_insensitive, overrides);
        lemma_collisions_after(s, n - 1, s.len() as int, case_insensitive, overrides);
    }
}

proof fn lemma_slash_commands<H>(s: Seq<Command<H>>, n: int)
    requires
        0 <= n <= s.len(),
    ensures
        slash_commands(s.take(n)).len() == slash_before(s, n),
    decreases n,
{
    reveal(Seq::filter);
    if n > 0 {
        lemma_slash_commands(s, n - 1);
        assert(s.take(n).drop_last() =~= s.take(n - 1));
    }
}

/// The check of stored commands reports one fault for each command with faults, one for each pair of
/// commands that share identifiers, and one if there are more than 25 slash commands below the top
/// level.
pub proof fn law_number_of_storage_faults<H>(
    s: Seq<Command<H>>,
    level: u8,
    parent: Option<Command<H>>,
    case_insensitive: bool,
    overrides: Map<Seq<char>, CommandOverride>,
)
    ensures
        faults_of_storage(s, level, parent, case_insensitive, overrides).len() == faulty(
            s,
            s.len() as int,
            level,
            parent,
            case_insensitive,
            overrides,
        ) + colliding(s, s.len() as int, case_insensitive, overrides) + one_if(
            level > 1 && slash_before(s, s.len() as int) > 25,
        ),
{
    lemma_faults_of_first(s, s.len(), level, parent, case_insensitive, overrides);
    lemma_slash_commands(s, s.len() as int);
    assert(s.take(s.len() as int) =~= s);
}

/// The check of the top level commands reports what the check of stored commands does, one fault for
/// each pair of context menu commands of one type that share identifiers, and one for each kind of
/// command of which there are too many.
pub proof fn law_number_of_top_level_faults<H>(
    s: Seq<Command<H>>,
    case_insensitive: bool,
    overrides: Map<Seq<char>, CommandOverride>,
)
    ensures
        ({
            let users = context_commands(s, ContextMenuType::User);
            let messages = context_commands(s, ContextMenuType::Message);
            faults_of_top_level(s, case_insensitive, overrides).len() == faults_of_storage(
                s,
                1,
                None,
                case_insensitive,
                overrides,
            ).len() + colliding(users, users.len() as int, case_insensitive, overrides) + colliding(
                messages,
                messages.len() as int,
                case_insensitive,
                overrides,
            ) + one_if(users.len() > 5) + one_if(messages.len() > 5) + one_if(
                slash_before(s, s.len() as int) > 100,
            )
        }),
{
    let users = context_commands(s, ContextMenuType::User);
    let messages = context_commands(s, ContextMenuType::Message);
    lemma_all_collisions(users, users.len() as int, case_insensitive, overrides);
    lemma_all_collisions(messages, messages.len() as int, case_insensitive, overrides);
    lemma_slash_commands(s, s.len() as int);
    assert(s.take(s.len() as int) =~= s);
}

/// Whether a user can see the two options under one name.
pub open spec fn clash<H>(a: CommandParameter<H>, b: CommandParameter<H>) -> bool {
    exists|text: Seq<char>| #[trigger] share_name(a, b, text)
}

/// How many of the options after the `i`th and before the `n`th share a name with the `i`th.
pub open spec fn clashing_after<H>(s: Seq<CommandParameter<H>>, i: int, n: int) -> int
    decreases n - i,
{
    if n <= i + 1 {
        0
    } else {
        clashing_after(s, i, n - 1) + one_if(clash(s[i], s[n - 1]))
    }
}

/// How many pairs of options share a name, of which one is among the first `n` and the other comes
/// after it.
pub open spec fn clashing<H>(s: Seq<CommandParameter<H>>, n: int) -> int
    decreases n,
{
    if n <= 0 {
        0
    } else {
        clashing(s, n - 1) + clashing_after(s, n - 1, s.len() as int)
    }
}

proof fn lemma_clash<H>(a: CommandParameter<H>, b: CommandParameter<H>)
    ensures
        a.conflicting_names(b).len() > 0 <==> clash(a, b),
{
    let names = a.conflicting_names(b);
    if names.len() > 0 {
        assert(names.contains(names[0]));
        law_conflicting_names(a, b, names[0]);
    }
    if clash(a, b) {
        let text = choose|text: Seq<char>| #[trigger] share_name(a, b, text);
        law_conflicting_names(a, b, text);
    }
}

proof fn lemma_clashing_after<H>(c: Command<H>, i: int, n: int)
    ensures
        concat_range(i + 1, n, |j: int| c.duplicate_faults(i, j)).len() == clashing_after(
            c.parameters@,
            i,
            n,
        ),
    decreases n - i,
{
    if n > i + 1 {
        lemma_clashing_after(c, i, n - 1);
        lemma_clash(c.parameters@[i], c.parameters@[n - 1]);
    }
}

proof fn lemma_clashing<H>(c: Command<H>, n: int)
    ensures
        concat_range(0, n, |i: int| c.duplicates_after(i)).len() == clashing(c.parameters@, n),
    decreases n,
{
    if n > 0 {
        lemma_clashing(c, n - 1);
        lemma_clashing_after(c, n - 1, c.parameters@.len() as int);
    }
}

/// The check of options reports one fault for each pair of options that share a name, one if there
/// are more than 25 options, and one if anything is wrong with single options.
pub proof fn law_number_of_option_faults<H>(c: Command<H>)
    requires
        c.subcommands@.len() == 0,
    ensures
        c.all_option_faults().len() == clashing(c.parameters@, c.parameters@.len() as int) + one_if(
            c.parameters@.len() > 25,
        ) + one_if(c.parameter_faults().len() > 0),
{
    lemma_clashing(c, c.parameters@.len() as int);
}

} // verus!

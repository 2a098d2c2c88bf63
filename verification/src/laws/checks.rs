//! Laws on what the checks of commands report.

use crate::laws::naming::{
    has_proper_override, is_shared_alias, is_shared_localization, lemma_shared_alias,
    lemma_shared_name,
};
use crate::laws::options::{
    law_bad_descriptions, law_bad_names, law_duplicated_names_are_reported,
    lemma_option_faults_parts, says, says_in, share_name,
};
use crate::laws::search::is_off;
use crate::names::{is_accepted_name, is_compliant_context_menu_name};
use crate::seqs::{
    concat_range, lemma_add_contains, lemma_concat_range_contains, lemma_only_if_contains, only_if,
};
use crate::structs::command::Command;
use crate::structs::command_override::CommandOverride;
use crate::structs::command_storage::{context_commands, ContextMenuType};
use crate::structs::consistency::{
    all_collisions, collision_fault, collisions_after, collisions_with_other, faults_at,
    faults_of_command, faults_of_context_commands, faults_of_first, faults_of_storage,
    faults_of_top_level, next_level, prefix_collision_fault, slash_commands,
};
use crate::structs::errors::{CommandFault, StorageFault};
use crate::structs::length::command_length;
use crate::structs::naming::{naming_collision, shared_aliases, shared_names};
use crate::structs::options::{all_texts, bad_names};
use crate::text::same_text;
use vstd::prelude::*;

verus! {

/// The names of a command that are reported: those that Discord does not accept for a slash command,
/// or for a context menu command if it is no slash command, and the name in the context menu if it
/// breaks the rule for those.
pub proof fn law_bad_command_names<H>(c: Command<H>, text: Seq<char>)
    ensures
        c.bad_command_names().contains(text) <==> {
            ||| (c.name@ == text || says(c.name_localizations@, text)) && !is_accepted_name(
                text,
                c.slash_action is None,
            )
            ||| c.context_menu_name is Some && c.context_menu_name->0@ == text
                && !is_compliant_context_menu_name(text)
        },
{
    law_bad_names(c.name_localizations@, c.name@, c.slash_action is None, text);
    let x = bad_names(all_texts(c.name_localizations@, c.name@), c.slash_action is None);
    match c.context_menu_name {
        Some(name) => {
            lemma_only_if_contains(!is_compliant_context_menu_name(name@), name@, text);
            lemma_add_contains(
                x,
                only_if(!is_compliant_context_menu_name(name@), name@),
                text,
            );
        },
        None => {
            assert(x + Seq::<Seq<char>>::empty() =~= x);
        },
    }
}

/// The descriptions of a command that are reported: those that are empty or have more than 100
/// characters.
pub proof fn law_bad_command_descriptions<H>(c: Command<H>, text: Seq<char>)
    ensures
        c.bad_command_descriptions().contains(text) <==> ((c.description is Some
            && c.description->0@ == text) || says(c.description_localizations@, text)) && (
        text.len() == 0 || text.len() > 100),
{
    law_bad_descriptions(c.description_localizations@, c.description, text);
}

/// Whether `f` tells what is wrong with the command `c` on `level` below `parent`, its options and
/// its subcommands aside.
pub open spec fn tells_of_command<H>(
    f: CommandFault<H>,
    c: Command<H>,
    level: u8,
    parent: Option<Command<H>>,
) -> bool {
    let slash = c.slash_action is Some;
    let menu = c.context_menu_action is Some;
    match f {
        CommandFault::MaxLengthExceeded(cmd) => cmd == c && (slash && level == 1 || menu)
            && command_length(c, slash) > 8000,
        CommandFault::ParentCommandTypeWrong(cmd) => cmd == c && parent is Some && (
        c.prefix_action is Some && parent->0.prefix_action is None || slash
            && parent->0.slash_action is None),
        CommandFault::HierarchyLevelExceeded(cmd) => cmd == c && slash && level > 3,
        CommandFault::ContextMenuWithOptions(cmd) => cmd == c && menu && c.parameters@.len() > 0,
        CommandFault::NameNotCompliant { cmd, names } => cmd == c && (slash || menu) && names.len()
            > 0 && names == c.bad_command_names(),
        CommandFault::DescriptionNotCompliant { cmd, descriptions } => cmd == c && slash
            && descriptions.len() > 0 && descriptions == c.bad_command_descriptions(),
        _ => false,
    }
}

/// Whether `f` is about options.
pub open spec fn is_about_options<H>(f: CommandFault<H>) -> bool {
    f is TooManyOptions || f is OptionNameDuplicated || f is Options
}

proof fn lemma_option_faults_are_about_options<H>(c: Command<H>, f: CommandFault<H>)
    requires
        c.all_option_faults().contains(f),
    ensures
        is_about_options(f),
{
    lemma_option_faults_parts(c, f);
    if exists|i: int, j: int|
        0 <= i < j < c.parameters@.len() && (#[trigger] c.duplicate_faults(i, j)).contains(f) {
        let (i, j) = choose|i: int, j: int|
            0 <= i < j < c.parameters@.len() && (#[trigger] c.duplicate_faults(i, j)).contains(f);
        let names = c.parameters@[i].conflicting_names(c.parameters@[j]);
        lemma_only_if_contains(
            names.len() > 0,
            CommandFault::OptionNameDuplicated {
                cmd: c,
                params: (c.parameters@[i], c.parameters@[j]),
                names,
            },
            f,
        );
    }
}

proof fn lemma_seven<E>(
    a: Seq<E>,
    b: Seq<E>,
    c: Seq<E>,
    d: Seq<E>,
    e: Seq<E>,
    g: Seq<E>,
    h: Seq<E>,
    f: E,
)
    ensures
        (a + b + c + d + e + g + h).contains(f) <==> a.contains(f) || b.contains(f) || c.contains(f)
            || d.contains(f) || e.contains(f) || g.contains(f) || h.contains(f),
{
    lemma_add_contains(a, b, f);
    lemma_add_contains(a + b, c, f);
    lemma_add_contains(a + b + c, d, f);
    lemma_add_contains(a + b + c + d, e, f);
    lemma_add_contains(a + b + c + d + e, g, f);
    lemma_add_contains(a + b + c + d + e + g, h, f);
}

proof fn lemma_own_faults<H>(
    c: Command<H>,
    level: u8,
    parent: Option<Command<H>>,
    f: CommandFault<H>,
)
    ensures
        c.own_faults(level, parent).contains(f) <==> {
            ||| tells_of_command(f, c, level, parent)
            ||| c.slash_action is Some && c.all_option_faults().contains(f)
        },
{
    let slash = c.slash_action is Some;
    let menu = c.context_menu_action is Some;
    let options = if slash {
        c.all_option_faults()
    } else {
        Seq::empty()
    };
    let names = c.bad_command_names();
    let descriptions = c.bad_command_descriptions();
    let e1 = CommandFault::MaxLengthExceeded(c);
    let e2 = CommandFault::ParentCommandTypeWrong(c);
    let e3 = CommandFault::HierarchyLevelExceeded(c);
    let e4 = CommandFault::ContextMenuWithOptions(c);
    let e5 = CommandFault::NameNotCompliant { cmd: c, names };
    let e6 = CommandFault::DescriptionNotCompliant { cmd: c, descriptions };
    let b1 = c.is_too_long(level);
    let b2 = parent is Some && c.mismatches(parent->0);
    let b3 = slash && level > 3;
    let b4 = menu && c.parameters@.len() > 0;
    let b5 = (slash || menu) && names.len() > 0;
    let b6 = slash && descriptions.len() > 0;
    assert(c.own_faults(level, parent) == only_if(b1, e1) + only_if(b2, e2) + only_if(b3, e3)
        + only_if(b4, e4) + only_if(b5, e5) + only_if(b6, e6) + options);
    lemma_seven(
        only_if(b1, e1),
        only_if(b2, e2),
        only_if(b3, e3),
        only_if(b4, e4),
        only_if(b5, e5),
        only_if(b6, e6),
        options,
        f,
    );
    lemma_only_if_contains(b1, e1, f);
    lemma_only_if_contains(b2, e2, f);
    lemma_only_if_contains(b3, e3, f);
    lemma_only_if_contains(b4, e4, f);
    lemma_only_if_contains(b5, e5, f);
    lemma_only_if_contains(b6, e6, f);
}

/// What the check of a command reports: what is wrong with it, what is wrong with its options if it
/// is a slash command, and, in one fault, what is wrong with its subcommands, one level below it.
pub proof fn law_command_faults<H>(
    c: Command<H>,
    level: u8,
    parent: Option<Command<H>>,
    case_insensitive: bool,
    overrides: Map<Seq<char>, CommandOverride>,
    f: CommandFault<H>,
)
    ensures
        ({
            let reported = faults_of_command(
                c,
                level,
                parent,
                case_insensitive,
                overrides,
            ).contains(f);
            let below: u8 = if level < 255 {
                (level + 1) as u8
            } else {
                255
            };
            match f {
                CommandFault::Subcommands { cmd, storage } => reported <==> cmd == c
                    && storage.len() > 0 && storage == faults_of_storage(
                    c.subcommands@,
                    below,
                    Some(c),
                    case_insensitive,
                    overrides,
                ),
                _ => if is_about_options(f) {
                    reported <==> c.slash_action is Some && c.all_option_faults().contains(f)
                } else {
                    reported <==> tells_of_command(f, c, level, parent)
                },
            }
        }),
{
    let below = faults_of_storage(
        c.subcommands@,
        next_level(level),
        Some(c),
        case_insensitive,
        overrides,
    );
    let e = CommandFault::Subcommands { cmd: c, storage: below };
    lemma_own_faults(c, level, parent, f);
    lemma_only_if_contains(below.len() > 0, e, f);
    lemma_add_contains(c.own_faults(level, parent), only_if(below.len() > 0, e), f);
    if c.all_option_faults().contains(f) {
        lemma_option_faults_are_about_options(c, f);
    }
}

/// The check of a slash command without subcommands reports every two options that a user can see
/// under one name, with that name.
pub proof fn law_check_reports_duplicated_names<H>(
    c: Command<H>,
    level: u8,
    parent: Option<Command<H>>,
    case_insensitive: bool,
    overrides: Map<Seq<char>, CommandOverride>,
    i: int,
    j: int,
    text: Seq<char>,
)
    requires
        c.slash_action is Some,
        c.subcommands@.len() == 0,
        0 <= i < j < c.parameters@.len(),
        share_name(c.parameters@[i], c.parameters@[j], text),
    ensures
        exists|names: Seq<Seq<char>>| #[trigger]
            names.contains(text) && faults_of_command(
                c,
                level,
                parent,
                case_insensitive,
                overrides,
            ).contains(
                CommandFault::OptionNameDuplicated {
                    cmd: c,
                    params: (c.parameters@[i], c.parameters@[j]),
                    names,
                },
            ),
{
    law_duplicated_names_are_reported(c, i, j, text);
    let names = choose|names: Seq<Seq<char>>| #[trigger]
        names.contains(text) && c.all_option_faults().contains(
            CommandFault::OptionNameDuplicated {
                cmd: c,
                params: (c.parameters@[i], c.parameters@[j]),
                names,
            },
        );
    let f = CommandFault::OptionNameDuplicated {
        cmd: c,
        params: (c.parameters@[i], c.parameters@[j]),
        names,
    };
    law_command_faults(c, level, parent, case_insensitive, overrides, f);
}

/// If the check of a slash command without subcommands reports nothing, no two of its options have
/// the same name for one locale.
pub proof fn law_checked_options_differ<H>(
    c: Command<H>,
    level: u8,
    parent: Option<Command<H>>,
    case_insensitive: bool,
    overrides: Map<Seq<char>, CommandOverride>,
    i: int,
    j: int,
    locale: Seq<char>,
    text: Seq<char>,
)
    requires
        c.slash_action is Some,
        c.subcommands@.len() == 0,
        faults_of_command(c, level, parent, case_insensitive, overrides).len() == 0,
        0 <= i < j < c.parameters@.len(),
    ensures
        !(says_in(c.parameters@[i].name_localizations@, locale, text) && says_in(
            c.parameters@[j].name_localizations@,
            locale,
            text,
        )),
{
    if says_in(c.parameters@[i].name_localizations@, locale, text) && says_in(
        c.parameters@[j].name_localizations@,
        locale,
        text,
    ) {
        law_check_reports_duplicated_names(
            c,
            level,
            parent,
            case_insensitive,
            overrides,
            i,
            j,
            text,
        );
    }
}

/// In which place a fault of a command is reported.
pub open spec fn place<H>(f: CommandFault<H>) -> int {
    match f {
        CommandFault::MaxLengthExceeded(_) => 0,
        CommandFault::ParentCommandTypeWrong(_) => 1,
        CommandFault::HierarchyLevelExceeded(_) => 2,
        CommandFault::ContextMenuWithOptions(_) => 3,
        CommandFault::NameNotCompliant { .. } => 4,
        CommandFault::DescriptionNotCompliant { .. } => 5,
        CommandFault::TooManyOptions { .. } => 6,
        CommandFault::OptionNameDuplicated { .. } => 7,
        CommandFault::Options { .. } => 8,
        CommandFault::Subcommands { .. } => 9,
    }
}

/// Whether no kind of fault is told before one that belongs before it, and none twice, but for
/// options that share a name, of which there can be several.
pub open spec fn are_in_place<H>(s: Seq<CommandFault<H>>) -> bool {
    forall|i: int, j: int|
        0 <= i < j < s.len() ==> place(#[trigger] s[i]) < place(#[trigger] s[j]) || place(s[i])
            == place(s[j]) == 7
}

/// Whether all of the faults belong in one place, and there are no more than can be there.
spec fn are_at<H>(t: Seq<CommandFault<H>>, r: int) -> bool {
    &&& forall|i: int| 0 <= i < t.len() ==> place(#[trigger] t[i]) == r
    &&& t.len() <= 1 || r == 7
}

spec fn are_before<H>(t: Seq<CommandFault<H>>, r: int) -> bool {
    forall|i: int| 0 <= i < t.len() ==> place(#[trigger] t[i]) < r
}

proof fn lemma_in_place<H>(s: Seq<CommandFault<H>>, t: Seq<CommandFault<H>>, r: int)
    requires
        are_in_place(s),
        are_before(s, r),
        are_at(t, r),
    ensures
        are_in_place(s + t),
        are_before(s + t, r + 1),
{
    let u = s + t;
    assert forall|i: int, j: int| 0 <= i < j < u.len() implies place(#[trigger] u[i]) < place(
        #[trigger] u[j],
    ) || place(u[i]) == place(u[j]) == 7 by {
        if j < s.len() {
            assert(u[i] == s[i] && u[j] == s[j]);
        } else if i < s.len() {
            assert(u[i] == s[i] && u[j] == t[j - s.len()]);
        } else {
            assert(u[i] == t[i - s.len()] && u[j] == t[j - s.len()]);
        }
    }
    assert forall|i: int| 0 <= i < u.len() implies place(#[trigger] u[i]) < r + 1 by {
        if i < s.len() {
            assert(u[i] == s[i]);
        } else {
            assert(u[i] == t[i - s.len()]);
        }
    }
}

proof fn lemma_one_at<H>(b: bool, f: CommandFault<H>)
    ensures
        are_at(only_if(b, f), place(f)),
{
}

proof fn lemma_none_at<H>(r: int)
    ensures
        are_at(Seq::<CommandFault<H>>::empty(), r),
{
}

proof fn lemma_own_in_place<H>(c: Command<H>, level: u8, parent: Option<Command<H>>)
    ensures
        are_in_place(c.own_faults(level, parent)),
        are_before(c.own_faults(level, parent), 9),
{
    let slash = c.slash_action is Some;
    let menu = c.context_menu_action is Some;
    let names = c.bad_command_names();
    let descriptions = c.bad_command_descriptions();
    let e0 = CommandFault::MaxLengthExceeded(c);
    let e1 = CommandFault::ParentCommandTypeWrong(c);
    let e2 = CommandFault::HierarchyLevelExceeded(c);
    let e3 = CommandFault::ContextMenuWithOptions(c);
    let e4 = CommandFault::NameNotCompliant { cmd: c, names };
    let e5 = CommandFault::DescriptionNotCompliant { cmd: c, descriptions };
    let b0 = c.is_too_long(level);
    let b1 = parent is Some && c.mismatches(parent->0);
    let b2 = slash && level > 3;
    let b3 = menu && c.parameters@.len() > 0;
    let b4 = (slash || menu) && names.len() > 0;
    let b5 = slash && descriptions.len() > 0;
    lemma_one_at(b0, e0);
    lemma_one_at(b1, e1);
    lemma_one_at(b2, e2);
    lemma_one_at(b3, e3);
    lemma_one_at(b4, e4);
    lemma_one_at(b5, e5);
    let (t6, t7, t8) = lemma_options_in_place(c);
    lemma_nine_in_place(
        only_if(b0, e0),
        only_if(b1, e1),
        only_if(b2, e2),
        only_if(b3, e3),
        only_if(b4, e4),
        only_if(b5, e5),
        t6,
        t7,
        t8,
    );
}

/// The three parts of what is told of options.
proof fn lemma_options_in_place<H>(c: Command<H>) -> (r: (
    Seq<CommandFault<H>>,
    Seq<CommandFault<H>>,
    Seq<CommandFault<H>>,
))
    ensures
        are_at(r.0, 6),
        are_at(r.1, 7),
        are_at(r.2, 8),
        (if c.slash_action is Some {
            c.all_option_faults()
        } else {
            Seq::empty()
        }) == r.0 + r.1 + r.2,
{
    if c.slash_action is Some && c.subcommands@.len() == 0 {
        let n = c.parameters@.len() as int;
        let many = CommandFault::TooManyOptions { cmd: c };
        let single = CommandFault::Options { cmd: c, faults: c.parameter_faults() };
        lemma_one_at(n > 25, many);
        lemma_one_at(c.parameter_faults().len() > 0, single);
        lemma_duplicates_in_place(c);
        (
            only_if(n > 25, many),
            concat_range(0, n, |i: int| c.duplicates_after(i)),
            only_if(c.parameter_faults().len() > 0, single),
        )
    } else {
        lemma_none_at::<H>(6);
        lemma_none_at::<H>(7);
        lemma_none_at::<H>(8);
        let none = Seq::<CommandFault<H>>::empty();
        assert(none + none + none =~= none);
        (none, none, none)
    }
}

proof fn lemma_nine_in_place<H>(
    t0: Seq<CommandFault<H>>,
    t1: Seq<CommandFault<H>>,
    t2: Seq<CommandFault<H>>,
    t3: Seq<CommandFault<H>>,
    t4: Seq<CommandFault<H>>,
    t5: Seq<CommandFault<H>>,
    t6: Seq<CommandFault<H>>,
    t7: Seq<CommandFault<H>>,
    t8: Seq<CommandFault<H>>,
)
    requires
        are_at(t0, 0),
        are_at(t1, 1),
        are_at(t2, 2),
        are_at(t3, 3),
        are_at(t4, 4),
        are_at(t5, 5),
        are_at(t6, 6),
        are_at(t7, 7),
        are_at(t8, 8),
    ensures
        are_in_place(t0 + t1 + t2 + t3 + t4 + t5 + (t6 + t7 + t8)),
        are_before(t0 + t1 + t2 + t3 + t4 + t5 + (t6 + t7 + t8), 9),
{
    let none = Seq::<CommandFault<H>>::empty();
    lemma_in_place(none, t0, 0);
    assert(none + t0 =~= t0);
    lemma_in_place(t0, t1, 1);
    lemma_in_place(t0 + t1, t2, 2);
    lemma_in_place(t0 + t1 + t2, t3, 3);
    lemma_in_place(t0 + t1 + t2 + t3, t4, 4);
    lemma_in_place(t0 + t1 + t2 + t3 + t4, t5, 5);
    let s = t0 + t1 + t2 + t3 + t4 + t5;
    lemma_in_place(s, t6, 6);
    lemma_in_place(s + t6, t7, 7);
    lemma_in_place(s + t6 + t7, t8, 8);
    assert(s + t6 + t7 + t8 =~= s + (t6 + t7 + t8));
}

proof fn lemma_duplicates_in_place<H>(c: Command<H>)
    ensures
        ({
            let s = concat_range(0, c.parameters@.len() as int, |i: int| c.duplicates_after(i));
            are_at(s, 7)
        }),
{
    let n = c.parameters@.len() as int;
    let g = |i: int| c.duplicates_after(i);
    let s = concat_range(0, n, g);
    assert forall|k: int| 0 <= k < s.len() implies place(#[trigger] s[k]) == 7 by {
        let f = s[k];
        assert(s.contains(f));
        lemma_concat_range_contains(0, n, g, f);
        let i = choose|i: int| 0 <= i < n && (#[trigger] g(i)).contains(f);
        let h = |j: int| c.duplicate_faults(i, j);
        lemma_concat_range_contains(i + 1, n, h, f);
        let j = choose|j: int| i + 1 <= j < n && (#[trigger] h(j)).contains(f);
        let names = c.parameters@[i].conflicting_names(c.parameters@[j]);
        lemma_only_if_contains(
            names.len() > 0,
            CommandFault::OptionNameDuplicated {
                cmd: c,
                params: (c.parameters@[i], c.parameters@[j]),
                names,
            },
            f,
        );
    }
}

/// What the check of a command reports is told in one order, and once.
pub proof fn law_order_of_command_faults<H>(
    c: Command<H>,
    level: u8,
    parent: Option<Command<H>>,
    case_insensitive: bool,
    overrides: Map<Seq<char>, CommandOverride>,
)
    ensures
        are_in_place(faults_of_command(c, level, parent, case_insensitive, overrides)),
{
    let below = faults_of_storage(
        c.subcommands@,
        next_level(level),
        Some(c),
        case_insensitive,
        overrides,
    );
    let e = CommandFault::Subcommands { cmd: c, storage: below };
    lemma_own_in_place(c, level, parent);
    lemma_one_at(below.len() > 0, e);
    lemma_in_place(c.own_faults(level, parent), only_if(below.len() > 0, e), 9);
}

/// How many of the first `n` commands are slash commands.
pub open spec fn slash_before<H>(s: Seq<Command<H>>, n: int) -> int
    decreases n,
{
    if n <= 0 {
        0
    } else {
        slash_before(s, n - 1) + (if s[n - 1].slash_action is Some {
            1int
        } else {
            0int
        })
    }
}

proof fn lemma_slash_before<H>(s: Seq<Command<H>>, t: Seq<Command<H>>, n: int)
    requires
        n <= s.len(),
        n <= t.len(),
        forall|i: int| 0 <= i < n ==> s[i] == t[i],
    ensures
        slash_before(s, n) == slash_before(t, n),
    decreases n,
{
    if n > 0 {
        lemma_slash_before(s, t, n - 1);
    }
}

proof fn lemma_number_of_slash_commands<H>(s: Seq<Command<H>>)
    ensures
        slash_commands(s).len() == slash_before(s, s.len() as int),
    decreases s.len(),
{
    reveal(Seq::filter);
    if s.len() > 0 {
        lemma_number_of_slash_commands(s.drop_last());
        lemma_slash_before(s, s.drop_last(), s.len() - 1);
    }
}

/// Whether `f` tells of two of the commands, an earlier and a later one, with all the identifiers
/// that they share.
pub open spec fn tells_of_two<H>(
    f: StorageFault<H>,
    s: Seq<Command<H>>,
    case_insensitive: bool,
    overrides: Map<Seq<char>, CommandOverride>,
) -> bool {
    match f {
        StorageFault::DuplicatedCommandIdentifier { cmds, identifiers } => {
            &&& identifiers.len() > 0
            &&& identifiers == naming_collision(cmds.0, cmds.1, case_insensitive, overrides)
            &&& exists|i: int, j: int|
                0 <= i < j < s.len() && cmds == (#[trigger] s[i], #[trigger] s[j])
        },
        _ => false,
    }
}

proof fn lemma_collision_fault<H>(
    a: Command<H>,
    b: Command<H>,
    case_insensitive: bool,
    overrides: Map<Seq<char>, CommandOverride>,
    f: StorageFault<H>,
)
    ensures
        collision_fault(a, b, case_insensitive, overrides).contains(f) <==> {
            let identifiers = naming_collision(a, b, case_insensitive, overrides);
            identifiers.len() > 0 && f == (StorageFault::DuplicatedCommandIdentifier {
                cmds: (a, b),
                identifiers,
            })
        },
{
    let identifiers = naming_collision(a, b, case_insensitive, overrides);
    lemma_only_if_contains(
        identifiers.len() > 0,
        StorageFault::DuplicatedCommandIdentifier { cmds: (a, b), identifiers },
        f,
    );
}

proof fn lemma_collisions_after<H>(
    s: Seq<Command<H>>,
    i: int,
    case_insensitive: bool,
    overrides: Map<Seq<char>, CommandOverride>,
    f: StorageFault<H>,
)
    ensures
        collisions_after(s, i, case_insensitive, overrides).contains(f) <==> exists|j: int|
            i < j < s.len() && #[trigger] collision_fault(
                s[i],
                s[j],
                case_insensitive,
                overrides,
            ).contains(f),
{
    let g = |j: int| collision_fault(s[i], s[j], case_insensitive, overrides);
    lemma_concat_range_contains(i + 1, s.len() as int, g, f);
    if collisions_after(s, i, case_insensitive, overrides).contains(f) {
        let j = choose|j: int| i + 1 <= j < s.len() && (#[trigger] g(j)).contains(f);
        assert(collision_fault(s[i], s[j], case_insensitive, overrides).contains(f));
    }
    if exists|j: int|
        i < j < s.len() && #[trigger] collision_fault(
            s[i],
            s[j],
            case_insensitive,
            overrides,
        ).contains(f) {
        let j = choose|j: int|
            i < j < s.len() && #[trigger] collision_fault(
                s[i],
                s[j],
                case_insensitive,
                overrides,
            ).contains(f);
        assert(g(j).contains(f));
    }
}

proof fn lemma_all_collisions<H>(
    s: Seq<Command<H>>,
    case_insensitive: bool,
    overrides: Map<Seq<char>, CommandOverride>,
    f: StorageFault<H>,
)
    ensures
        all_collisions(s, case_insensitive, overrides).contains(f) <==> tells_of_two(
            f,
            s,
            case_insensitive,
            overrides,
        ),
{
    let g = |i: int| collisions_after(s, i, case_insensitive, overrides);
    lemma_concat_range_contains(0, s.len() as int, g, f);
    if all_collisions(s, case_insensitive, overrides).contains(f) {
        let i = choose|i: int| 0 <= i < s.len() && (#[trigger] g(i)).contains(f);
        lemma_collisions_after(s, i, case_insensitive, overrides, f);
        let j = choose|j: int|
            i < j < s.len() && #[trigger] collision_fault(
                s[i],
                s[j],
                case_insensitive,
                overrides,
            ).contains(f);
        lemma_collision_fault(s[i], s[j], case_insensitive, overrides, f);
    }
    if tells_of_two(f, s, case_insensitive, overrides) {
        let cmds = f->cmds;
        let (i, j) = choose|i: int, j: int|
            0 <= i < j < s.len() && cmds == (#[trigger] s[i], #[trigger] s[j]);
        lemma_collision_fault(s[i], s[j], case_insensitive, overrides, f);
        lemma_collisions_after(s, i, case_insensitive, overrides, f);
        assert(g(i).contains(f));
    }
}

/// Whether `f` tells what is wrong with one of the commands on its own.
pub open spec fn tells_of_one<H>(
    f: StorageFault<H>,
    s: Seq<Command<H>>,
    level: u8,
    parent: Option<Command<H>>,
    case_insensitive: bool,
    overrides: Map<Seq<char>, CommandOverride>,
) -> bool {
    match f {
        StorageFault::Commands(faults) => faults.len() > 0 && exists|i: int|
            0 <= i < s.len() && faults == faults_of_command(
                #[trigger] s[i],
                level,
                parent,
                case_insensitive,
                overrides,
            ),
        _ => false,
    }
}

proof fn lemma_faults_of_first<H>(
    s: Seq<Command<H>>,
    n: nat,
    level: u8,
    parent: Option<Command<H>>,
    case_insensitive: bool,
    overrides: Map<Seq<char>, CommandOverride>,
    f: StorageFault<H>,
)
    requires
        n <= s.len(),
    ensures
        faults_of_first(s, n, level, parent, case_insensitive, overrides).contains(f) <==> exists|
            i: int,
        |
            0 <= i < n && #[trigger] faults_at(
                s,
                i,
                faults_of_command(s[i], level, parent, case_insensitive, overrides),
                case_insensitive,
                overrides,
            ).contains(f),
    decreases n,
{
    if n > 0 {
        let m = (n - 1) as nat;
        lemma_faults_of_first(s, m, level, parent, case_insensitive, overrides, f);
        let own = faults_of_command(s[n - 1], level, parent, case_insensitive, overrides);
        lemma_add_contains(
            faults_of_first(s, m, level, parent, case_insensitive, overrides),
            faults_at(s, n - 1, own, case_insensitive, overrides),
            f,
        );
    }
}

proof fn lemma_faults_at<H>(
    s: Seq<Command<H>>,
    i: int,
    own: Seq<CommandFault<H>>,
    case_insensitive: bool,
    overrides: Map<Seq<char>, CommandOverride>,
    f: StorageFault<H>,
)
    ensures
        faults_at(s, i, own, case_insensitive, overrides).contains(f) <==> {
            ||| own.len() > 0 && f == StorageFault::Commands(own)
            ||| collisions_after(s, i, case_insensitive, overrides).contains(f)
        },
{
    let e = StorageFault::Commands(own);
    lemma_only_if_contains(own.len() > 0, e, f);
    lemma_add_contains(
        only_if(own.len() > 0, e),
        collisions_after(s, i, case_insensitive, overrides),
        f,
    );
}

/// What the check of stored commands reports: what is wrong with one of them, two of them that
/// share identifiers, and that there are more than 25 slash commands, unless they are on the top
/// level.
pub proof fn law_storage_faults<H>(
    s: Seq<Command<H>>,
    level: u8,
    parent: Option<Command<H>>,
    case_insensitive: bool,
    overrides: Map<Seq<char>, CommandOverride>,
    f: StorageFault<H>,
)
    ensures
        faults_of_storage(s, level, parent, case_insensitive, overrides).contains(f) <==> {
            ||| f == StorageFault::<H>::TooManySlashCommands(25) && level > 1 && slash_before(
                s,
                s.len() as int,
            ) > 25
            ||| tells_of_one(f, s, level, parent, case_insensitive, overrides)
            ||| tells_of_two(f, s, case_insensitive, overrides)
        },
{
    let first = faults_of_first(s, s.len(), level, parent, case_insensitive, overrides);
    let e = StorageFault::<H>::TooManySlashCommands(25);
    let many = level > 1 && slash_commands(s).len() > 25;
    lemma_number_of_slash_commands(s);
    lemma_only_if_contains(many, e, f);
    lemma_add_contains(only_if(many, e), first, f);
    lemma_faults_of_first(s, s.len(), level, parent, case_insensitive, overrides, f);
    lemma_all_collisions(s, case_insensitive, overrides, f);
    let g = |i: int| collisions_after(s, i, case_insensitive, overrides);
    lemma_concat_range_contains(0, s.len() as int, g, f);
    if first.contains(f) {
        let i = choose|i: int|
            0 <= i < s.len() && #[trigger] faults_at(
                s,
                i,
                faults_of_command(s[i], level, parent, case_insensitive, overrides),
                case_insensitive,
                overrides,
            ).contains(f);
        let own = faults_of_command(s[i], level, parent, case_insensitive, overrides);
        lemma_faults_at(s, i, own, case_insensitive, overrides, f);
        if collisions_after(s, i, case_insensitive, overrides).contains(f) {
            assert(g(i).contains(f));
        }
    }
    if tells_of_one(f, s, level, parent, case_insensitive, overrides) {
        let faults = f->Commands_0;
        let i = choose|i: int|
            0 <= i < s.len() && faults == faults_of_command(
                #[trigger] s[i],
                level,
                parent,
                case_insensitive,
                overrides,
            );
        lemma_faults_at(s, i, faults, case_insensitive, overrides, f);
    }
    if tells_of_two(f, s, case_insensitive, overrides) {
        let i = choose|i: int| 0 <= i < s.len() && (#[trigger] g(i)).contains(f);
        let own = faults_of_command(s[i], level, parent, case_insensitive, overrides);
        lemma_faults_at(s, i, own, case_insensitive, overrides, f);
    }
}

proof fn lemma_faults_of_context_commands<H>(
    s: Seq<Command<H>>,
    case_insensitive: bool,
    overrides: Map<Seq<char>, CommandOverride>,
    f: StorageFault<H>,
)
    ensures
        faults_of_context_commands(s, case_insensitive, overrides).contains(f) <==> {
            ||| tells_of_two(f, s, case_insensitive, overrides)
            ||| f == StorageFault::TooManyContextCommands(s) && s.len() > 5
        },
{
    let e = StorageFault::TooManyContextCommands(s);
    lemma_all_collisions(s, case_insensitive, overrides, f);
    lemma_only_if_contains(s.len() > 5, e, f);
    lemma_add_contains(
        all_collisions(s, case_insensitive, overrides),
        only_if(s.len() > 5, e),
        f,
    );
}

/// What the check of the top level commands reports: that there are more than 100 slash commands or
/// more than 5 context menu commands of one type, two commands on the top level or two context menu
/// commands of one type, on whatever level, that share identifiers, and what is wrong with one of
/// the top level commands, which are on level 1 and have no parent.
pub proof fn law_top_level_faults<H>(
    s: Seq<Command<H>>,
    case_insensitive: bool,
    overrides: Map<Seq<char>, CommandOverride>,
    f: StorageFault<H>,
)
    ensures
        faults_of_top_level(s, case_insensitive, overrides).contains(f) <==> {
            let users = context_commands(s, ContextMenuType::User);
            let messages = context_commands(s, ContextMenuType::Message);
            ||| f == StorageFault::<H>::TooManySlashCommands(100) && slash_before(
                s,
                s.len() as int,
            ) > 100
            ||| f == StorageFault::TooManyContextCommands(users) && users.len() > 5
            ||| f == StorageFault::TooManyContextCommands(messages) && messages.len() > 5
            ||| tells_of_two(f, users, case_insensitive, overrides)
            ||| tells_of_two(f, messages, case_insensitive, overrides)
            ||| tells_of_two(f, s, case_insensitive, overrides)
            ||| tells_of_one(f, s, 1, None, case_insensitive, overrides)
        },
{
    let users = context_commands(s, ContextMenuType::User);
    let messages = context_commands(s, ContextMenuType::Message);
    let e = StorageFault::<H>::TooManySlashCommands(100);
    let many = slash_commands(s).len() > 100;
    let a = only_if(many, e);
    let b = faults_of_context_commands(users, case_insensitive, overrides);
    let c = faults_of_context_commands(messages, case_insensitive, overrides);
    let d = faults_of_storage(s, 1, None, case_insensitive, overrides);
    lemma_number_of_slash_commands(s);
    lemma_only_if_contains(many, e, f);
    lemma_add_contains(a, b, f);
    lemma_add_contains(a + b, c, f);
    lemma_add_contains(a + b + c, d, f);
    lemma_faults_of_context_commands(users, case_insensitive, overrides, f);
    lemma_faults_of_context_commands(messages, case_insensitive, overrides, f);
    law_storage_faults(s, 1, None, case_insensitive, overrides, f);
}

/// Whether `x` identifies both `a` and `b` in messages: it is the main name of both, a localized name
/// of both for one locale, or an alias of both.
pub open spec fn is_shared_identifier<H>(
    a: Command<H>,
    b: Command<H>,
    x: Seq<char>,
    case_insensitive: bool,
    overrides: Map<Seq<char>, CommandOverride>,
) -> bool {
    ||| x == a.name@ && same_text(a.name@, b.name@, case_insensitive)
    ||| is_shared_localization(a, b, x, case_insensitive)
    ||| is_shared_alias(a, b, x, case_insensitive, overrides)
}

proof fn lemma_shared_identifiers<H>(
    a: Command<H>,
    b: Command<H>,
    case_insensitive: bool,
    overrides: Map<Seq<char>, CommandOverride>,
    x: Seq<char>,
)
    requires
        has_proper_override(a, overrides),
        has_proper_override(b, overrides),
    ensures
        (shared_names(a, b, case_insensitive) + shared_aliases(
            a,
            b,
            case_insensitive,
            overrides,
        )).contains(x) <==> is_shared_identifier(a, b, x, case_insensitive, overrides),
{
    lemma_shared_name(a, b, x, case_insensitive);
    lemma_shared_alias(a, b, x, case_insensitive, overrides);
    lemma_add_contains(
        shared_names(a, b, case_insensitive),
        shared_aliases(a, b, case_insensitive, overrides),
        x,
    );
}

/// A prefix command of one storage and one of another that share an identifier are reported with
/// it, unless one of them is switched off.
pub proof fn law_collisions_with_other_are_reported<H>(
    s: Seq<Command<H>>,
    t: Seq<Command<H>>,
    case_insensitive: bool,
    overrides: Map<Seq<char>, CommandOverride>,
    i: int,
    j: int,
    x: Seq<char>,
)
    requires
        0 <= i < s.len(),
        0 <= j < t.len(),
        has_proper_override(s[i], overrides),
        has_proper_override(t[j], overrides),
        s[i].prefix_action is Some,
        t[j].prefix_action is Some,
        !is_off(s[i], overrides),
        !is_off(t[j], overrides),
        is_shared_identifier(s[i], t[j], x, case_insensitive, overrides),
    ensures
        exists|identifiers: Seq<Seq<char>>| #[trigger]
            identifiers.contains(x) && collisions_with_other(
                s,
                t,
                case_insensitive,
                overrides,
            ).contains(
                StorageFault::DuplicatedCommandIdentifier { cmds: (s[i], t[j]), identifiers },
            ),
{
    let identifiers = shared_names(s[i], t[j], case_insensitive) + shared_aliases(
        s[i],
        t[j],
        case_insensitive,
        overrides,
    );
    lemma_shared_identifiers(s[i], t[j], case_insensitive, overrides, x);
    let f = StorageFault::DuplicatedCommandIdentifier { cmds: (s[i], t[j]), identifiers };
    lemma_only_if_contains(true, f, f);
    let g = |i: int|
        concat_range(
            0,
            t.len() as int,
            |j: int| prefix_collision_fault(s[i], t[j], case_insensitive, overrides),
        );
    let h = |j: int| prefix_collision_fault(s[i], t[j], case_insensitive, overrides);
    assert(h(j).contains(f));
    lemma_concat_range_contains(0, t.len() as int, h, f);
    assert(g(i).contains(f));
    lemma_concat_range_contains(0, s.len() as int, g, f);
}

/// Only such commands are reported, and only with such identifiers.
pub proof fn law_reported_collisions_with_other<H>(
    s: Seq<Command<H>>,
    t: Seq<Command<H>>,
    case_insensitive: bool,
    overrides: Map<Seq<char>, CommandOverride>,
    f: StorageFault<H>,
)
    requires
        collisions_with_other(s, t, case_insensitive, overrides).contains(f),
    ensures
        exists|i: int, j: int|
            {
                let a = #[trigger] s[i];
                let b = #[trigger] t[j];
                &&& 0 <= i < s.len() && 0 <= j < t.len()
                &&& a.prefix_action is Some && b.prefix_action is Some
                &&& !is_off(a, overrides) && !is_off(b, overrides)
                &&& f is DuplicatedCommandIdentifier
                &&& f->cmds == (a, b)
                &&& f->identifiers.len() > 0
                &&& has_proper_override(a, overrides) && has_proper_override(b, overrides)
                    ==> forall|x: Seq<char>| #[trigger]
                    f->identifiers.contains(x) <==> is_shared_identifier(
                        a,
                        b,
                        x,
                        case_insensitive,
                        overrides,
                    )
            },
{
    let g = |i: int|
        concat_range(
            0,
            t.len() as int,
            |j: int| prefix_collision_fault(s[i], t[j], case_insensitive, overrides),
        );
    lemma_concat_range_contains(0, s.len() as int, g, f);
    let i = choose|i: int| 0 <= i < s.len() && (#[trigger] g(i)).contains(f);
    let h = |j: int| prefix_collision_fault(s[i], t[j], case_insensitive, overrides);
    lemma_concat_range_contains(0, t.len() as int, h, f);
    let j = choose|j: int| 0 <= j < t.len() && (#[trigger] h(j)).contains(f);
    let a = s[i];
    let b = t[j];
    let identifiers = shared_names(a, b, case_insensitive) + shared_aliases(
        a,
        b,
        case_insensitive,
        overrides,
    );
    assert(prefix_collision_fault(a, b, case_insensitive, overrides).contains(f));
    assert(f == (StorageFault::DuplicatedCommandIdentifier { cmds: (a, b), identifiers }));
    if has_proper_override(a, overrides) && has_proper_override(b, overrides) {
        assert forall|x: Seq<char>| #[trigger] identifiers.contains(x) <==> is_shared_identifier(
            a,
            b,
            x,
            case_insensitive,
            overrides,
        ) by {
            lemma_shared_identifiers(a, b, case_insensitive, overrides, x);
        }
    }
    assert(s[i] == a && t[j] == b);
}

} // verus!

//! The rules that commands have to follow, and that the checks find exactly those that do not.

use crate::names::{is_accepted_name, is_compliant_context_menu_name};
use crate::seqs::{
    concat_range, lemma_concat_range_empty, lemma_concat_range_origin, lemma_filter_empty,
};
use crate::structs::command::{Command, CommandParameter, CommandParameterChoice};
use crate::structs::command_override::CommandOverride;
use crate::structs::command_storage::{context_commands, ContextMenuType};
use crate::structs::consistency::{
    all_collisions, collision_fault, collisions_after, collisions_with_other, faults_of_command,
    faults_of_first, faults_of_storage, faults_of_top_level, next_level, prefix_collision_fault,
    slash_commands, MAX_CONTEXT_COMMANDS, MAX_LEVEL, MAX_SLASH_SUBCOMMANDS,
    MAX_TOP_LEVEL_SLASH_COMMANDS,
};
use crate::structs::errors::StorageFault;
use crate::structs::naming::{
    is_disabled, lemma_identifiers_shared_both_ways, naming_collision, shared_aliases,
    shared_names,
};
use crate::structs::options::{
    all_opt_texts, all_texts, bad_names, bad_texts, is_compliant_text, MAX_OPTIONS,
};
use crate::structs::qualified_names::{command_at, is_path};
use crate::text::opt_text;
use vstd::prelude::*;

verus! {

/// Whether Discord accepts all of the names.
pub open spec fn are_accepted_names(names: Seq<Seq<char>>, context_menu: bool) -> bool {
    forall|i: int| 0 <= i < names.len() ==> is_accepted_name(#[trigger] names[i], context_menu)
}

/// Whether all of the texts have at least one and not too many characters.
pub open spec fn are_compliant_texts(v: Seq<Seq<char>>) -> bool {
    forall|i: int| 0 <= i < v.len() ==> is_compliant_text(#[trigger] v[i])
}

/// Whether a choice of an option follows the rules: its names have 1 to 100 characters.
pub open spec fn choice_follows_rules(c: CommandParameterChoice) -> bool {
    are_compliant_texts(all_texts(c.localizations@, c.name@))
}

/// Whether an option on its own follows the rules: Discord accepts its names, its descriptions
/// have 1 to 100 characters, and it has at most 25 choices, which follow the rules.
pub open spec fn parameter_follows_rules<H>(p: CommandParameter<H>) -> bool {
    &&& are_accepted_names(all_texts(p.name_localizations@, p.name@), false)
    &&& are_compliant_texts(all_opt_texts(p.description_localizations@, opt_text(p.description)))
    &&& p.choices@.len() <= MAX_OPTIONS
    &&& forall|i: int|
        0 <= i < p.choices@.len() ==> choice_follows_rules(#[trigger] p.choices@[i])
}

/// Whether the options of a slash command without subcommands follow the rules: there are at most
/// 25 of them, each follows the rules, and no two of them share a name.
pub open spec fn options_follow_rules<H>(c: Command<H>) -> bool {
    let s = c.parameters@;
    &&& s.len() <= MAX_OPTIONS
    &&& forall|i: int| 0 <= i < s.len() ==> parameter_follows_rules(#[trigger] s[i])
    &&& forall|i: int, j: int|
        0 <= i < j < s.len() ==> (#[trigger] s[i].conflicting_names(s[j])).len() == 0
}

/// Whether a command follows the rules, its subcommands aside.
pub open spec fn follows_own_rules<H>(c: Command<H>, level: u8, parent: Option<Command<H>>) -> bool {
    let is_slash = c.slash_action is Some;
    let is_context = c.context_menu_action is Some;
    &&& !c.is_too_long(level)
    &&& parent matches Some(parent) ==> !c.mismatches(parent)
    &&& is_slash ==> level <= MAX_LEVEL
    &&& is_context ==> c.parameters@.len() == 0
    &&& is_slash || is_context ==> {
        &&& are_accepted_names(all_texts(c.name_localizations@, c.name@), !is_slash)
        &&& c.context_menu_name matches Some(name) ==> is_compliant_context_menu_name(name@)
    }
    &&& is_slash ==> are_compliant_texts(
        all_opt_texts(c.description_localizations@, opt_text(c.description)),
    )
    &&& is_slash && c.subcommands@.len() == 0 ==> options_follow_rules(c)
}

/// Whether no two of the commands share an identifier.
pub open spec fn are_collision_free<H>(
    s: Seq<Command<H>>,
    case_insensitive: bool,
    overrides: Map<Seq<char>, CommandOverride>,
) -> bool {
    forall|i: int, j: int|
        0 <= i < j < s.len() ==> (#[trigger] naming_collision(
            s[i],
            s[j],
            case_insensitive,
            overrides,
        )).len() == 0
}

/// Whether `c` is a prefix command that is not disabled.
pub open spec fn is_enabled_prefix_command<H>(
    c: Command<H>,
    overrides: Map<Seq<char>, CommandOverride>,
) -> bool {
    c.prefix_action is Some && !is_disabled(c, overrides)
}

/// Whether a command on `level` below `parent` follows the rules, with all its subcommands.
pub open spec fn command_follows_rules<H>(
    c: Command<H>,
    level: u8,
    parent: Option<Command<H>>,
    case_insensitive: bool,
    overrides: Map<Seq<char>, CommandOverride>,
) -> bool
    decreases c, 0nat,
{
    &&& follows_own_rules(c, level, parent)
    &&& storage_follows_rules(
        c.subcommands@,
        next_level(level),
        Some(c),
        case_insensitive,
        overrides,
    )
}

/// Whether the commands on `level` below `parent` follow the rules, with all their subcommands:
/// below the top level there are at most 25 slash commands, no two commands share an identifier,
/// and each command follows the rules.
pub open spec fn storage_follows_rules<H>(
    s: Seq<Command<H>>,
    level: u8,
    parent: Option<Command<H>>,
    case_insensitive: bool,
    overrides: Map<Seq<char>, CommandOverride>,
) -> bool
    decreases s, 1nat,
{
    &&& level > 1 ==> slash_commands(s).len() <= MAX_SLASH_SUBCOMMANDS
    &&& are_collision_free(s, case_insensitive, overrides)
    &&& forall|i: int|
        0 <= i < s.len() ==> command_follows_rules(
            #[trigger] s[i],
            level,
            parent,
            case_insensitive,
            overrides,
        )
}

/// Whether the top level commands of a bot follow the rules, with all their subcommands: there are
/// at most 100 slash commands and at most 5 context menu commands of each type, wherever they
/// are, no two context menu commands of the same type share an identifier, and what holds of every
/// storage.
pub open spec fn top_level_follows_rules<H>(
    s: Seq<Command<H>>,
    case_insensitive: bool,
    overrides: Map<Seq<char>, CommandOverride>,
) -> bool {
    let user = context_commands(s, ContextMenuType::User);
    let message = context_commands(s, ContextMenuType::Message);
    &&& slash_commands(s).len() <= MAX_TOP_LEVEL_SLASH_COMMANDS
    &&& user.len() <= MAX_CONTEXT_COMMANDS
    &&& message.len() <= MAX_CONTEXT_COMMANDS
    &&& are_collision_free(user, case_insensitive, overrides)
    &&& are_collision_free(message, case_insensitive, overrides)
    &&& storage_follows_rules(s, 1, None, case_insensitive, overrides)
}

proof fn lemma_no_bad_names(names: Seq<Seq<char>>, context_menu: bool)
    ensures
        bad_names(names, context_menu).len() == 0 <==> are_accepted_names(names, context_menu),
{
    lemma_filter_empty(names, |n: Seq<char>| !is_accepted_name(n, context_menu));
}

proof fn lemma_no_bad_texts(v: Seq<Seq<char>>)
    ensures
        bad_texts(v).len() == 0 <==> are_compliant_texts(v),
{
    lemma_filter_empty(v, |t: Seq<char>| !is_compliant_text(t));
}

proof fn lemma_no_parameter_faults<H>(p: CommandParameter<H>)
    ensures
        p.name_faults().len() == 0 && p.description_faults().len() == 0
            && p.all_choice_faults().len() == 0 <==> parameter_follows_rules(p),
{
    lemma_no_bad_names(all_texts(p.name_localizations@, p.name@), false);
    lemma_no_bad_texts(all_opt_texts(p.description_localizations@, opt_text(p.description)));
    let f = |i: int| p.choices@[i].faults();
    lemma_concat_range_empty(0, p.choices@.len() as int, f);
    assert forall|i: int| 0 <= i < p.choices@.len() implies (f(i).len() == 0
        <==> choice_follows_rules(#[trigger] p.choices@[i])) by {
        let c = p.choices@[i];
        lemma_no_bad_texts(all_texts(c.localizations@, c.name@));
    }
    if parameter_follows_rules(p) {
        assert forall|i: int| 0 <= i < p.choices@.len() implies (#[trigger] f(i)).len() == 0 by {
            assert(choice_follows_rules(p.choices@[i]));
        }
    } else if p.choice_faults().len() == 0 {
        assert forall|i: int| 0 <= i < p.choices@.len() implies choice_follows_rules(
            #[trigger] p.choices@[i],
        ) by {
            assert(f(i).len() == 0);
        }
    }
}

proof fn lemma_no_single_option_faults<H>(c: Command<H>)
    ensures
        c.parameter_faults().len() == 0 <==> forall|i: int|
            0 <= i < c.parameters@.len() ==> parameter_follows_rules(#[trigger] c.parameters@[i]),
{
    let s = c.parameters@;
    let f = |i: int| s[i].name_faults();
    let g = |i: int| s[i].description_faults();
    let h = |i: int| s[i].all_choice_faults();
    lemma_concat_range_empty(0, s.len() as int, f);
    lemma_concat_range_empty(0, s.len() as int, g);
    lemma_concat_range_empty(0, s.len() as int, h);
    if c.parameter_faults().len() == 0 {
        assert forall|i: int| 0 <= i < s.len() implies parameter_follows_rules(
            #[trigger] s[i],
        ) by {
            lemma_no_parameter_faults(s[i]);
            assert(f(i).len() == 0 && g(i).len() == 0 && h(i).len() == 0);
        }
    }
    if forall|i: int| 0 <= i < s.len() ==> parameter_follows_rules(#[trigger] s[i]) {
        assert forall|i: int| 0 <= i < s.len() implies (#[trigger] f(i)).len() == 0 by {
            lemma_no_parameter_faults(s[i]);
        }
        assert forall|i: int| 0 <= i < s.len() implies (#[trigger] g(i)).len() == 0 by {
            lemma_no_parameter_faults(s[i]);
        }
        assert forall|i: int| 0 <= i < s.len() implies (#[trigger] h(i)).len() == 0 by {
            lemma_no_parameter_faults(s[i]);
        }
    }
}

proof fn lemma_no_duplicates<H>(c: Command<H>)
    ensures
        concat_range(0, c.parameters@.len() as int, |i: int| c.duplicates_after(i)).len() == 0
            <==> forall|i: int, j: int|
            0 <= i < j < c.parameters@.len() ==> (#[trigger] c.parameters@[i].conflicting_names(
                c.parameters@[j],
            )).len() == 0,
{
    let s = c.parameters@;
    let f = |i: int| c.duplicates_after(i);
    lemma_concat_range_empty(0, s.len() as int, f);
    assert forall|i: int| 0 <= i < s.len() implies ((#[trigger] f(i)).len() == 0 <==> forall|
        j: int,
    |
        i < j < s.len() ==> (#[trigger] s[i].conflicting_names(s[j])).len() == 0) by {
        let g = |j: int| c.duplicate_faults(i, j);
        lemma_concat_range_empty(i + 1, s.len() as int, g);
        assert forall|j: int| i < j < s.len() implies (g(j).len() == 0 <==> (
        #[trigger] s[i].conflicting_names(s[j])).len() == 0) by {}
        if f(i).len() == 0 {
            assert forall|j: int| i < j < s.len() implies (#[trigger] s[i].conflicting_names(
                s[j],
            )).len() == 0 by {
                assert(g(j).len() == 0);
            }
        } else {
            let j = choose|j: int| i + 1 <= j < s.len() && (#[trigger] g(j)).len() != 0;
            assert(s[i].conflicting_names(s[j]).len() != 0);
        }
    }
    if concat_range(0, s.len() as int, f).len() == 0 {
        assert forall|i: int, j: int| 0 <= i < j < s.len() implies (
        #[trigger] s[i].conflicting_names(s[j])).len() == 0 by {
            assert(f(i).len() == 0);
        }
    } else {
        let i = choose|i: int| 0 <= i < s.len() && (#[trigger] f(i)).len() != 0;
        let j = choose|j: int|
            i < j < s.len() && (#[trigger] s[i].conflicting_names(s[j])).len() != 0;
        assert(0 <= i < j < s.len());
    }
}

/// [`Command::check_options`] finds nothing if and only if the options follow the rules.
pub proof fn law_options_check_is_exact<H>(c: Command<H>)
    requires
        c.subcommands@.len() == 0,
    ensures
        c.all_option_faults().len() == 0 <==> options_follow_rules(c),
{
    lemma_no_single_option_faults(c);
    lemma_no_duplicates(c);
}

proof fn lemma_no_own_faults<H>(c: Command<H>, level: u8, parent: Option<Command<H>>)
    ensures
        c.own_faults(level, parent).len() == 0 <==> follows_own_rules(c, level, parent),
{
    lemma_no_bad_names(all_texts(c.name_localizations@, c.name@), c.slash_action is None);
    lemma_no_bad_texts(all_opt_texts(c.description_localizations@, opt_text(c.description)));
    if c.subcommands@.len() == 0 {
        law_options_check_is_exact(c);
    }
}

proof fn lemma_no_collisions_after<H>(
    s: Seq<Command<H>>,
    i: int,
    case_insensitive: bool,
    overrides: Map<Seq<char>, CommandOverride>,
)
    ensures
        collisions_after(s, i, case_insensitive, overrides).len() == 0 <==> forall|j: int|
            i < j < s.len() ==> (#[trigger] naming_collision(
                s[i],
                s[j],
                case_insensitive,
                overrides,
            )).len() == 0,
{
    let g = |j: int| collision_fault(s[i], s[j], case_insensitive, overrides);
    lemma_concat_range_empty(i + 1, s.len() as int, g);
    if collisions_after(s, i, case_insensitive, overrides).len() == 0 {
        assert forall|j: int| i < j < s.len() implies (#[trigger] naming_collision(
            s[i],
            s[j],
            case_insensitive,
            overrides,
        )).len() == 0 by {
            assert(g(j).len() == 0);
        }
    } else {
        let j = choose|j: int| i + 1 <= j < s.len() && (#[trigger] g(j)).len() != 0;
        assert(naming_collision(s[i], s[j], case_insensitive, overrides).len() != 0);
    }
}

proof fn lemma_no_collisions<H>(
    s: Seq<Command<H>>,
    case_insensitive: bool,
    overrides: Map<Seq<char>, CommandOverride>,
)
    ensures
        all_collisions(s, case_insensitive, overrides).len() == 0 <==> are_collision_free(
            s,
            case_insensitive,
            overrides,
        ),
{
    let f = |i: int| collisions_after(s, i, case_insensitive, overrides);
    lemma_concat_range_empty(0, s.len() as int, f);
    if all_collisions(s, case_insensitive, overrides).len() == 0 {
        assert forall|i: int, j: int| 0 <= i < j < s.len() implies (#[trigger] naming_collision(
            s[i],
            s[j],
            case_insensitive,
            overrides,
        )).len() == 0 by {
            assert(f(i).len() == 0);
            lemma_no_collisions_after(s, i, case_insensitive, overrides);
        }
    } else {
        let i = choose|i: int| 0 <= i < s.len() && (#[trigger] f(i)).len() != 0;
        lemma_no_collisions_after(s, i, case_insensitive, overrides);
        let j = choose|j: int|
            i < j < s.len() && (#[trigger] naming_collision(
                s[i],
                s[j],
                case_insensitive,
                overrides,
            )).len() != 0;
        assert(0 <= i < j < s.len());
    }
}

/// Whether the first `n` commands of `s` follow the rules and share no identifier with a later one.
spec fn first_follow_rules<H>(
    s: Seq<Command<H>>,
    n: nat,
    level: u8,
    parent: Option<Command<H>>,
    case_insensitive: bool,
    overrides: Map<Seq<char>, CommandOverride>,
) -> bool {
    forall|i: int|
        0 <= i < n ==> command_follows_rules(
            #[trigger] s[i],
            level,
            parent,
            case_insensitive,
            overrides,
        ) && collisions_after(s, i, case_insensitive, overrides).len() == 0
}

proof fn lemma_no_first_faults<H>(
    s: Seq<Command<H>>,
    n: nat,
    level: u8,
    parent: Option<Command<H>>,
    case_insensitive: bool,
    overrides: Map<Seq<char>, CommandOverride>,
)
    requires
        n <= s.len(),
    ensures
        faults_of_first(s, n, level, parent, case_insensitive, overrides).len() == 0
            <==> first_follow_rules(s, n, level, parent, case_insensitive, overrides),
    decreases s, n,
{
    if n > 0 {
        let m = (n - 1) as nat;
        lemma_no_first_faults(s, m, level, parent, case_insensitive, overrides);
        law_command_check_is_exact(s[n - 1], level, parent, case_insensitive, overrides);
        if first_follow_rules(s, n, level, parent, case_insensitive, overrides) {
            assert(command_follows_rules(s[n - 1], level, parent, case_insensitive, overrides));
            assert(first_follow_rules(s, m, level, parent, case_insensitive, overrides));
        }
    }
}

/// [`Command::check_consistency`] finds nothing if and only if the command follows the rules, with
/// all its subcommands.
pub proof fn law_command_check_is_exact<H>(
    c: Command<H>,
    level: u8,
    parent: Option<Command<H>>,
    case_insensitive: bool,
    overrides: Map<Seq<char>, CommandOverride>,
)
    ensures
        faults_of_command(c, level, parent, case_insensitive, overrides).len() == 0
            <==> command_follows_rules(c, level, parent, case_insensitive, overrides),
    decreases c, 0nat,
{
    lemma_no_own_faults(c, level, parent);
    law_storage_check_is_exact(
        c.subcommands@,
        next_level(level),
        Some(c),
        case_insensitive,
        overrides,
    );
}

/// [`CommandStorage::check_simple_consistency`] finds nothing if and only if the stored commands
/// follow the rules, with all their subcommands.
///
/// [`CommandStorage::check_simple_consistency`]: crate::structs::command_storage::CommandStorage
pub proof fn law_storage_check_is_exact<H>(
    s: Seq<Command<H>>,
    level: u8,
    parent: Option<Command<H>>,
    case_insensitive: bool,
    overrides: Map<Seq<char>, CommandOverride>,
)
    ensures
        faults_of_storage(s, level, parent, case_insensitive, overrides).len() == 0
            <==> storage_follows_rules(s, level, parent, case_insensitive, overrides),
    decreases s, s.len() + 1,
{
    lemma_no_first_faults(s, s.len(), level, parent, case_insensitive, overrides);
    let none = first_follow_rules(s, s.len(), level, parent, case_insensitive, overrides);
    if none {
        assert forall|i: int, j: int| 0 <= i < j < s.len() implies (#[trigger] naming_collision(
            s[i],
            s[j],
            case_insensitive,
            overrides,
        )).len() == 0 by {
            assert(command_follows_rules(s[i], level, parent, case_insensitive, overrides));
            lemma_no_collisions_after(s, i, case_insensitive, overrides);
        }
    }
    if storage_follows_rules(s, level, parent, case_insensitive, overrides) {
        assert forall|i: int| 0 <= i < s.len() implies command_follows_rules(
            #[trigger] s[i],
            level,
            parent,
            case_insensitive,
            overrides,
        ) && collisions_after(s, i, case_insensitive, overrides).len() == 0 by {
            lemma_no_collisions_after(s, i, case_insensitive, overrides);
        }
    }
}

/// [`CommandStorage::check_top_level_consistency`] finds nothing if and only if the commands of a
/// bot follow the rules.
///
/// [`CommandStorage::check_top_level_consistency`]: crate::structs::command_storage::CommandStorage
pub proof fn law_top_level_check_is_exact<H>(
    s: Seq<Command<H>>,
    case_insensitive: bool,
    overrides: Map<Seq<char>, CommandOverride>,
)
    ensures
        faults_of_top_level(s, case_insensitive, overrides).len() == 0 <==> top_level_follows_rules(
            s,
            case_insensitive,
            overrides,
        ),
{
    lemma_no_collisions(context_commands(s, ContextMenuType::User), case_insensitive, overrides);
    lemma_no_collisions(context_commands(s, ContextMenuType::Message), case_insensitive, overrides);
    law_storage_check_is_exact(s, 1, None, case_insensitive, overrides);
}

/// The level that is `n` levels below `level`.
pub open spec fn level_below(level: u8, n: nat) -> u8
    decreases n,
{
    if n == 0 {
        level
    } else {
        next_level(level_below(level, (n - 1) as nat))
    }
}

proof fn lemma_level_below(level: u8, n: nat)
    ensures
        level_below(level, n) <= MAX_LEVEL ==> level_below(level, n) == level + n,
    decreases n,
{
    if n > 0 {
        lemma_level_below(level, (n - 1) as nat);
    }
}

/// The command above the one that `path` leads to, or `parent` if that is `c` itself.
spec fn parent_at<H>(c: Command<H>, parent: Option<Command<H>>, path: Seq<int>) -> Option<
    Command<H>,
> {
    if path.len() == 0 {
        parent
    } else {
        Some(command_at(c, path.drop_last()))
    }
}

proof fn lemma_rules_of_subcommand<H>(
    c: Command<H>,
    level: u8,
    parent: Option<Command<H>>,
    case_insensitive: bool,
    overrides: Map<Seq<char>, CommandOverride>,
    i: int,
)
    requires
        command_follows_rules(c, level, parent, case_insensitive, overrides),
        0 <= i < c.subcommands@.len(),
    ensures
        command_follows_rules(
            c.subcommands@[i],
            next_level(level),
            Some(c),
            case_insensitive,
            overrides,
        ),
{
    assert(storage_follows_rules(
        c.subcommands@,
        next_level(level),
        Some(c),
        case_insensitive,
        overrides,
    ));
}

/// Whether the command that `path` leads to follows the rules on its level.
#[verifier::opaque]
spec fn rules_hold_at<H>(
    c: Command<H>,
    level: u8,
    parent: Option<Command<H>>,
    case_insensitive: bool,
    overrides: Map<Seq<char>, CommandOverride>,
    path: Seq<int>,
) -> bool {
    command_follows_rules(
        command_at(c, path),
        level_below(level, path.len()),
        parent_at(c, parent, path),
        case_insensitive,
        overrides,
    )
}

proof fn lemma_rules_one_deeper<H>(
    c: Command<H>,
    level: u8,
    parent: Option<Command<H>>,
    case_insensitive: bool,
    overrides: Map<Seq<char>, CommandOverride>,
    path: Seq<int>,
)
    requires
        path.len() > 0,
        is_path(c, path),
        rules_hold_at(c, level, parent, case_insensitive, overrides, path.drop_last()),
    ensures
        rules_hold_at(c, level, parent, case_insensitive, overrides, path),
{
    reveal(rules_hold_at);
    let init = path.drop_last();
    lemma_rules_of_subcommand(
        command_at(c, init),
        level_below(level, init.len()),
        parent_at(c, parent, init),
        case_insensitive,
        overrides,
        path.last(),
    );
}

proof fn lemma_rules_along_path<H>(
    c: Command<H>,
    level: u8,
    parent: Option<Command<H>>,
    case_insensitive: bool,
    overrides: Map<Seq<char>, CommandOverride>,
    path: Seq<int>,
)
    requires
        rules_hold_at(c, level, parent, case_insensitive, overrides, Seq::empty()),
        is_path(c, path),
    ensures
        rules_hold_at(c, level, parent, case_insensitive, overrides, path),
    decreases path.len(),
{
    if path.len() == 0 {
        assert(path =~= Seq::empty());
    } else {
        lemma_rules_along_path(
            c,
            level,
            parent,
            case_insensitive,
            overrides,
            path.drop_last(),
        );
        lemma_rules_one_deeper(c, level, parent, case_insensitive, overrides, path);
    }
}

proof fn lemma_own_rules<H>(
    c: Command<H>,
    level: u8,
    parent: Command<H>,
    case_insensitive: bool,
    overrides: Map<Seq<char>, CommandOverride>,
)
    requires
        command_follows_rules(c, level, Some(parent), case_insensitive, overrides),
    ensures
        c.slash_action is Some ==> level <= MAX_LEVEL && parent.slash_action is Some,
        c.prefix_action is Some ==> parent.prefix_action is Some,
{
    assert(follows_own_rules(c, level, Some(parent)));
}

/// Below a command that follows the rules, every slash command is on level 3 or above, and the
/// command above it is a slash command too; every prefix command is below a prefix command.
pub proof fn law_hierarchy_of_consistent_commands<H>(
    c: Command<H>,
    level: u8,
    parent: Option<Command<H>>,
    case_insensitive: bool,
    overrides: Map<Seq<char>, CommandOverride>,
    path: Seq<int>,
)
    requires
        command_follows_rules(c, level, parent, case_insensitive, overrides),
        is_path(c, path),
        path.len() > 0,
    ensures
        ({
            let below = command_at(c, path);
            let above = command_at(c, path.drop_last());
            &&& below.slash_action is Some ==> level + path.len() <= MAX_LEVEL
                && above.slash_action is Some
            &&& below.prefix_action is Some ==> above.prefix_action is Some
        }),
{
    assert(rules_hold_at(c, level, parent, case_insensitive, overrides, Seq::empty())) by {
        reveal(rules_hold_at);
    }
    lemma_rules_along_path(c, level, parent, case_insensitive, overrides, path);
    lemma_level_below(level, path.len());
    reveal(rules_hold_at);
    lemma_own_rules(
        command_at(c, path),
        level_below(level, path.len()),
        command_at(c, path.drop_last()),
        case_insensitive,
        overrides,
    );
}

/// What [`CommandStorage::check_collision_with_other`] finds are shared identifiers of a command
/// of the one and a command of the other storage, and nothing else.
///
/// [`CommandStorage::check_collision_with_other`]: crate::structs::command_storage::CommandStorage
pub proof fn law_collisions_with_other_are_duplicates<H>(
    s: Seq<Command<H>>,
    t: Seq<Command<H>>,
    case_insensitive: bool,
    overrides: Map<Seq<char>, CommandOverride>,
    k: int,
)
    requires
        0 <= k < collisions_with_other(s, t, case_insensitive, overrides).len(),
    ensures
        ({
            let fault = collisions_with_other(s, t, case_insensitive, overrides)[k];
            &&& fault matches StorageFault::DuplicatedCommandIdentifier { cmds, identifiers }
            &&& s.contains(cmds.0) && t.contains(cmds.1) && identifiers.len() > 0
        }),
{
    let f = |i: int|
        concat_range(
            0,
            t.len() as int,
            |j: int| prefix_collision_fault(s[i], t[j], case_insensitive, overrides),
        );
    let i = lemma_concat_range_origin(0, s.len() as int, f, k);
    let g = |j: int| prefix_collision_fault(s[i.0], t[j], case_insensitive, overrides);
    let j = lemma_concat_range_origin(0, t.len() as int, g, i.1);
    assert(s.contains(s[i.0]));
    assert(t.contains(t[j.0]));
}

proof fn lemma_other_collides_both_ways<H>(
    s: Seq<Command<H>>,
    t: Seq<Command<H>>,
    case_insensitive: bool,
    overrides: Map<Seq<char>, CommandOverride>,
)
    requires
        collisions_with_other(s, t, case_insensitive, overrides).len() > 0,
    ensures
        collisions_with_other(t, s, case_insensitive, overrides).len() > 0,
{
    let f = |i: int|
        concat_range(
            0,
            t.len() as int,
            |j: int| prefix_collision_fault(s[i], t[j], case_insensitive, overrides),
        );
    let (i, k) = lemma_concat_range_origin(0, s.len() as int, f, 0);
    let g = |j: int| prefix_collision_fault(s[i], t[j], case_insensitive, overrides);
    let (j, _) = lemma_concat_range_origin(0, t.len() as int, g, k);
    lemma_prefix_collision_both_ways(s[i], t[j], case_insensitive, overrides);
    let f2 = |j: int|
        concat_range(
            0,
            s.len() as int,
            |i: int| prefix_collision_fault(t[j], s[i], case_insensitive, overrides),
        );
    let g2 = |i: int| prefix_collision_fault(t[j], s[i], case_insensitive, overrides);
    lemma_concat_range_empty(0, t.len() as int, f2);
    lemma_concat_range_empty(0, s.len() as int, g2);
    assert(g2(i).len() > 0);
    assert(f2(j).len() > 0);
}

/// [`CommandStorage::check_collision_with_other`] finds something either way around or not at all.
///
/// [`CommandStorage::check_collision_with_other`]: crate::structs::command_storage::CommandStorage
pub proof fn law_collisions_with_other_are_symmetrical<H>(
    s: Seq<Command<H>>,
    t: Seq<Command<H>>,
    case_insensitive: bool,
    overrides: Map<Seq<char>, CommandOverride>,
)
    ensures
        collisions_with_other(s, t, case_insensitive, overrides).len() == 0
            <==> collisions_with_other(t, s, case_insensitive, overrides).len() == 0,
{
    if collisions_with_other(s, t, case_insensitive, overrides).len() > 0 {
        lemma_other_collides_both_ways(s, t, case_insensitive, overrides);
    }
    if collisions_with_other(t, s, case_insensitive, overrides).len() > 0 {
        lemma_other_collides_both_ways(t, s, case_insensitive, overrides);
    }
}

proof fn lemma_prefix_collision_both_ways<H>(
    a: Command<H>,
    b: Command<H>,
    case_insensitive: bool,
    overrides: Map<Seq<char>, CommandOverride>,
)
    requires
        prefix_collision_fault(a, b, case_insensitive, overrides).len() > 0,
    ensures
        prefix_collision_fault(b, a, case_insensitive, overrides).len() > 0,
{
    lemma_identifiers_shared_both_ways(a, b, case_insensitive, overrides);
}

/// [`CommandStorage::check_collision_with_other`] finds nothing if and only if no enabled prefix
/// command of the one storage shares a name or an alias with one of the other.
///
/// [`CommandStorage::check_collision_with_other`]: crate::structs::command_storage::CommandStorage
pub proof fn law_check_with_other_is_exact<H>(
    s: Seq<Command<H>>,
    t: Seq<Command<H>>,
    case_insensitive: bool,
    overrides: Map<Seq<char>, CommandOverride>,
)
    ensures
        collisions_with_other(s, t, case_insensitive, overrides).len() == 0 <==> forall|
            i: int,
            j: int,
        |
            #![trigger s[i], t[j]]
            0 <= i < s.len() && 0 <= j < t.len() && is_enabled_prefix_command(s[i], overrides)
                && is_enabled_prefix_command(t[j], overrides) ==> shared_names(
                s[i],
                t[j],
                case_insensitive,
            ).len() == 0 && shared_aliases(s[i], t[j], case_insensitive, overrides).len() == 0,
{
    let f = |i: int|
        concat_range(
            0,
            t.len() as int,
            |j: int| prefix_collision_fault(s[i], t[j], case_insensitive, overrides),
        );
    lemma_concat_range_empty(0, s.len() as int, f);
    if collisions_with_other(s, t, case_insensitive, overrides).len() == 0 {
        assert forall|i: int, j: int|
            #![trigger s[i], t[j]]
            0 <= i < s.len() && 0 <= j < t.len() && is_enabled_prefix_command(s[i], overrides)
                && is_enabled_prefix_command(t[j], overrides) implies shared_names(
            s[i],
            t[j],
            case_insensitive,
        ).len() == 0 && shared_aliases(s[i], t[j], case_insensitive, overrides).len() == 0 by {
            let g = |j: int| prefix_collision_fault(s[i], t[j], case_insensitive, overrides);
            assert(f(i).len() == 0);
            lemma_concat_range_empty(0, t.len() as int, g);
            assert(g(j).len() == 0);
        }
    } else {
        let (i, k) = lemma_concat_range_origin(0, s.len() as int, f, 0);
        let g = |j: int| prefix_collision_fault(s[i], t[j], case_insensitive, overrides);
        let (j, _) = lemma_concat_range_origin(0, t.len() as int, g, k);
        assert(is_enabled_prefix_command(s[i], overrides));
        assert(is_enabled_prefix_command(t[j], overrides));
    }
}

} // verus!

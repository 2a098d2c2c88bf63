//! Laws on identifiers that two commands share.

use crate::seqs::{lemma_add_contains, lemma_filter_contains, lemma_filter_len, only_if};
use crate::structs::command::{Command, ContextMenuCommandAction};
use crate::structs::command_override::CommandOverride;
use crate::structs::naming::{
    active_aliases, colliding_names, is_disabled, is_localized_in, is_text_in,
    law_changed_aliases, naming_collision, share_context_menu, shared_aliases,
    shared_localizations, shared_names,
};
use crate::text::{localized, same_text, texts};
use vstd::prelude::*;

verus! {

/// A command is disabled if there is an override for its ID that disables it or its group.
pub proof fn law_disabled<H>(c: Command<H>, overrides: Map<Seq<char>, CommandOverride>)
    ensures
        is_disabled(c, overrides) <==> exists|id: String|
            {
                &&& #[trigger] c.command_id == Some(id)
                &&& overrides.contains_key(id@)
                &&& overrides[id@].disabled || overrides[id@].group_disabled
            },
{
    if let Some(id) = c.command_id {
        assert(c.command_id == Some(id));
    }
}

/// Whether `c` answers to the alias `x`: an override for its ID adds or removes it, or else it is
/// one of its own.
pub open spec fn has_alias<H>(
    c: Command<H>,
    x: Seq<char>,
    overrides: Map<Seq<char>, CommandOverride>,
) -> bool {
    let own = exists|i: int| 0 <= i < c.aliases@.len() && #[trigger] c.aliases@[i]@ == x;
    match c.command_id {
        Some(id) => if overrides.contains_key(id@)
            && overrides[id@].changed_aliases@.contains_key(x) {
            overrides[id@].changed_aliases@[x]
        } else {
            own
        },
        None => own,
    }
}

/// Whether the override of `c`, if there is one, is a proper map.
pub open spec fn has_proper_override<H>(
    c: Command<H>,
    overrides: Map<Seq<char>, CommandOverride>,
) -> bool {
    match c.command_id {
        Some(id) => overrides.contains_key(id@)
            ==> overrides[id@].changed_aliases.has_distinct_keys(),
        None => true,
    }
}

/// The name of `c` in a context menu: the one given for it, or else the main name.
pub open spec fn menu_name<H>(c: Command<H>) -> Seq<char> {
    if c.context_menu_name is Some {
        c.context_menu_name->0@
    } else {
        c.name@
    }
}

/// Whether `a` and `b` both act on users or both on messages.
pub open spec fn in_one_menu<H>(a: Command<H>, b: Command<H>) -> bool {
    ||| (a.context_menu_action matches Some(ContextMenuCommandAction::User(_)))
        && (b.context_menu_action matches Some(ContextMenuCommandAction::User(_)))
    ||| (a.context_menu_action matches Some(ContextMenuCommandAction::Message(_)))
        && (b.context_menu_action matches Some(ContextMenuCommandAction::Message(_)))
}

/// Whether `x` is a localised name of `a` that `b` has too, for the same locale.
pub open spec fn is_shared_localization<H>(
    a: Command<H>,
    b: Command<H>,
    x: Seq<char>,
    case_insensitive: bool,
) -> bool {
    exists|i: int, j: int|
        {
            &&& 0 <= i < a.name_localizations@.len()
            &&& 0 <= j < b.name_localizations@.len()
            &&& (#[trigger] a.name_localizations@[i]).0@ == (
            #[trigger] b.name_localizations@[j]).0@
            &&& a.name_localizations@[i].1@ == x
            &&& same_text(x, b.name_localizations@[j].1@, case_insensitive)
        }
}

/// Whether `x` is an alias of `a` that `b` has too.
pub open spec fn is_shared_alias<H>(
    a: Command<H>,
    b: Command<H>,
    x: Seq<char>,
    case_insensitive: bool,
    overrides: Map<Seq<char>, CommandOverride>,
) -> bool {
    has_alias(a, x, overrides) && exists|y: Seq<char>| #[trigger]
        has_alias(b, y, overrides) && same_text(y, x, case_insensitive)
}

proof fn lemma_active_aliases<H>(
    c: Command<H>,
    overrides: Map<Seq<char>, CommandOverride>,
    x: Seq<char>,
)
    requires
        has_proper_override(c, overrides),
    ensures
        active_aliases(c, overrides).contains(x) <==> has_alias(c, x, overrides),
{
    let own = texts(c.aliases@);
    if own.contains(x) {
        let i = own.index_of(x);
        assert(c.aliases@[i]@ == x);
    }
    if exists|i: int| 0 <= i < c.aliases@.len() && #[trigger] c.aliases@[i]@ == x {
        let i = choose|i: int| 0 <= i < c.aliases@.len() && #[trigger] c.aliases@[i]@ == x;
        assert(own[i] == x);
    }
    match c.command_id {
        Some(id) => if overrides.contains_key(id@) {
            law_changed_aliases(c, overrides, x);
        },
        None => {},
    }
}

proof fn lemma_shared_localization<H>(
    a: Command<H>,
    b: Command<H>,
    x: Seq<char>,
    case_insensitive: bool,
)
    ensures
        shared_localizations(
            localized(a.name_localizations@),
            localized(b.name_localizations@),
            case_insensitive,
        ).contains(x) <==> is_shared_localization(a, b, x, case_insensitive),
{
    let la = localized(a.name_localizations@);
    let lb = localized(b.name_localizations@);
    let p = |p: (Seq<char>, Seq<char>)| is_localized_in(p, lb, case_insensitive);
    let kept = la.filter(p);
    let found = shared_localizations(la, lb, case_insensitive);
    if found.contains(x) {
        let k = found.index_of(x);
        assert(kept[k].1 == x);
        assert(kept.contains(kept[k]));
        lemma_filter_contains(la, p, kept[k]);
        let i = la.index_of(kept[k]);
        let j = choose|j: int|
            0 <= j < lb.len() && (#[trigger] lb[j]).0 == kept[k].0 && same_text(
                kept[k].1,
                lb[j].1,
                case_insensitive,
            );
        assert(a.name_localizations@[i].0@ == b.name_localizations@[j].0@);
        assert(a.name_localizations@[i].1@ == x);
    }
    if is_shared_localization(a, b, x, case_insensitive) {
        let (i, j) = choose|i: int, j: int|
            {
                &&& 0 <= i < a.name_localizations@.len()
                &&& 0 <= j < b.name_localizations@.len()
                &&& (#[trigger] a.name_localizations@[i]).0@ == (
                #[trigger] b.name_localizations@[j]).0@
                &&& a.name_localizations@[i].1@ == x
                &&& same_text(x, b.name_localizations@[j].1@, case_insensitive)
            };
        assert(lb[j].0 == la[i].0);
        assert(p(la[i]));
        assert(la.contains(la[i]));
        lemma_filter_contains(la, p, la[i]);
        let k = kept.index_of(la[i]);
        assert(found[k] == x);
    }
}

pub(crate) proof fn lemma_shared_alias<H>(
    a: Command<H>,
    b: Command<H>,
    x: Seq<char>,
    case_insensitive: bool,
    overrides: Map<Seq<char>, CommandOverride>,
)
    requires
        has_proper_override(a, overrides),
        has_proper_override(b, overrides),
    ensures
        shared_aliases(a, b, case_insensitive, overrides).contains(x) <==> is_shared_alias(
            a,
            b,
            x,
            case_insensitive,
            overrides,
        ),
{
    let own = active_aliases(a, overrides);
    let others = active_aliases(b, overrides);
    let p = |x: Seq<char>| is_text_in(x, others, case_insensitive);
    lemma_filter_contains(own, p, x);
    lemma_active_aliases(a, overrides, x);
    if p(x) {
        let j = choose|j: int|
            0 <= j < others.len() && same_text(#[trigger] others[j], x, case_insensitive);
        assert(others.contains(others[j]));
        lemma_active_aliases(b, overrides, others[j]);
    }
    if exists|y: Seq<char>| #[trigger]
        has_alias(b, y, overrides) && same_text(y, x, case_insensitive) {
        let y = choose|y: Seq<char>| #[trigger]
            has_alias(b, y, overrides) && same_text(y, x, case_insensitive);
        lemma_active_aliases(b, overrides, y);
        let j = others.index_of(y);
        assert(same_text(others[j], x, case_insensitive));
    }
}

pub(crate) proof fn lemma_shared_name<H>(
    a: Command<H>,
    b: Command<H>,
    x: Seq<char>,
    case_insensitive: bool,
)
    ensures
        shared_names(a, b, case_insensitive).contains(x) <==> (x == a.name@ && same_text(
            a.name@,
            b.name@,
            case_insensitive,
        )) || is_shared_localization(a, b, x, case_insensitive),
{
    let name = only_if(same_text(a.name@, b.name@, case_insensitive), a.name@);
    lemma_add_contains(
        name,
        shared_localizations(
            localized(a.name_localizations@),
            localized(b.name_localizations@),
            case_insensitive,
        ),
        x,
    );
    lemma_shared_localization(a, b, x, case_insensitive);
    if name.len() > 0 {
        assert(name[0] == a.name@);
    }
}

/// An identifier is reported as a collision if and only if neither command is disabled and
/// - both are in the context menu of one type and it is the name of both there, or
/// - both are slash or both are prefix commands and it is the main name of both, or
/// - they share a type and it is a localised name of both, for one locale, or
/// - both are prefix commands and it is an alias of both.
///
/// Case is ignored only if told so, and only for commands that are both prefix commands.
pub proof fn law_collisions<H>(
    a: Command<H>,
    b: Command<H>,
    case_insensitive: bool,
    overrides: Map<Seq<char>, CommandOverride>,
    x: Seq<char>,
)
    requires
        has_proper_override(a, overrides),
        has_proper_override(b, overrides),
    ensures
        naming_collision(a, b, case_insensitive, overrides).contains(x) <==> {
            let prefix = a.prefix_action is Some && b.prefix_action is Some;
            let slash = a.slash_action is Some && b.slash_action is Some;
            let ci = case_insensitive && prefix;
            &&& !is_disabled(a, overrides) && !is_disabled(b, overrides)
            &&& {
                ||| in_one_menu(a, b) && menu_name(a) == menu_name(b) && x == menu_name(a)
                ||| (slash || prefix) && x == a.name@ && same_text(a.name@, b.name@, ci)
                ||| (slash || prefix || in_one_menu(a, b)) && is_shared_localization(a, b, x, ci)
                ||| prefix && is_shared_alias(a, b, x, case_insensitive, overrides)
            }
        },
{
    let prefix = a.prefix_action is Some && b.prefix_action is Some;
    let menu = only_if(
        share_context_menu(a, b) && a.shown_context_name()
            == b.shown_context_name(),
        a.shown_context_name(),
    );
    let names = colliding_names(a, b, case_insensitive);
    let aliases = if prefix {
        shared_aliases(a, b, case_insensitive, overrides)
    } else {
        Seq::empty()
    };
    lemma_add_contains(menu + names, aliases, x);
    lemma_add_contains(menu, names, x);
    lemma_shared_name(a, b, x, case_insensitive && prefix);
    lemma_shared_localization(a, b, x, false);
    lemma_shared_alias(a, b, x, case_insensitive, overrides);
    if menu.len() > 0 {
        assert(menu[0] == a.shown_context_name());
    }
}

/// No identifier is reported more often than it can be one: there is at most one name in a menu, one
/// main name, one for each localisation and one for each alias.
pub proof fn law_number_of_collisions<H>(
    a: Command<H>,
    b: Command<H>,
    case_insensitive: bool,
    overrides: Map<Seq<char>, CommandOverride>,
)
    ensures
        naming_collision(a, b, case_insensitive, overrides).len() <= 2 + a.name_localizations@.len()
            + active_aliases(a, overrides).len(),
{
    let la = localized(a.name_localizations@);
    let lb = localized(b.name_localizations@);
    let ci = case_insensitive && a.prefix_action is Some && b.prefix_action is Some;
    lemma_filter_len(la, |p: (Seq<char>, Seq<char>)| is_localized_in(p, lb, ci));
    lemma_filter_len(la, |p: (Seq<char>, Seq<char>)| is_localized_in(p, lb, false));
    lemma_filter_len(
        active_aliases(a, overrides),
        |x: Seq<char>| is_text_in(x, active_aliases(b, overrides), case_insensitive),
    );
}

} // verus!

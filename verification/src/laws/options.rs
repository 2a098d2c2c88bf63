//! Laws on the options of slash commands.

use crate::names::is_accepted_name;
use crate::seqs::{
    concat_range, lemma_add_contains, lemma_concat_range_contains, lemma_filter_contains,
    lemma_filter_len, lemma_only_if_contains, only_if, values,
};
use crate::structs::command::{Command, CommandParameter, CommandParameterChoice};
use crate::structs::errors::{ChoiceFault, CommandFault, OptionFault};
use crate::structs::naming::is_localized_in;
use crate::structs::options::{
    all_opt_texts, all_texts, bad_names, bad_texts, is_compliant_text, parameter_choice_faults,
    parameter_description_faults, parameter_name_faults,
};
use crate::structs::rules::options_follow_rules;
use crate::text::{localized, opt_text};
use vstd::prelude::*;

verus! {

/// Whether one of the localizations is `text`, for the locale `locale`.
pub open spec fn says_in(v: Seq<(String, String)>, locale: Seq<char>, text: Seq<char>) -> bool {
    exists|k: int| 0 <= k < v.len() && (#[trigger] v[k]).0@ == locale && v[k].1@ == text
}

/// Whether one of the localizations is `text`, for whatever locale.
pub open spec fn says(v: Seq<(String, String)>, text: Seq<char>) -> bool {
    exists|k: int| 0 <= k < v.len() && (#[trigger] v[k]).1@ == text
}

/// Whether a user can see `text` as the name of both options: it is the main name of both, the main
/// name of one and a localized name of the other, or what both are called in one locale.
pub open spec fn share_name<H>(
    a: CommandParameter<H>,
    b: CommandParameter<H>,
    text: Seq<char>,
) -> bool {
    ||| a.name@ == text && b.name@ == text
    ||| a.name@ == text && says(b.name_localizations@, text)
    ||| says(a.name_localizations@, text) && b.name@ == text
    ||| exists|locale: Seq<char>| #[trigger]
        says_in(a.name_localizations@, locale, text) && says_in(b.name_localizations@, locale, text)
}

proof fn lemma_values_contain(v: Seq<(String, String)>, text: Seq<char>)
    ensures
        values(localized(v)).contains(text) <==> says(v, text),
{
    let t = values(localized(v));
    assert forall|k: int| 0 <= k < v.len() implies t[k] == (#[trigger] v[k]).1@ by {}
    if t.contains(text) {
        let k = t.index_of(text);
        assert(v[k].1@ == text);
    }
    if says(v, text) {
        let k = choose|k: int| 0 <= k < v.len() && (#[trigger] v[k]).1@ == text;
        assert(t[k] == text);
    }
}

proof fn lemma_all_texts_contain(v: Seq<(String, String)>, name: Seq<char>, text: Seq<char>)
    ensures
        all_texts(v, name).contains(text) <==> says(v, text) || name == text,
{
    lemma_values_contain(v, text);
    let t = values(localized(v));
    assert(all_texts(v, name) =~= t + seq![name]);
    lemma_add_contains(t, seq![name], text);
    assert(seq![name].contains(text) <==> name == text) by {
        assert(seq![name][0] == name);
    }
}

proof fn lemma_localized_conflicts<H>(
    a: CommandParameter<H>,
    b: CommandParameter<H>,
    text: Seq<char>,
)
    ensures
        values(
            localized(a.name_localizations@).filter(
                |p: (Seq<char>, Seq<char>)|
                    p.1 == b.name@ || is_localized_in(p, localized(b.name_localizations@), false),
            ),
        ).contains(text) <==> (says(a.name_localizations@, text) && b.name@ == text) || exists|
            locale: Seq<char>,
        | #[trigger]
            says_in(a.name_localizations@, locale, text) && says_in(
                b.name_localizations@,
                locale,
                text,
            ),
{
    let va = a.name_localizations@;
    let vb = b.name_localizations@;
    let la = localized(va);
    let lb = localized(vb);
    let p = |p: (Seq<char>, Seq<char>)| p.1 == b.name@ || is_localized_in(p, lb, false);
    let f = la.filter(p);
    if values(f).contains(text) {
        let k = values(f).index_of(text);
        let x = f[k];
        assert(f.contains(x));
        lemma_filter_contains(la, p, x);
        let m = la.index_of(x);
        assert(va[m].0@ == x.0 && va[m].1@ == text);
        assert(says_in(va, x.0, text));
        if text != b.name@ {
            let j = choose|j: int| 0 <= j < lb.len() && (#[trigger] lb[j]).0 == x.0 && lb[j].1 == text;
            assert(vb[j].0@ == x.0 && vb[j].1@ == text);
            assert(says_in(vb, x.0, text));
        }
    }
    if says(va, text) && b.name@ == text {
        let m = choose|m: int| 0 <= m < va.len() && (#[trigger] va[m]).1@ == text;
        let x = la[m];
        assert(la.contains(x));
        lemma_filter_contains(la, p, x);
        let k = f.index_of(x);
        assert(values(f)[k] == text);
    }
    if exists|locale: Seq<char>| #[trigger] says_in(va, locale, text) && says_in(vb, locale, text) {
        let locale = choose|locale: Seq<char>| #[trigger]
            says_in(va, locale, text) && says_in(vb, locale, text);
        let m = choose|m: int|
            0 <= m < va.len() && (#[trigger] va[m]).0@ == locale && va[m].1@ == text;
        let j = choose|j: int|
            0 <= j < vb.len() && (#[trigger] vb[j]).0@ == locale && vb[j].1@ == text;
        let x = la[m];
        assert(lb[j].0 == x.0 && lb[j].1 == x.1);
        assert(p(x));
        assert(la.contains(x));
        lemma_filter_contains(la, p, x);
        let k = f.index_of(x);
        assert(values(f)[k] == text);
    }
}

/// The names that two options are found to share are those that a user can see as the name of both.
pub proof fn law_conflicting_names<H>(
    a: CommandParameter<H>,
    b: CommandParameter<H>,
    text: Seq<char>,
)
    ensures
        a.conflicting_names(b).contains(text) <==> share_name(a, b, text),
{
    let la = localized(a.name_localizations@);
    let lb = localized(b.name_localizations@);
    let p = |p: (Seq<char>, Seq<char>)| p.1 == b.name@ || is_localized_in(p, lb, false);
    lemma_localized_conflicts(a, b, text);
    lemma_all_texts_contain(b.name_localizations@, b.name@, a.name@);
    let holds = all_texts(b.name_localizations@, b.name@).contains(a.name@);
    lemma_only_if_contains(holds, a.name@, text);
    lemma_add_contains(values(la.filter(p)), only_if(holds, a.name@), text);
}

/// No name of an option is told more often than the option has it: at most once for each locale, and
/// once as the main name.
pub proof fn law_number_of_told_names<H>(
    a: CommandParameter<H>,
    b: CommandParameter<H>,
    menu: bool,
)
    ensures
        a.conflicting_names(b).len() <= a.name_localizations@.len() + 1,
        bad_names(all_texts(a.name_localizations@, a.name@), menu).len()
            <= a.name_localizations@.len() + 1,
        a.bad_descriptions().len() <= a.description_localizations@.len() + (
        if a.description is Some {
            1int
        } else {
            0int
        }),
{
    let lb = localized(b.name_localizations@);
    lemma_filter_len(
        localized(a.name_localizations@),
        |p: (Seq<char>, Seq<char>)| p.1 == b.name@ || is_localized_in(p, lb, false),
    );
    lemma_filter_len(
        all_texts(a.name_localizations@, a.name@),
        |n: Seq<char>| !is_accepted_name(n, menu),
    );
    lemma_filter_len(
        all_opt_texts(a.description_localizations@, opt_text(a.description)),
        |t: Seq<char>| !is_compliant_text(t),
    );
}

/// An option conflicts with another if and only if the other conflicts with it.
pub proof fn law_conflicts_are_mutual<H>(
    a: CommandParameter<H>,
    b: CommandParameter<H>,
    text: Seq<char>,
)
    ensures
        a.conflicting_names(b).contains(text) <==> b.conflicting_names(a).contains(text),
{
    law_conflicting_names(a, b, text);
    law_conflicting_names(b, a, text);
    if exists|locale: Seq<char>| #[trigger]
        says_in(a.name_localizations@, locale, text) && says_in(
            b.name_localizations@,
            locale,
            text,
        ) {
        let locale = choose|locale: Seq<char>| #[trigger]
            says_in(a.name_localizations@, locale, text) && says_in(
                b.name_localizations@,
                locale,
                text,
            );
        assert(says_in(b.name_localizations@, locale, text));
    }
    if exists|locale: Seq<char>| #[trigger]
        says_in(b.name_localizations@, locale, text) && says_in(
            a.name_localizations@,
            locale,
            text,
        ) {
        let locale = choose|locale: Seq<char>| #[trigger]
            says_in(b.name_localizations@, locale, text) && says_in(
                a.name_localizations@,
                locale,
                text,
            );
        assert(says_in(a.name_localizations@, locale, text));
    }
}

pub(crate) proof fn lemma_option_faults_parts<H>(c: Command<H>, f: CommandFault<H>)
    requires
        c.subcommands@.len() == 0,
    ensures
        c.all_option_faults().contains(f) <==> {
            ||| c.parameters@.len() > 25 && f == (CommandFault::TooManyOptions { cmd: c })
            ||| exists|i: int, j: int|
                0 <= i < j < c.parameters@.len() && (#[trigger] c.duplicate_faults(i, j)).contains(
                    f,
                )
            ||| c.parameter_faults().len() > 0 && f == (CommandFault::Options {
                cmd: c,
                faults: c.parameter_faults(),
            })
        },
{
    let n = c.parameters@.len() as int;
    let g = |i: int| c.duplicates_after(i);
    let many = CommandFault::TooManyOptions { cmd: c };
    let single = CommandFault::Options { cmd: c, faults: c.parameter_faults() };
    let x = only_if(n > 25, many);
    let y = concat_range(0, n, g);
    let z = only_if(c.parameter_faults().len() > 0, single);
    lemma_only_if_contains(n > 25, many, f);
    lemma_only_if_contains(c.parameter_faults().len() > 0, single, f);
    lemma_add_contains(x, y, f);
    lemma_add_contains(x + y, z, f);
    assert(c.all_option_faults() == x + y + z);
    lemma_concat_range_contains(0, n, g, f);
    if y.contains(f) {
        let i = choose|i: int| 0 <= i < n && (#[trigger] g(i)).contains(f);
        let h = |j: int| c.duplicate_faults(i, j);
        lemma_concat_range_contains(i + 1, n, h, f);
        let j = choose|j: int| i + 1 <= j < n && (#[trigger] h(j)).contains(f);
        assert(c.duplicate_faults(i, j).contains(f));
    }
    if exists|i: int, j: int| 0 <= i < j < n && (#[trigger] c.duplicate_faults(i, j)).contains(f) {
        let (i, j) = choose|i: int, j: int|
            0 <= i < j < n && (#[trigger] c.duplicate_faults(i, j)).contains(f);
        let h = |j: int| c.duplicate_faults(i, j);
        lemma_concat_range_contains(i + 1, n, h, f);
        assert(h(j).contains(f));
        assert(g(i).contains(f));
    }
}

/// Two options of a slash command without subcommands that a user can see under one name are
/// reported, with that name.
pub proof fn law_duplicated_names_are_reported<H>(c: Command<H>, i: int, j: int, text: Seq<char>)
    requires
        c.subcommands@.len() == 0,
        0 <= i < j < c.parameters@.len(),
        share_name(c.parameters@[i], c.parameters@[j], text),
    ensures
        exists|names: Seq<Seq<char>>| #[trigger]
            names.contains(text) && c.all_option_faults().contains(
                CommandFault::OptionNameDuplicated {
                    cmd: c,
                    params: (c.parameters@[i], c.parameters@[j]),
                    names,
                },
            ),
{
    let names = c.parameters@[i].conflicting_names(c.parameters@[j]);
    law_conflicting_names(c.parameters@[i], c.parameters@[j], text);
    let f = CommandFault::OptionNameDuplicated {
        cmd: c,
        params: (c.parameters@[i], c.parameters@[j]),
        names,
    };
    lemma_only_if_contains(names.len() > 0, f, f);
    assert(c.duplicate_faults(i, j).contains(f));
    lemma_option_faults_parts(c, f);
}

/// Only such options are reported, an earlier one before a later one, and only with such names.
pub proof fn law_reported_names_are_duplicated<H>(
    c: Command<H>,
    cmd: Command<H>,
    params: (CommandParameter<H>, CommandParameter<H>),
    names: Seq<Seq<char>>,
)
    requires
        c.all_option_faults().contains(CommandFault::OptionNameDuplicated { cmd, params, names }),
    ensures
        cmd == c,
        c.subcommands@.len() == 0,
        names.len() > 0,
        exists|i: int, j: int|
            0 <= i < j < c.parameters@.len() && params == (
                #[trigger] c.parameters@[i],
                #[trigger] c.parameters@[j],
            ),
        forall|text: Seq<char>| #[trigger]
            names.contains(text) <==> share_name(params.0, params.1, text),
{
    let f = CommandFault::OptionNameDuplicated { cmd, params, names };
    lemma_option_faults_parts(c, f);
    let (i, j) = choose|i: int, j: int|
        0 <= i < j < c.parameters@.len() && (#[trigger] c.duplicate_faults(i, j)).contains(f);
    let a = c.parameters@[i];
    let b = c.parameters@[j];
    let found = a.conflicting_names(b);
    lemma_only_if_contains(
        found.len() > 0,
        CommandFault::OptionNameDuplicated { cmd: c, params: (a, b), names: found },
        f,
    );
    assert(params == (c.parameters@[i], c.parameters@[j]));
    assert forall|text: Seq<char>| #[trigger] names.contains(text) <==> share_name(
        params.0,
        params.1,
        text,
    ) by {
        law_conflicting_names(a, b, text);
    }
}

/// No two options of a command whose options follow the rules have the same name for one locale,
/// nor the same main name, nor is the main name of one a localized name of the other.
pub proof fn law_options_differ_in_every_locale<H>(c: Command<H>, i: int, j: int, text: Seq<char>)
    requires
        c.subcommands@.len() == 0,
        options_follow_rules(c),
        0 <= i < c.parameters@.len(),
        0 <= j < c.parameters@.len(),
        i != j,
    ensures
        ({
            let a = c.parameters@[i];
            let b = c.parameters@[j];
            &&& a.name@ != b.name@
            &&& !says(a.name_localizations@, b.name@)
            &&& forall|locale: Seq<char>|
                !(#[trigger] says_in(a.name_localizations@, locale, text) && #[trigger] says_in(
                    b.name_localizations@,
                    locale,
                    text,
                ))
        }),
{
    let a = c.parameters@[i];
    let b = c.parameters@[j];
    assert(a.conflicting_names(b).len() == 0 || b.conflicting_names(a).len() == 0);
    law_conflicts_are_mutual(a, b, text);
    law_conflicting_names(a, b, text);
    law_conflicts_are_mutual(a, b, b.name@);
    law_conflicting_names(a, b, b.name@);
}

/// More than 25 options are too many, and not fewer.
pub proof fn law_number_of_options<H>(c: Command<H>)
    requires
        c.subcommands@.len() == 0,
    ensures
        c.all_option_faults().contains(CommandFault::TooManyOptions { cmd: c })
            <==> c.parameters@.len() > 25,
{
    let f = CommandFault::TooManyOptions { cmd: c };
    lemma_option_faults_parts(c, f);
    assert forall|i: int, j: int|
        0 <= i < j < c.parameters@.len() implies !(#[trigger] c.duplicate_faults(i, j)).contains(
        f,
    ) by {
        let names = c.parameters@[i].conflicting_names(c.parameters@[j]);
        lemma_only_if_contains(
            names.len() > 0,
            CommandFault::OptionNameDuplicated {
                cmd: c,
                params: (c.parameters@[i], c.parameters@[j]),
                names,
            },
            f,
        );
    }
}

/// Nothing is wrong with the options of a command with subcommands: they are not registered.
pub proof fn law_no_options_beside_subcommands<H>(c: Command<H>)
    requires
        c.subcommands@.len() > 0,
    ensures
        c.all_option_faults().len() == 0,
{
}

/// Among the texts that are checked as names, those that Discord does not accept are bad.
pub proof fn law_bad_names(v: Seq<(String, String)>, name: Seq<char>, menu: bool, text: Seq<char>)
    ensures
        bad_names(all_texts(v, name), menu).contains(text) <==> (name == text || says(v, text))
            && !is_accepted_name(text, menu),
{
    lemma_all_texts_contain(v, name, text);
    lemma_filter_contains(
        all_texts(v, name),
        |n: Seq<char>| !is_accepted_name(n, menu),
        text,
    );
}

/// A description or a localized one is bad if it is empty or has more than 100 characters. A
/// description that is not there is not bad.
pub proof fn law_bad_descriptions(
    v: Seq<(String, String)>,
    description: Option<String>,
    text: Seq<char>,
)
    ensures
        bad_texts(all_opt_texts(v, opt_text(description))).contains(text) <==> ((
        description is Some && description->0@ == text) || says(v, text)) && (text.len() == 0
            || text.len() > 100),
{
    let t = all_opt_texts(v, opt_text(description));
    lemma_values_contain(v, text);
    if let Some(d) = description {
        lemma_all_texts_contain(v, d@, text);
    }
    lemma_filter_contains(t, |t: Seq<char>| !is_compliant_text(t), text);
}

/// A name of a choice or a localized one is bad if it is empty or has more than 100 characters.
pub proof fn law_bad_choice_names(c: CommandParameterChoice, text: Seq<char>)
    ensures
        c.bad_names().contains(text) <==> (c.name@ == text || says(c.localizations@, text)) && (
        text.len() == 0 || text.len() > 100),
{
    let t = all_texts(c.localizations@, c.name@);
    lemma_all_texts_contain(c.localizations@, c.name@, text);
    lemma_filter_contains(t, |t: Seq<char>| !is_compliant_text(t), text);
}

/// Whether `f` tells what is wrong with the option `p` on its own: it tells all the names that
/// Discord does not accept, or all the descriptions that are too short or too long, or that there
/// are more than 25 choices, or the choices with such names.
pub open spec fn tells_of_option<H>(f: OptionFault<H>, p: CommandParameter<H>) -> bool {
    match f {
        OptionFault::NameNotCompliant { param, names } => {
            &&& param == p
            &&& names.len() > 0
            &&& forall|t: Seq<char>| #[trigger]
                names.contains(t) <==> (p.name@ == t || says(p.name_localizations@, t))
                    && !is_accepted_name(t, false)
        },
        OptionFault::DescriptionNotCompliant { param, descriptions } => {
            &&& param == p
            &&& descriptions.len() > 0
            &&& forall|t: Seq<char>| #[trigger]
                descriptions.contains(t) <==> ((p.description is Some && p.description->0@ == t)
                    || says(p.description_localizations@, t)) && (t.len() == 0 || t.len() > 100)
        },
        OptionFault::TooManyChoices { param } => param == p && p.choices@.len() > 25,
        OptionFault::Choices { param, faults } => param == p && faults == p.choice_faults()
            && faults.len() > 0,
    }
}

proof fn lemma_single_option_faults<H>(s: Seq<CommandParameter<H>>, f: OptionFault<H>)
    ensures
        (parameter_name_faults(s) + parameter_description_faults(s) + parameter_choice_faults(
            s,
        )).contains(f) <==> exists|i: int|
            0 <= i < s.len() && ((#[trigger] s[i]).name_faults().contains(f)
                || s[i].description_faults().contains(f) || s[i].all_choice_faults().contains(f)),
{
    let n = s.len() as int;
    let x = |i: int| s[i].name_faults();
    let y = |i: int| s[i].description_faults();
    let z = |i: int| s[i].all_choice_faults();
    lemma_concat_range_contains(0, n, x, f);
    lemma_concat_range_contains(0, n, y, f);
    lemma_concat_range_contains(0, n, z, f);
    let a = parameter_name_faults(s);
    let b = parameter_description_faults(s);
    let c = parameter_choice_faults(s);
    lemma_add_contains(a, b, f);
    lemma_add_contains(a + b, c, f);
    if a.contains(f) {
        let i = choose|i: int| 0 <= i < n && (#[trigger] x(i)).contains(f);
        assert(s[i].name_faults().contains(f));
    }
    if b.contains(f) {
        let i = choose|i: int| 0 <= i < n && (#[trigger] y(i)).contains(f);
        assert(s[i].description_faults().contains(f));
    }
    if c.contains(f) {
        let i = choose|i: int| 0 <= i < n && (#[trigger] z(i)).contains(f);
        assert(s[i].all_choice_faults().contains(f));
    }
    if exists|i: int|
        0 <= i < s.len() && ((#[trigger] s[i]).name_faults().contains(f)
            || s[i].description_faults().contains(f) || s[i].all_choice_faults().contains(f)) {
        let i = choose|i: int|
            0 <= i < s.len() && ((#[trigger] s[i]).name_faults().contains(f)
                || s[i].description_faults().contains(f) || s[i].all_choice_faults().contains(f));
        assert(x(i).contains(f) || y(i).contains(f) || z(i).contains(f));
    }
}

proof fn lemma_faults_of_option<H>(p: CommandParameter<H>, f: OptionFault<H>)
    ensures
        p.name_faults().contains(f) || p.description_faults().contains(f)
            || p.all_choice_faults().contains(f) <==> {
            ||| f == (OptionFault::NameNotCompliant { param: p, names: p.bad_names() })
                && p.bad_names().len() > 0
            ||| f == (OptionFault::DescriptionNotCompliant {
                param: p,
                descriptions: p.bad_descriptions(),
            }) && p.bad_descriptions().len() > 0
            ||| f == (OptionFault::TooManyChoices { param: p }) && p.choices@.len() > 25
            ||| f == (OptionFault::Choices { param: p, faults: p.choice_faults() })
                && p.choice_faults().len() > 0
        },
{
    let a = OptionFault::NameNotCompliant { param: p, names: p.bad_names() };
    let b = OptionFault::DescriptionNotCompliant { param: p, descriptions: p.bad_descriptions() };
    let c = OptionFault::TooManyChoices { param: p };
    let d = OptionFault::Choices { param: p, faults: p.choice_faults() };
    lemma_only_if_contains(p.bad_names().len() > 0, a, f);
    lemma_only_if_contains(p.bad_descriptions().len() > 0, b, f);
    lemma_only_if_contains(p.choices@.len() > 25, c, f);
    lemma_only_if_contains(p.choice_faults().len() > 0, d, f);
    lemma_add_contains(
        only_if(p.choices@.len() > 25, c),
        only_if(p.choice_faults().len() > 0, d),
        f,
    );
}

/// Whatever is reported of single options is so of one of them.
pub proof fn law_reported_options<H>(c: Command<H>, f: OptionFault<H>)
    requires
        c.parameter_faults().contains(f),
    ensures
        exists|i: int|
            0 <= i < c.parameters@.len() && tells_of_option(f, #[trigger] c.parameters@[i]),
{
    let s = c.parameters@;
    lemma_single_option_faults(s, f);
    let i = choose|i: int|
        0 <= i < s.len() && ((#[trigger] s[i]).name_faults().contains(f)
            || s[i].description_faults().contains(f) || s[i].all_choice_faults().contains(f));
    let p = s[i];
    lemma_faults_of_option(p, f);
    assert forall|t: Seq<char>| #[trigger] p.bad_names().contains(t) <==> (p.name@ == t || says(
        p.name_localizations@,
        t,
    )) && !is_accepted_name(t, false) by {
        law_bad_names(p.name_localizations@, p.name@, false, t);
    }
    assert forall|t: Seq<char>| #[trigger] p.bad_descriptions().contains(t) <==> ((
    p.description is Some && p.description->0@ == t) || says(p.description_localizations@, t)) && (
    t.len() == 0 || t.len() > 100) by {
        law_bad_descriptions(p.description_localizations@, p.description, t);
    }
    assert(tells_of_option(f, s[i]));
}

/// Every option with a name that Discord does not accept is reported, and so is every one with a
/// description that is too short or too long, with more than 25 choices, or with a choice whose name
/// is too short or too long.
pub proof fn law_wrong_options_are_reported<H>(c: Command<H>, i: int, k: int, text: Seq<char>)
    requires
        0 <= i < c.parameters@.len(),
    ensures
        ({
            let p = c.parameters@[i];
            let wrong = text.len() == 0 || text.len() > 100;
            let faults = c.parameter_faults();
            &&& (p.name@ == text || says(p.name_localizations@, text)) && !is_accepted_name(
                text,
                false,
            ) ==> exists|names: Seq<Seq<char>>| #[trigger]
                names.contains(text) && faults.contains(
                    OptionFault::NameNotCompliant { param: p, names },
                )
            &&& wrong && (says(p.description_localizations@, text) || p.description is Some
                && p.description->0@ == text) ==> exists|
                descriptions: Seq<Seq<char>>,
            | #[trigger]
                descriptions.contains(text) && faults.contains(
                    OptionFault::DescriptionNotCompliant { param: p, descriptions },
                )
            &&& p.choices@.len() > 25 ==> faults.contains(OptionFault::TooManyChoices { param: p })
            &&& wrong && 0 <= k < p.choices@.len() && (p.choices@[k].name@ == text || says(
                p.choices@[k].localizations@,
                text,
            )) ==> exists|names: Seq<Seq<char>>, below: Seq<ChoiceFault>| #[trigger]
                names.contains(text) && #[trigger] below.contains(
                    ChoiceFault::NameNotCompliant { choice: p.choices@[k], names },
                ) && faults.contains(OptionFault::Choices { param: p, faults: below })
        }),
{
    let p = c.parameters@[i];
    let a = OptionFault::NameNotCompliant { param: p, names: p.bad_names() };
    let b = OptionFault::DescriptionNotCompliant { param: p, descriptions: p.bad_descriptions() };
    let x = OptionFault::TooManyChoices { param: p };
    let d = OptionFault::Choices { param: p, faults: p.choice_faults() };
    assert(p == c.parameters@[i]);
    lemma_single_option_faults(c.parameters@, a);
    lemma_single_option_faults(c.parameters@, b);
    lemma_single_option_faults(c.parameters@, x);
    lemma_single_option_faults(c.parameters@, d);
    lemma_faults_of_option(p, a);
    lemma_faults_of_option(p, b);
    lemma_faults_of_option(p, x);
    lemma_faults_of_option(p, d);
    law_bad_names(p.name_localizations@, p.name@, false, text);
    law_bad_descriptions(p.description_localizations@, p.description, text);
    if 0 <= k < p.choices@.len() {
        let choice = p.choices@[k];
        law_bad_choice_names(choice, text);
        if choice.bad_names().contains(text) {
            let e = ChoiceFault::NameNotCompliant { choice, names: choice.bad_names() };
            let g = |m: int| p.choices@[m].faults();
            lemma_only_if_contains(choice.bad_names().len() > 0, e, e);
            assert(g(k).contains(e));
            lemma_concat_range_contains(0, p.choices@.len() as int, g, e);
            assert(p.choice_faults().contains(e));
        }
    }
}

/// Whatever is reported of the choices of an option is so of one of them: its names that are too
/// short or too long are told, all of them and no others.
pub proof fn law_reported_choices<H>(p: CommandParameter<H>, f: ChoiceFault)
    requires
        p.choice_faults().contains(f),
    ensures
        exists|k: int|
            0 <= k < p.choices@.len() && {
                let c = #[trigger] p.choices@[k];
                match f {
                    ChoiceFault::NameNotCompliant { choice, names } => {
                        &&& choice == c
                        &&& names.len() > 0
                        &&& forall|t: Seq<char>| #[trigger]
                            names.contains(t) <==> (c.name@ == t || says(c.localizations@, t)) && (
                            t.len() == 0 || t.len() > 100)
                    },
                }
            },
{
    let g = |m: int| p.choices@[m].faults();
    lemma_concat_range_contains(0, p.choices@.len() as int, g, f);
    let k = choose|k: int| 0 <= k < p.choices@.len() && (#[trigger] g(k)).contains(f);
    let c = p.choices@[k];
    lemma_only_if_contains(
        c.bad_names().len() > 0,
        ChoiceFault::NameNotCompliant { choice: c, names: c.bad_names() },
        f,
    );
    assert forall|t: Seq<char>| #[trigger] c.bad_names().contains(t) <==> (c.name@ == t || says(
        c.localizations@,
        t,
    )) && (t.len() == 0 || t.len() > 100) by {
        law_bad_choice_names(c, t);
    }
}

/// What is wrong with single options is reported together, if anything is.
pub proof fn law_single_option_faults<H>(c: Command<H>, faults: Seq<OptionFault<H>>)
    requires
        c.subcommands@.len() == 0,
    ensures
        c.all_option_faults().contains(CommandFault::Options { cmd: c, faults }) <==> faults
            == c.parameter_faults() && faults.len() > 0,
{
    let f = CommandFault::Options { cmd: c, faults };
    lemma_option_faults_parts(c, f);
    assert forall|i: int, j: int|
        0 <= i < j < c.parameters@.len() implies !(#[trigger] c.duplicate_faults(i, j)).contains(
        f,
    ) by {
        let names = c.parameters@[i].conflicting_names(c.parameters@[j]);
        lemma_only_if_contains(
            names.len() > 0,
            CommandFault::OptionNameDuplicated {
                cmd: c,
                params: (c.parameters@[i], c.parameters@[j]),
                names,
            },
            f,
        );
    }
}

} // verus!

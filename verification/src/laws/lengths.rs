//! Laws on the length of commands.

use crate::structs::command::{Command, CommandParameter, CommandParameterChoice};
use crate::structs::length::{
    capped, choice_length, choices_length, command_length, longest, opt_len, parameter_length,
    parameters_length, slash_lengths,
};
use crate::text::localized;
use vstd::prelude::*;

verus! {

/// Whether `n` is the length of the longest of the localized texts and a text that is `main`
/// characters long.
pub open spec fn is_longest(n: nat, v: Seq<(String, String)>, main: nat) -> bool {
    &&& n >= main
    &&& forall|i: int| 0 <= i < v.len() ==> n >= (#[trigger] v[i]).1@.len()
    &&& n == main || exists|i: int| 0 <= i < v.len() && n == (#[trigger] v[i]).1@.len()
}

/// How many characters a description has: none if there is none.
pub open spec fn description_length(description: Option<String>) -> nat {
    if description is Some {
        description->0@.len()
    } else {
        0
    }
}

/// Of a text and its localizations the longest counts.
pub proof fn law_longest_text(v: Seq<(String, String)>, main: nat)
    ensures
        is_longest(longest(localized(v), main), v, main),
    decreases v.len(),
{
    let t = localized(v);
    if v.len() > 0 {
        let front = v.drop_last();
        law_longest_text(front, main);
        assert(localized(front) =~= t.drop_last());
        let n = longest(localized(front), main);
        assert(t.last().1 == v.last().1@);
        assert forall|i: int| 0 <= i < v.len() implies longest(t, main) >= (
        #[trigger] v[i]).1@.len() by {
            if i < front.len() {
                assert(front[i] == v[i]);
            }
        }
        if n < v.last().1@.len() {
            assert(v[v.len() - 1].1@.len() == longest(t, main));
        } else if n != main {
            let i = choose|i: int| 0 <= i < front.len() && n == (#[trigger] front[i]).1@.len();
            assert(v[i].1@.len() == n);
        }
    }
}

/// A choice is as long as the longest of its names, and choices are as long as all of them together.
pub proof fn law_length_of_choices(s: Seq<CommandParameterChoice>, c: CommandParameterChoice)
    ensures
        is_longest(choice_length(c), c.localizations@, c.name@.len()),
        choices_length(Seq::<CommandParameterChoice>::empty()) == 0,
        choices_length(s.push(c)) == choices_length(s) + choice_length(c),
{
    law_longest_text(c.localizations@, c.name@.len());
    assert(s.push(c).drop_last() =~= s);
}

/// A parameter is as long as its longest name, its longest description and all its choices together,
/// and parameters are as long as all of them together.
pub proof fn law_length_of_parameters<H>(
    s: Seq<CommandParameter<H>>,
    p: CommandParameter<H>,
    name: nat,
    description: nat,
)
    requires
        is_longest(name, p.name_localizations@, p.name@.len()),
        is_longest(
            description,
            p.description_localizations@,
            description_length(p.description),
        ),
    ensures
        parameter_length(p) == name + description + choices_length(p.choices@),
        parameters_length(Seq::<CommandParameter<H>>::empty()) == 0,
        parameters_length(s.push(p)) == parameters_length(s) + parameter_length(p),
{
    law_longest_text(p.name_localizations@, p.name@.len());
    law_longest_text(p.description_localizations@, opt_len(p.description));
    assert(s.push(p).drop_last() =~= s);
}

/// A slash command is as long as its longest name, its longest description and its subcommands
/// together, or, if it has none, its parameters. A context menu command is as long as its longest
/// name and description, and its parameters if it is a slash command without subcommands too. A
/// command that is not of the type that is asked for has no length.
pub proof fn law_length_of_command<H>(c: Command<H>, name: nat, description: nat)
    requires
        is_longest(name, c.name_localizations@, c.name@.len()),
        is_longest(
            description,
            c.description_localizations@,
            description_length(c.description),
        ),
    ensures
        c.slash_action is None ==> command_length(c, true) == 0,
        c.slash_action is Some && c.subcommands@.len() == 0 ==> command_length(c, true) == name
            + description + parameters_length(c.parameters@),
        c.slash_action is Some && c.subcommands@.len() > 0 ==> command_length(c, true) == name
            + description + slash_lengths(c.subcommands@, c.subcommands@.len()),
        c.context_menu_action is None ==> command_length(c, false) == 0,
        c.context_menu_action is Some && (c.slash_action is None || c.subcommands@.len() > 0)
            ==> command_length(c, false) == name + description,
        c.context_menu_action is Some && c.slash_action is Some && c.subcommands@.len() == 0
            ==> command_length(c, false) == name + description + parameters_length(c.parameters@),
{
    law_longest_text(c.name_localizations@, c.name@.len());
    law_longest_text(c.description_localizations@, opt_len(c.description));
}

proof fn lemma_slash_lengths<H>(s: Seq<Command<H>>, t: Seq<Command<H>>, n: nat)
    requires
        n <= s.len(),
        n <= t.len(),
        forall|i: int| 0 <= i < n ==> s[i] == t[i],
    ensures
        slash_lengths(s, n) == slash_lengths(t, n),
    decreases n,
{
    if n > 0 {
        lemma_slash_lengths(s, t, (n - 1) as nat);
    }
}

/// Subcommands are as long as all of them together, as slash commands.
pub proof fn law_length_of_subcommands<H>(s: Seq<Command<H>>, c: Command<H>)
    ensures
        slash_lengths(Seq::<Command<H>>::empty(), 0) == 0,
        slash_lengths(s.push(c), s.push(c).len()) == slash_lengths(s, s.len()) + command_length(
            c,
            true,
        ),
{
    lemma_slash_lengths(s.push(c), s, s.len());
}

/// A length that does not fit is told as the greatest that does; any other is told as it is.
pub proof fn law_told_length(n: nat)
    ensures
        n <= 65535 ==> capped(n) == n,
        n > 65535 ==> capped(n) == 65535,
{
}

} // verus!

//! How long a command is in Discord's eyes.

use crate::structs::command::{Command, CommandParameter, CommandParameterChoice};
use crate::text::localized;
use vstd::prelude::*;

verus! {

/// The greater of two numbers.
pub open spec fn greater(a: nat, b: nat) -> nat {
    if a < b {
        b
    } else {
        a
    }
}

/// The length of the longest text of `v`, or `default` if that is greater.
pub open spec fn longest(v: Seq<(Seq<char>, Seq<char>)>, default: nat) -> nat
    decreases v.len(),
{
    if v.len() == 0 {
        default
    } else {
        greater(longest(v.drop_last(), default), v.last().1.len())
    }
}

/// The length of an optional text; a missing one has no length.
pub open spec fn opt_len(s: Option<String>) -> nat {
    match s {
        Some(s) => s@.len(),
        None => 0,
    }
}

/// The length of a choice.
pub open spec fn choice_length(c: CommandParameterChoice) -> nat {
    longest(localized(c.localizations@), c.name@.len())
}

/// The length of several choices.
pub open spec fn choices_length(s: Seq<CommandParameterChoice>) -> nat
    decreases s.len(),
{
    if s.len() == 0 {
        0
    } else {
        choices_length(s.drop_last()) + choice_length(s.last())
    }
}

/// The length of a parameter: its choices, its name and its description.
pub open spec fn parameter_length<H>(p: CommandParameter<H>) -> nat {
    choices_length(p.choices@) + longest(localized(p.name_localizations@), p.name@.len()) + longest(
        localized(p.description_localizations@),
        opt_len(p.description),
    )
}

/// The length of several parameters.
pub open spec fn parameters_length<H>(s: Seq<CommandParameter<H>>) -> nat
    decreases s.len(),
{
    if s.len() == 0 {
        0
    } else {
        parameters_length(s.drop_last()) + parameter_length(s.last())
    }
}

/// The length of a command without that of its subcommands.
pub open spec fn own_length<H>(c: Command<H>) -> nat {
    (if c.slash_action is Some && c.subcommands@.len() == 0 {
        parameters_length(c.parameters@)
    } else {
        0
    }) + longest(localized(c.name_localizations@), c.name@.len()) + longest(
        localized(c.description_localizations@),
        opt_len(c.description),
    )
}

/// The "string length" of a command: as a slash command with all its slash subcommands if
/// `slash_recurse` is set, else as a context menu command. A command that is not of that type has
/// no length.
pub open spec fn command_length<H>(c: Command<H>, slash_recurse: bool) -> nat
    decreases c, 0nat,
{
    if slash_recurse {
        if c.slash_action is Some {
            own_length(c) + slash_lengths(c.subcommands@, c.subcommands@.len())
        } else {
            0
        }
    } else if c.context_menu_action is Some {
        own_length(c)
    } else {
        0
    }
}

/// The length of the first `n` of several slash commands.
pub open spec fn slash_lengths<H>(s: Seq<Command<H>>, n: nat) -> nat
    decreases s, n,
{
    if n == 0 || n > s.len() {
        0
    } else {
        slash_lengths(s, (n - 1) as nat) + command_length(s[n - 1], true)
    }
}

/// `n`, but not more than fits.
pub open spec fn capped(n: nat) -> u16 {
    if n < u16::MAX {
        n as u16
    } else {
        u16::MAX
    }
}

fn cap(n: usize) -> (r: u16)
    ensures
        r == capped(n as nat),
{
    if n < u16::MAX as usize {
        n as u16
    } else {
        u16::MAX
    }
}

fn add_capped(a: u16, b: u16) -> (r: u16)
    ensures
        r == capped((a + b) as nat),
        forall|x: nat, y: nat| a == capped(x) && b == capped(y) ==> r == #[trigger] capped(x + y),
{
    a.saturating_add(b)
}

fn longest_capped(v: &Vec<(String, String)>, default: usize) -> (r: u16)
    ensures
        r == capped(longest(localized(v@), default as nat)),
{
    let ghost lv = localized(v@);
    let mut best: usize = default;
    let mut i: usize = 0;
    assert(lv.take(0) =~= Seq::empty());
    while i < v.len()
        invariant
            i <= v@.len(),
            lv == localized(v@),
            best == longest(lv.take(i as int), default as nat),
        decreases v@.len() - i,
    {
        let n = v[i].1.as_str().unicode_len();
        assert(lv.take(i + 1).drop_last() =~= lv.take(i as int));
        assert(lv[i as int].1.len() == n);
        if best < n {
            best = n;
        }
        i = i + 1;
    }
    assert(lv.take(v@.len() as int) =~= lv);
    cap(best)
}

fn opt_unicode_len(s: &Option<String>) -> (r: usize)
    ensures
        r == opt_len(*s),
{
    match s {
        Some(s) => s.as_str().unicode_len(),
        None => 0,
    }
}

impl CommandParameterChoice {
    fn length(&self) -> (r: u16)
        ensures
            r == capped(choice_length(*self)),
    {
        longest_capped(&self.localizations, self.name.as_str().unicode_len())
    }
}

impl<H> CommandParameter<H> {
    fn length(&self) -> (r: u16)
        ensures
            r == capped(parameter_length(*self)),
    {
        let mut sum: u16 = 0;
        let mut i: usize = 0;
        assert(self.choices@.take(0) =~= Seq::empty());
        while i < self.choices.len()
            invariant
                i <= self.choices@.len(),
                sum == capped(choices_length(self.choices@.take(i as int))),
            decreases self.choices@.len() - i,
        {
            assert(self.choices@.take(i + 1).drop_last() =~= self.choices@.take(i as int));
            sum = add_capped(sum, self.choices[i].length());
            i = i + 1;
        }
        assert(self.choices@.take(i as int) =~= self.choices@);
        let name = longest_capped(&self.name_localizations, self.name.as_str().unicode_len());
        let description = longest_capped(
            &self.description_localizations,
            opt_unicode_len(&self.description),
        );
        add_capped(add_capped(sum, name), description)
    }
}

impl<H> Command<H> {
    fn own_length_capped(&self) -> (r: u16)
        ensures
            r == capped(own_length(*self)),
    {
        let mut sum: u16 = 0;
        let ghost mut parameters: nat = 0;
        if self.slash_action.is_some() && self.subcommands.0.len() == 0 {
            let mut i: usize = 0;
            assert(self.parameters@.take(0) =~= Seq::empty());
            while i < self.parameters.len()
                invariant
                    i <= self.parameters@.len(),
                    sum == capped(parameters_length(self.parameters@.take(i as int))),
                decreases self.parameters@.len() - i,
            {
                assert(self.parameters@.take(i + 1).drop_last() =~= self.parameters@.take(
                    i as int,
                ));
                sum = add_capped(sum, self.parameters[i].length());
                i = i + 1;
            }
            assert(self.parameters@.take(i as int) =~= self.parameters@);
            proof {
                parameters = parameters_length(self.parameters@);
            }
        }
        assert(sum == capped(parameters));
        let name = longest_capped(&self.name_localizations, self.name.as_str().unicode_len());
        let description = longest_capped(
            &self.description_localizations,
            opt_unicode_len(&self.description),
        );
        add_capped(add_capped(sum, name), description)
    }

    /// Returns the "string length" of this command in characters, which is calculated:
    ///
    /// * as sum of everything, which has a length (i.e. is a String; names, descriptions,
    ///   options, ...)
    /// * recursively with all subcommands, non slash subcommands are ignored
    /// * for localised Strings, only the longest localisation (or the default if longest) counts
    ///
    /// `slash_recurse`:
    ///   - If false:
    ///     - Recursion is disabled.
    ///     - If no context menu action is defined, this command will be ignored.
    ///   - If true and a slash action is defined, the length of this command will be calculated
    ///     and recursion is active.
    ///
    /// A length that does not fit is reported as the greatest one that does.
    pub fn calculate_command_length(&self, slash_recurse: bool) -> (r: u16)
        ensures
            r == capped(command_length(*self, slash_recurse)),
        decreases *self,
    {
        if (!slash_recurse && self.context_menu_action.is_none()) || (slash_recurse
            && self.slash_action.is_none()) {
            return 0;
        }
        let mut length: u16 = self.own_length_capped();
        let ghost own = own_length(*self);
        if slash_recurse {
            let subcommands = &self.subcommands.0;
            let mut i: usize = 0;
            while i < subcommands.len()
                invariant
                    i <= subcommands@.len(),
                    subcommands == self.subcommands.0,
                    length == capped(own + slash_lengths(subcommands@, i as nat)),
                decreases subcommands@.len() - i,
            {
                let ghost before = own + slash_lengths(subcommands@, i as nat);
                let l = subcommands[i].calculate_command_length(true);
                length = add_capped(length, l);
                assert(length == capped(before + command_length(subcommands@[i as int], true)));
                i = i + 1;
            }
        }
        length
    }
}

/// For localised Strings, only the longest localisation (or the default if longest) counts.
pub proof fn law_longest_is_the_greatest(v: Seq<(Seq<char>, Seq<char>)>, default: nat)
    ensures
        default <= longest(v, default),
        forall|i: int| 0 <= i < v.len() ==> (#[trigger] v[i]).1.len() <= longest(v, default),
        longest(v, default) == default || exists|i: int|
            0 <= i < v.len() && (#[trigger] v[i]).1.len() == longest(v, default),
    decreases v.len(),
{
    if v.len() > 0 {
        let init = v.drop_last();
        law_longest_is_the_greatest(init, default);
        assert forall|i: int| 0 <= i < v.len() implies (#[trigger] v[i]).1.len() <= longest(
            v,
            default,
        ) by {
            if i < init.len() {
                assert(v[i] == init[i]);
            }
        }
        if longest(v, default) == longest(init, default) && longest(init, default) != default {
            let i = choose|i: int|
                0 <= i < init.len() && (#[trigger] init[i]).1.len() == longest(init, default);
            assert(v[i].1.len() == longest(v, default));
        } else if longest(v, default) != default {
            assert(v[v.len() - 1].1.len() == longest(v, default));
        }
    }
}

proof fn lemma_slash_lengths_prefix<H>(s: Seq<Command<H>>, t: Seq<Command<H>>, n: nat)
    requires
        n <= s.len(),
        n <= t.len(),
        forall|i: int| 0 <= i < n ==> s[i] == t[i],
    ensures
        slash_lengths(s, n) == slash_lengths(t, n),
    decreases n,
{
    if n > 0 {
        lemma_slash_lengths_prefix(s, t, (n - 1) as nat);
    }
}

/// Non slash subcommands are ignored: they add nothing to the length of a slash command.
pub proof fn law_only_slash_subcommands_count<H>(s: Seq<Command<H>>)
    ensures
        ({
            let slash = s.filter(|c: Command<H>| c.slash_action is Some);
            slash_lengths(s, s.len()) == slash_lengths(slash, slash.len())
        }),
    decreases s.len(),
{
    reveal(Seq::filter);
    let p = |c: Command<H>| c.slash_action is Some;
    if s.len() > 0 {
        let init = s.drop_last();
        law_only_slash_subcommands_count(init);
        lemma_slash_lengths_prefix(s, init, init.len());
        let front = init.filter(p);
        assert(slash_lengths(s, s.len()) == slash_lengths(init, init.len()) + command_length(
            s.last(),
            true,
        ));
        if p(s.last()) {
            let slash = front.push(s.last());
            lemma_slash_lengths_prefix(slash, front, front.len());
            assert(s.filter(p) == slash);
            assert(slash_lengths(slash, slash.len()) == slash_lengths(front, front.len())
                + command_length(s.last(), true));
        } else {
            assert(s.filter(p) == front);
        }
    }
}

} // verus!

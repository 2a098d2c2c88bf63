//! The rules for the options of a slash command.

use crate::names::{is_accepted_name, NamePatterns};
use crate::seqs::{concat_range, lemma_filter_step, only_if, values};
use crate::structs::command::{Command, CommandParameter, CommandParameterChoice};
use crate::structs::errors::{
    choice_faults, command_faults, lemma_command_faults_push, option_faults, ChoiceFault,
    CommandConsistencyError, CommandFault, CommandOptionChoiceError, CommandOptionError,
    OptionFault,
};
use crate::structs::naming::{holds_localization, is_localized_in};
use crate::text::{localized, opt_text, ref_texts, texts};
use vstd::prelude::*;

verus! {

/// How many options a command and how many choices an option can have.
pub const MAX_OPTIONS: usize = 25;

/// How many characters a description and the name of a choice can have.
pub const MAX_TEXT_LENGTH: usize = 100;

/// The localized texts, followed by the one that is not localized.
pub open spec fn all_texts(localizations: Seq<(String, String)>, text: Seq<char>) -> Seq<
    Seq<char>,
> {
    values(localized(localizations)).push(text)
}

/// The localized texts, followed by the one that is not localized if there is one.
pub open spec fn all_opt_texts(localizations: Seq<(String, String)>, text: Option<Seq<char>>) -> Seq<
    Seq<char>,
> {
    match text {
        Some(text) => all_texts(localizations, text),
        None => values(localized(localizations)),
    }
}

/// The texts that Discord does not accept as names.
pub open spec fn bad_names(s: Seq<Seq<char>>, context_menu: bool) -> Seq<Seq<char>> {
    s.filter(|n: Seq<char>| !is_accepted_name(n, context_menu))
}

/// Whether `s` has at least one and not too many characters.
pub open spec fn is_compliant_text(s: Seq<char>) -> bool {
    1 <= s.len() <= MAX_TEXT_LENGTH
}

/// The texts that have no or too many characters.
pub open spec fn bad_texts(s: Seq<Seq<char>>) -> Seq<Seq<char>> {
    s.filter(|t: Seq<char>| !is_compliant_text(t))
}

impl CommandParameterChoice {
    /// The names of the choice that break a rule.
    pub open spec fn bad_names(self) -> Seq<Seq<char>> {
        bad_texts(all_texts(self.localizations@, self.name@))
    }

    /// What is wrong with the choice.
    pub open spec fn faults(self) -> Seq<ChoiceFault> {
        only_if(
            self.bad_names().len() > 0,
            ChoiceFault::NameNotCompliant { choice: self, names: self.bad_names() },
        )
    }
}

impl<H> CommandParameter<H> {
    /// The names of the parameter that break a rule.
    pub open spec fn bad_names(self) -> Seq<Seq<char>> {
        bad_names(all_texts(self.name_localizations@, self.name@), false)
    }

    /// The descriptions of the parameter that break a rule.
    pub open spec fn bad_descriptions(self) -> Seq<Seq<char>> {
        bad_texts(all_opt_texts(self.description_localizations@, opt_text(self.description)))
    }

    /// What is wrong with the choices of the parameter.
    pub open spec fn choice_faults(self) -> Seq<ChoiceFault> {
        concat_range(0, self.choices@.len() as int, |i: int| self.choices@[i].faults())
    }

    /// What is wrong with the names of the parameter.
    pub open spec fn name_faults(self) -> Seq<OptionFault<H>> {
        only_if(
            self.bad_names().len() > 0,
            OptionFault::NameNotCompliant { param: self, names: self.bad_names() },
        )
    }

    /// What is wrong with the descriptions of the parameter.
    pub open spec fn description_faults(self) -> Seq<OptionFault<H>> {
        only_if(
            self.bad_descriptions().len() > 0,
            OptionFault::DescriptionNotCompliant {
                param: self,
                descriptions: self.bad_descriptions(),
            },
        )
    }

    /// What is wrong with the number of choices of the parameter or with one of them.
    pub open spec fn all_choice_faults(self) -> Seq<OptionFault<H>> {
        only_if(
            self.choices@.len() > MAX_OPTIONS,
            OptionFault::TooManyChoices { param: self },
        ) + only_if(
            self.choice_faults().len() > 0,
            OptionFault::Choices { param: self, faults: self.choice_faults() },
        )
    }

    /// The names of the parameter that `other` has too: a localized name of `other` for the same
    /// locale or its non-localized name, and for a non-localized name any name of `other`.
    pub open spec fn conflicting_names(self, other: Self) -> Seq<Seq<char>> {
        let others = localized(other.name_localizations@);
        values(
            localized(self.name_localizations@).filter(
                |p: (Seq<char>, Seq<char>)| p.1 == other.name@ || is_localized_in(p, others, false),
            ),
        ) + only_if(
            all_texts(other.name_localizations@, other.name@).contains(self.name@),
            self.name@,
        )
    }
}

/// What is wrong with the names of parameters.
pub open spec fn parameter_name_faults<H>(s: Seq<CommandParameter<H>>) -> Seq<OptionFault<H>> {
    concat_range(0, s.len() as int, |i: int| s[i].name_faults())
}

/// What is wrong with the descriptions of parameters.
pub open spec fn parameter_description_faults<H>(s: Seq<CommandParameter<H>>) -> Seq<
    OptionFault<H>,
> {
    concat_range(0, s.len() as int, |i: int| s[i].description_faults())
}

/// What is wrong with the choices of parameters.
pub open spec fn parameter_choice_faults<H>(s: Seq<CommandParameter<H>>) -> Seq<OptionFault<H>> {
    concat_range(0, s.len() as int, |i: int| s[i].all_choice_faults())
}

impl<H> Command<H> {
    /// What is wrong with single parameters of the command.
    pub open spec fn parameter_faults(self) -> Seq<OptionFault<H>> {
        parameter_name_faults(self.parameters@) + parameter_description_faults(self.parameters@)
            + parameter_choice_faults(self.parameters@)
    }

    /// What is wrong with the names of the `i`th and the `j`th parameter.
    pub open spec fn duplicate_faults(self, i: int, j: int) -> Seq<CommandFault<H>> {
        let names = self.parameters@[i].conflicting_names(self.parameters@[j]);
        only_if(
            names.len() > 0,
            CommandFault::OptionNameDuplicated {
                cmd: self,
                params: (self.parameters@[i], self.parameters@[j]),
                names,
            },
        )
    }

    /// What is wrong with the names of the `i`th parameter and of one after it.
    pub open spec fn duplicates_after(self, i: int) -> Seq<CommandFault<H>> {
        concat_range(i + 1, self.parameters@.len() as int, |j: int| self.duplicate_faults(i, j))
    }

    /// What is wrong with the parameters of the command as options of a slash command.
    pub open spec fn all_option_faults(self) -> Seq<CommandFault<H>> {
        if self.subcommands@.len() > 0 {
            Seq::empty()
        } else {
            only_if(
                self.parameters@.len() > MAX_OPTIONS,
                CommandFault::TooManyOptions { cmd: self },
            ) + concat_range(0, self.parameters@.len() as int, |i: int| self.duplicates_after(i))
                + only_if(
                self.parameter_faults().len() > 0,
                CommandFault::Options { cmd: self, faults: self.parameter_faults() },
            )
        }
    }
}

/// The localized texts, followed by the one that is not localized if there is one.
pub(crate) fn collect_texts<'a>(
    localizations: &'a Vec<(String, String)>,
    text: Option<&'a String>,
) -> (r: Vec<&'a String>)
    ensures
        ref_texts(r@) == all_opt_texts(
            localizations@,
            match text {
                Some(s) => Some(s@),
                None => None,
            },
        ),
{
    let mut r: Vec<&String> = Vec::new();
    let mut i: usize = 0;
    while i < localizations.len()
        invariant
            i <= localizations@.len(),
            r@.len() == i,
            forall|j: int| 0 <= j < i ==> *(#[trigger] r@[j]) == localizations@[j].1,
        decreases localizations@.len() - i,
    {
        r.push(&localizations[i].1);
        i = i + 1;
    }
    assert(ref_texts(r@) =~= values(localized(localizations@)));
    if let Some(text) = text {
        r.push(text);
        assert(ref_texts(r@) =~= all_texts(localizations@, text@));
    }
    r
}

/// The names that Discord does not accept.
pub(crate) fn collect_bad_names(
    patterns: &NamePatterns,
    names: &Vec<&String>,
    context_menu: bool,
) -> (r: Vec<String>)
    ensures
        texts(r@) == bad_names(ref_texts(names@), context_menu),
{
    let ghost tn = ref_texts(names@);
    let ghost bad = |n: Seq<char>| !is_accepted_name(n, context_menu);
    let mut r: Vec<String> = Vec::new();
    let mut i: usize = 0;
    proof {
        reveal(Seq::filter);
        assert(texts(r@) =~= tn.take(0).filter(bad));
    }
    while i < names.len()
        invariant
            i <= names@.len(),
            tn == ref_texts(names@),
            bad == (|n: Seq<char>| !is_accepted_name(n, context_menu)),
            texts(r@) == tn.take(i as int).filter(bad),
        decreases names@.len() - i,
    {
        let ghost prev = r@;
        if !patterns.check_accepted(names[i], context_menu) {
            r.push(names[i].clone());
        }
        proof {
            lemma_filter_step(tn, i as int, bad);
            assert(tn[i as int] == names@[i as int]@);
            if bad(tn[i as int]) {
                assert(texts(r@) =~= texts(prev).push(tn[i as int]));
            }
        }
        i = i + 1;
    }
    assert(tn.take(names@.len() as int) =~= tn);
    r
}

/// The texts that have no or too many characters.
pub(crate) fn collect_bad_texts(v: &Vec<&String>) -> (r: Vec<String>)
    ensures
        texts(r@) == bad_texts(ref_texts(v@)),
{
    let ghost tv = ref_texts(v@);
    let ghost bad = |t: Seq<char>| !is_compliant_text(t);
    let mut r: Vec<String> = Vec::new();
    let mut i: usize = 0;
    proof {
        reveal(Seq::filter);
        assert(texts(r@) =~= tv.take(0).filter(bad));
    }
    while i < v.len()
        invariant
            i <= v@.len(),
            tv == ref_texts(v@),
            bad == (|t: Seq<char>| !is_compliant_text(t)),
            texts(r@) == tv.take(i as int).filter(bad),
        decreases v@.len() - i,
    {
        let ghost prev = r@;
        let n = v[i].as_str().unicode_len();
        if n < 1 || n > MAX_TEXT_LENGTH {
            r.push(v[i].clone());
        }
        proof {
            lemma_filter_step(tv, i as int, bad);
            assert(tv[i as int] == v@[i as int]@);
            if bad(tv[i as int]) {
                assert(texts(r@) =~= texts(prev).push(tv[i as int]));
            }
        }
        i = i + 1;
    }
    assert(tv.take(v@.len() as int) =~= tv);
    r
}

fn contains_text(v: &Vec<&String>, x: &String) -> (r: bool)
    ensures
        r == ref_texts(v@).contains(x@),
{
    let ghost tv = ref_texts(v@);
    let mut i: usize = 0;
    while i < v.len()
        invariant
            i <= v@.len(),
            tv == ref_texts(v@),
            forall|j: int| 0 <= j < i ==> #[trigger] tv[j] != x@,
        decreases v@.len() - i,
    {
        assert(tv[i as int] == v@[i as int]@);
        if *v[i] == *x {
            return true;
        }
        i = i + 1;
    }
    false
}

impl<H> CommandParameter<H> {
    fn collect_conflicting_names(&self, other: &Self) -> (r: Vec<String>)
        ensures
            texts(r@) == self.conflicting_names(*other),
    {
        let ghost ls = localized(self.name_localizations@);
        let ghost others = localized(other.name_localizations@);
        let ghost shared = |p: (Seq<char>, Seq<char>)|
            p.1 == other.name@ || is_localized_in(p, others, false);
        let mut r: Vec<String> = Vec::new();
        let mut i: usize = 0;
        proof {
            reveal(Seq::filter);
            assert(texts(r@) =~= values(ls.take(0).filter(shared)));
        }
        while i < self.name_localizations.len()
            invariant
                i <= self.name_localizations@.len(),
                ls == localized(self.name_localizations@),
                others == localized(other.name_localizations@),
                shared == (|p: (Seq<char>, Seq<char>)|
                    p.1 == other.name@ || is_localized_in(p, others, false)),
                texts(r@) == values(ls.take(i as int).filter(shared)),
            decreases self.name_localizations@.len() - i,
        {
            let ghost prev = r@;
            let e = &self.name_localizations[i];
            if e.1 == other.name || holds_localization(
                &e.0,
                &e.1,
                &other.name_localizations,
                false,
            ) {
                r.push(e.1.clone());
            }
            proof {
                lemma_filter_step(ls, i as int, shared);
                assert(ls[i as int] == (e.0@, e.1@));
                if shared(ls[i as int]) {
                    assert(texts(r@) =~= texts(prev).push(e.1@));
                    assert(values(ls.take(i + 1).filter(shared)) =~= values(
                        ls.take(i as int).filter(shared),
                    ).push(e.1@));
                }
            }
            i = i + 1;
        }
        assert(ls.take(i as int) =~= ls);
        let ghost localized_part = texts(r@);
        let other_names = collect_texts(&other.name_localizations, Some(&other.name));
        if contains_text(&other_names, &self.name) {
            r.push(self.name.clone());
        }
        assert(texts(r@) =~= self.conflicting_names(*other));
        r
    }

    fn collect_choice_errors(&self) -> (r: Vec<CommandOptionChoiceError<'_>>)
        ensures
            choice_faults(r@) == self.choice_faults(),
    {
        let ghost f = |i: int| self.choices@[i].faults();
        let mut r: Vec<CommandOptionChoiceError<'_>> = Vec::new();
        let mut i: usize = 0;
        assert(choice_faults(r@) =~= concat_range(0, 0, f));
        while i < self.choices.len()
            invariant
                i <= self.choices@.len(),
                f == (|i: int| self.choices@[i].faults()),
                choice_faults(r@) == concat_range(0, i as int, f),
            decreases self.choices@.len() - i,
        {
            let ghost prev = r@;
            let choice = &self.choices[i];
            let names = collect_bad_texts(&collect_texts(&choice.localizations, Some(&choice.name)));
            if names.len() > 0 {
                r.push(CommandOptionChoiceError::NameNotCompliant { choice, names });
            }
            assert(choice_faults(r@) =~= choice_faults(prev) + f(i as int));
            i = i + 1;
        }
        r
    }
}

impl<H> Command<H> {
    fn collect_option_errors<'a>(&'a self, patterns: &NamePatterns) -> (r: Vec<
        CommandOptionError<'a, H>,
    >)
        ensures
            option_faults(r@) == self.parameter_faults(),
    {
        let ghost s = self.parameters@;
        let mut r: Vec<CommandOptionError<'a, H>> = Vec::new();

        // Check all (localised) names
        let ghost f = |i: int| s[i].name_faults();
        let mut i: usize = 0;
        assert(option_faults(r@) =~= concat_range(0, 0, f));
        while i < self.parameters.len()
            invariant
                i <= self.parameters@.len(),
                s == self.parameters@,
                f == (|i: int| s[i].name_faults()),
                option_faults(r@) == concat_range(0, i as int, f),
            decreases self.parameters@.len() - i,
        {
            let ghost prev = r@;
            let param = &self.parameters[i];
            let names = collect_bad_names(
                patterns,
                &collect_texts(&param.name_localizations, Some(&param.name)),
                false,
            );
            if names.len() > 0 {
                r.push(CommandOptionError::NameNotCompliant { param, names });
            }
            assert(option_faults(r@) =~= option_faults(prev) + f(i as int));
            i = i + 1;
        }
        let ghost part = parameter_name_faults(s);

        // Check descriptions
        let ghost g = |i: int| s[i].description_faults();
        let mut i: usize = 0;
        assert(option_faults(r@) =~= part + concat_range(0, 0, g));
        while i < self.parameters.len()
            invariant
                i <= self.parameters@.len(),
                s == self.parameters@,
                g == (|i: int| s[i].description_faults()),
                option_faults(r@) == part + concat_range(0, i as int, g),
            decreases self.parameters@.len() - i,
        {
            let ghost prev = r@;
            let param = &self.parameters[i];
            let descriptions = collect_bad_texts(
                &collect_texts(&param.description_localizations, param.description.as_ref()),
            );
            if descriptions.len() > 0 {
                r.push(CommandOptionError::DescriptionNotCompliant { param, descriptions });
            }
            assert(option_faults(r@) =~= option_faults(prev) + g(i as int));
            assert(option_faults(r@) =~= part + concat_range(0, i + 1, g));
            i = i + 1;
        }
        let ghost part = part + parameter_description_faults(s);

        // Check all parameters for choices and their consistency
        let ghost h = |i: int| s[i].all_choice_faults();
        let mut i: usize = 0;
        assert(option_faults(r@) =~= part + concat_range(0, 0, h));
        while i < self.parameters.len()
            invariant
                i <= self.parameters@.len(),
                s == self.parameters@,
                h == (|i: int| s[i].all_choice_faults()),
                option_faults(r@) == part + concat_range(0, i as int, h),
            decreases self.parameters@.len() - i,
        {
            let ghost prev = r@;
            let param = &self.parameters[i];
            if param.choices.len() > MAX_OPTIONS {
                r.push(CommandOptionError::TooManyChoices { param });
            }
            let errs = param.collect_choice_errors();
            if errs.len() > 0 {
                r.push(CommandOptionError::CommandOptionChoiceError { param, errs });
            }
            assert(option_faults(r@) =~= option_faults(prev) + h(i as int));
            assert(option_faults(r@) =~= part + concat_range(0, i + 1, h));
            i = i + 1;
        }
        r
    }

    /// This method checks if any option (parameter) of this command violates Discord's rules:
    ///
    /// * max amount: 25
    /// * (localised) name: same as command name (see [`Command::check_consistency`])
    /// * (localised) description: 1-100 chars
    /// * a (localised) option name can not exist in another option's
    ///    * localisations for the same locale
    ///    * non-localised name
    /// * choices:
    ///    * max amount: 25
    ///    * (localised) name: 1-100 chars
    ///
    /// Using this method only makes sense, if this command is a slash command without subcommands!
    /// With subcommands there is nothing to check.
    pub fn check_options(&self) -> (r: Vec<CommandConsistencyError<'_, H>>)
        ensures
            command_faults(r@, r@.len()) == self.all_option_faults(),
    {
        self.check_options_with(&NamePatterns::new())
    }

    /// See [`Command::check_options`].
    pub(crate) fn check_options_with<'a>(&'a self, patterns: &NamePatterns) -> (r: Vec<
        CommandConsistencyError<'a, H>,
    >)
        ensures
            command_faults(r@, r@.len()) == self.all_option_faults(),
    {
        let mut r: Vec<CommandConsistencyError<'a, H>> = Vec::new();
        if self.subcommands.0.len() > 0 {
            return r;
        }
        if self.parameters.len() > MAX_OPTIONS {
            proof {
                lemma_command_faults_push(r@, CommandConsistencyError::TooManyOptions { cmd: self });
            }
            r.push(CommandConsistencyError::TooManyOptions { cmd: self });
        }
        let ghost part = only_if(
            self.parameters@.len() > MAX_OPTIONS,
            CommandFault::TooManyOptions { cmd: *self },
        );
        assert(command_faults(r@, r@.len()) =~= part);

        // Check for any naming conflicts in option names
        let n = self.parameters.len();
        let ghost f = |i: int| self.duplicates_after(i);
        let mut i: usize = 0;
        assert(command_faults(r@, r@.len()) =~= part + concat_range(0, 0, f));
        while i < n
            invariant
                i <= n,
                n == self.parameters@.len(),
                f == (|i: int| self.duplicates_after(i)),
                command_faults(r@, r@.len()) == part + concat_range(0, i as int, f),
            decreases n - i,
        {
            let ghost prev = command_faults(r@, r@.len());
            let ghost g = |j: int| self.duplicate_faults(i as int, j);
            let mut j: usize = i + 1;
            assert(command_faults(r@, r@.len()) =~= prev + concat_range(i + 1, j as int, g));
            while j < n
                invariant
                    i < j <= n,
                    n == self.parameters@.len(),
                    g == (|j: int| self.duplicate_faults(i as int, j)),
                    command_faults(r@, r@.len()) == prev + concat_range(i + 1, j as int, g),
                decreases n - j,
            {
                let ghost before = r@;
                let names = self.parameters[i].collect_conflicting_names(&self.parameters[j]);
                if names.len() > 0 {
                    let e = CommandConsistencyError::OptionNameDuplicated {
                        cmd: self,
                        params: (&self.parameters[i], &self.parameters[j]),
                        names,
                    };
                    proof {
                        lemma_command_faults_push(before, e);
                    }
                    r.push(e);
                }
                assert(command_faults(r@, r@.len()) =~= command_faults(before, before.len()) + g(
                    j as int,
                ));
                assert(command_faults(r@, r@.len()) =~= prev + concat_range(i + 1, j + 1, g));
                j = j + 1;
            }
            assert(command_faults(r@, r@.len()) =~= part + concat_range(0, i + 1, f));
            i = i + 1;
        }

        let errs = self.collect_option_errors(patterns);
        if errs.len() > 0 {
            let e = CommandConsistencyError::CommandOptionError { cmd: self, errs };
            proof {
                lemma_command_faults_push(r@, e);
            }
            r.push(e);
        }
        assert(command_faults(r@, r@.len()) =~= self.all_option_faults());
        r
    }
}

} // verus!

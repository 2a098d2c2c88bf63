//! Names and aliases that two commands share.

use crate::seqs::{
    lemma_filter_contains, lemma_filter_empty, lemma_filter_step, only_if, values,
};
use crate::string_map::StringMap;
use crate::structs::command::{Command, ContextMenuCommandAction};
use crate::structs::command_override::CommandOverride;
use crate::text::{
    lemma_same_text_symmetric, localized, ref_texts, same_text, text_equal, texts,
};
use vstd::prelude::*;

verus! {

/// The override that belongs to `cmd`, if there is one.
pub open spec fn override_of<H>(
    cmd: Command<H>,
    overrides: Map<Seq<char>, CommandOverride>,
) -> Option<CommandOverride> {
    match cmd.command_id {
        Some(id) => if overrides.contains_key(id@) {
            Some(overrides[id@])
        } else {
            None
        },
        None => None,
    }
}

/// Whether `cmd` is disabled by its override.
pub open spec fn is_disabled<H>(cmd: Command<H>, overrides: Map<Seq<char>, CommandOverride>) -> bool {
    override_of(cmd, overrides) matches Some(o) && o.disables()
}

/// The aliases that `cmd` answers to.
pub open spec fn active_aliases<H>(
    cmd: Command<H>,
    overrides: Map<Seq<char>, CommandOverride>,
) -> Seq<Seq<char>> {
    match override_of(cmd, overrides) {
        Some(o) => o.aliases(texts(cmd.aliases@)),
        None => texts(cmd.aliases@),
    }
}

/// Whether `b` holds the localization `p`.
pub open spec fn is_localized_in(
    p: (Seq<char>, Seq<char>),
    b: Seq<(Seq<char>, Seq<char>)>,
    case_insensitive: bool,
) -> bool {
    exists|j: int|
        0 <= j < b.len() && (#[trigger] b[j]).0 == p.0 && same_text(p.1, b[j].1, case_insensitive)
}

/// The texts of `a` that `b` holds too, for the same locale.
pub open spec fn shared_localizations(
    a: Seq<(Seq<char>, Seq<char>)>,
    b: Seq<(Seq<char>, Seq<char>)>,
    case_insensitive: bool,
) -> Seq<Seq<char>> {
    values(a.filter(|p: (Seq<char>, Seq<char>)| is_localized_in(p, b, case_insensitive)))
}

/// Whether `b` holds `x`.
pub open spec fn is_text_in(x: Seq<char>, b: Seq<Seq<char>>, case_insensitive: bool) -> bool {
    exists|j: int| 0 <= j < b.len() && same_text(#[trigger] b[j], x, case_insensitive)
}

/// The texts of `a` that `b` holds too.
pub open spec fn shared_texts(
    a: Seq<Seq<char>>,
    b: Seq<Seq<char>>,
    case_insensitive: bool,
) -> Seq<Seq<char>> {
    a.filter(|x: Seq<char>| is_text_in(x, b, case_insensitive))
}

/// The names of `a` that `b` has too: the main name and the localized ones.
pub open spec fn shared_names<H>(a: Command<H>, b: Command<H>, case_insensitive: bool) -> Seq<
    Seq<char>,
> {
    only_if(same_text(a.name@, b.name@, case_insensitive), a.name@) + shared_localizations(
        localized(a.name_localizations@),
        localized(b.name_localizations@),
        case_insensitive,
    )
}

/// The aliases of `a` that `b` has too.
pub open spec fn shared_aliases<H>(
    a: Command<H>,
    b: Command<H>,
    case_insensitive: bool,
    overrides: Map<Seq<char>, CommandOverride>,
) -> Seq<Seq<char>> {
    shared_texts(active_aliases(a, overrides), active_aliases(b, overrides), case_insensitive)
}

/// Whether `a` and `b` are context menu commands of the same type.
pub open spec fn share_context_menu<H>(a: Command<H>, b: Command<H>) -> bool {
    match (a.context_menu_action, b.context_menu_action) {
        (
            Some(ContextMenuCommandAction::User(_)),
            Some(ContextMenuCommandAction::User(_)),
        ) => true,
        (
            Some(ContextMenuCommandAction::Message(_)),
            Some(ContextMenuCommandAction::Message(_)),
        ) => true,
        _ => false,
    }
}

/// The names of `a` that collide with a name of `b`, the names in context menus aside. Only the
/// names of prefix commands are compared without regard to case. Two context menu commands of the
/// same type that share no other type can still share a localized name.
pub open spec fn colliding_names<H>(a: Command<H>, b: Command<H>, case_insensitive: bool) -> Seq<
    Seq<char>,
> {
    let prefix = a.prefix_action is Some && b.prefix_action is Some;
    let slash = a.slash_action is Some && b.slash_action is Some;
    if slash || prefix {
        shared_names(a, b, case_insensitive && prefix)
    } else if share_context_menu(a, b) {
        shared_localizations(
            localized(a.name_localizations@),
            localized(b.name_localizations@),
            false,
        )
    } else {
        Seq::empty()
    }
}

/// All identifiers of `a` that collide with an identifier of `b`.
pub open spec fn naming_collision<H>(
    a: Command<H>,
    b: Command<H>,
    case_insensitive: bool,
    overrides: Map<Seq<char>, CommandOverride>,
) -> Seq<Seq<char>> {
    if is_disabled(a, overrides) || is_disabled(b, overrides) {
        Seq::empty()
    } else {
        only_if(
            share_context_menu(a, b) && a.shown_context_name() == b.shown_context_name(),
            a.shown_context_name(),
        ) + colliding_names(a, b, case_insensitive) + (if a.prefix_action is Some
            && b.prefix_action is Some {
            shared_aliases(a, b, case_insensitive, overrides)
        } else {
            Seq::empty()
        })
    }
}

pub(crate) fn holds_localization(
    locale: &String,
    text: &String,
    b: &Vec<(String, String)>,
    case_insensitive: bool,
) -> (r: bool)
    ensures
        r == is_localized_in((locale@, text@), localized(b@), case_insensitive),
{
    let ghost lb = localized(b@);
    let mut j: usize = 0;
    while j < b.len()
        invariant
            j <= b@.len(),
            lb == localized(b@),
            forall|k: int|
                0 <= k < j ==> !((#[trigger] lb[k]).0 == locale@ && same_text(
                    text@,
                    lb[k].1,
                    case_insensitive,
                )),
        decreases b@.len() - j,
    {
        let p = &b[j];
        assert(lb[j as int] == (p.0@, p.1@));
        if p.0 == *locale && text_equal(text, &p.1, case_insensitive) {
            return true;
        }
        j = j + 1;
    }
    false
}

fn push_shared_localizations(
    a: &Vec<(String, String)>,
    b: &Vec<(String, String)>,
    case_insensitive: bool,
    found: &mut Vec<String>,
)
    ensures
        texts(final(found)@) == texts(old(found)@) + shared_localizations(
            localized(a@),
            localized(b@),
            case_insensitive,
        ),
{
    let ghost before = texts(found@);
    let ghost la = localized(a@);
    let ghost p = |p: (Seq<char>, Seq<char>)| is_localized_in(p, localized(b@), case_insensitive);
    let mut i: usize = 0;
    proof {
        reveal(Seq::filter);
        assert(la.take(0).filter(p) =~= Seq::empty());
        assert(texts(found@) =~= before + values(la.take(0).filter(p)));
    }
    while i < a.len()
        invariant
            i <= a@.len(),
            la == localized(a@),
            p == (|p: (Seq<char>, Seq<char>)| is_localized_in(p, localized(b@), case_insensitive)),
            texts(found@) == before + values(la.take(i as int).filter(p)),
        decreases a@.len() - i,
    {
        let e = &a[i];
        let ghost prev = found@;
        if holds_localization(&e.0, &e.1, b, case_insensitive) {
            found.push(e.1.clone());
        }
        proof {
            lemma_filter_step(la, i as int, p);
            assert(la[i as int] == (e.0@, e.1@));
            if p(la[i as int]) {
                assert(texts(found@) =~= texts(prev).push(e.1@));
                assert(values(la.take(i + 1).filter(p)) =~= values(la.take(i as int).filter(p)).push(
                    e.1@,
                ));
                assert(texts(found@) =~= before + values(la.take(i + 1).filter(p)));
            }
        }
        i = i + 1;
    }
    assert(la.take(a@.len() as int) =~= la);
}

fn holds_text(x: &String, b: &Vec<&String>, case_insensitive: bool) -> (r: bool)
    ensures
        r == is_text_in(x@, ref_texts(b@), case_insensitive),
{
    let ghost tb = ref_texts(b@);
    let mut j: usize = 0;
    while j < b.len()
        invariant
            j <= b@.len(),
            tb == ref_texts(b@),
            forall|k: int| 0 <= k < j ==> !same_text(#[trigger] tb[k], x@, case_insensitive),
        decreases b@.len() - j,
    {
        assert(tb[j as int] == b@[j as int]@);
        if text_equal(b[j], x, case_insensitive) {
            return true;
        }
        j = j + 1;
    }
    false
}

fn push_shared_texts(
    a: &Vec<&String>,
    b: &Vec<&String>,
    case_insensitive: bool,
    found: &mut Vec<String>,
)
    ensures
        texts(final(found)@) == texts(old(found)@) + shared_texts(
            ref_texts(a@),
            ref_texts(b@),
            case_insensitive,
        ),
{
    let ghost before = texts(found@);
    let ghost ta = ref_texts(a@);
    let ghost p = |x: Seq<char>| is_text_in(x, ref_texts(b@), case_insensitive);
    let mut i: usize = 0;
    proof {
        reveal(Seq::filter);
        assert(ta.take(0).filter(p) =~= Seq::empty());
        assert(texts(found@) =~= before + ta.take(0).filter(p));
    }
    while i < a.len()
        invariant
            i <= a@.len(),
            ta == ref_texts(a@),
            p == (|x: Seq<char>| is_text_in(x, ref_texts(b@), case_insensitive)),
            texts(found@) == before + ta.take(i as int).filter(p),
        decreases a@.len() - i,
    {
        let ghost prev = found@;
        if holds_text(a[i], b, case_insensitive) {
            found.push(a[i].clone());
        }
        proof {
            lemma_filter_step(ta, i as int, p);
            assert(ta[i as int] == a@[i as int]@);
            if p(ta[i as int]) {
                assert(texts(found@) =~= texts(prev).push(ta[i as int]));
                assert(texts(found@) =~= before + ta.take(i + 1).filter(p));
            }
        }
        i = i + 1;
    }
    assert(ta.take(a@.len() as int) =~= ta);
}

impl CommandOverride {
    /// The aliases of a command with the aliases `own` under this override.
    pub(crate) fn changed<'a>(&'a self, own: &'a Vec<String>) -> (r: Vec<&'a String>)
        ensures
            ref_texts(r@) == self.aliases(texts(own@)),
    {
        let ghost to = texts(own@);
        let ghost keep = |a: Seq<char>| !self.removes(a);
        let mut r: Vec<&String> = Vec::new();
        let mut i: usize = 0;
        proof {
            reveal(Seq::filter);
            assert(ref_texts(r@) =~= to.take(0).filter(keep));
        }
        while i < own.len()
            invariant
                i <= own@.len(),
                to == texts(own@),
                keep == (|a: Seq<char>| !self.removes(a)),
                ref_texts(r@) == to.take(i as int).filter(keep),
            decreases own@.len() - i,
        {
            let ghost prev = r@;
            let removed = match self.changed_aliases.get(&own[i]) {
                Some(added) => !*added,
                None => false,
            };
            if !removed {
                r.push(&own[i]);
            }
            proof {
                lemma_filter_step(to, i as int, keep);
                assert(to[i as int] == own@[i as int]@);
                if !removed {
                    assert(ref_texts(r@) =~= ref_texts(prev).push(to[i as int]));
                }
            }
            i = i + 1;
        }
        assert(to.take(own@.len() as int) =~= to);
        let ghost kept = ref_texts(r@);
        let ghost es = self.changed_aliases.entry_seq();
        let ghost is_added = |e: (Seq<char>, bool)| e.1;
        let ghost key = |e: (Seq<char>, bool)| e.0;
        let mut k: usize = 0;
        let n = self.changed_aliases.len();
        proof {
            reveal(Seq::filter);
            assert(es.take(0).filter(is_added) =~= Seq::empty());
            assert(ref_texts(r@) =~= kept + es.take(0).filter(is_added).map_values(key));
        }
        while k < n
            invariant
                k <= n,
                es == self.changed_aliases.entry_seq(),
                n == es.len(),
                is_added == (|e: (Seq<char>, bool)| e.1),
                key == (|e: (Seq<char>, bool)| e.0),
                ref_texts(r@) == kept + es.take(k as int).filter(is_added).map_values(key),
            decreases n - k,
        {
            let ghost prev = r@;
            let (alias, added) = self.changed_aliases.entry(k);
            if *added {
                r.push(alias);
            }
            proof {
                lemma_filter_step(es, k as int, is_added);
                if *added {
                    assert(ref_texts(r@) =~= ref_texts(prev).push(alias@));
                    assert(es.take(k + 1).filter(is_added).map_values(key) =~= es.take(
                        k as int,
                    ).filter(is_added).map_values(key).push(alias@));
                    assert(ref_texts(r@) =~= kept + es.take(k + 1).filter(is_added).map_values(
                        key,
                    ));
                }
            }
            k = k + 1;
        }
        assert(es.take(n as int) =~= es);
        r
    }
}

impl<H> Command<H> {
    /// The name under which the command is shown in Discord's context menu.
    pub open spec fn shown_context_name(self) -> Seq<char> {
        match self.context_menu_name {
            Some(name) => name@,
            None => self.name@,
        }
    }

    /// The name under which the command is shown in Discord's context menu: the context menu
    /// specific name, or else the main name.
    pub fn context_name(&self) -> (r: &String)
        ensures
            r@ == self.shown_context_name(),
    {
        match &self.context_menu_name {
            Some(name) => name,
            None => &self.name,
        }
    }

    /// The override that belongs to this command, if there is one.
    pub(crate) fn find_override<'a>(&self, overrides: &'a StringMap<CommandOverride>) -> (r: Option<
        &'a CommandOverride,
    >)
        ensures
            match r {
                Some(o) => override_of(*self, overrides@) == Some(*o),
                None => override_of(*self, overrides@) is None,
            },
    {
        match &self.command_id {
            Some(id) => overrides.get(id),
            None => None,
        }
    }

    /// Whether this command is disabled by its override.
    pub(crate) fn is_disabled_by(&self, overrides: &StringMap<CommandOverride>) -> (r: bool)
        ensures
            r == is_disabled(*self, overrides@),
    {
        match self.find_override(overrides) {
            Some(o) => o.is_disabling(),
            None => false,
        }
    }

    /// The aliases that this command answers to.
    pub(crate) fn answering_aliases<'a>(&'a self, overrides: &'a StringMap<CommandOverride>) -> (r:
        Vec<&'a String>)
        ensures
            ref_texts(r@) == active_aliases(*self, overrides@),
    {
        match self.find_override(overrides) {
            Some(o) => o.changed(&self.aliases),
            None => {
                let mut r: Vec<&String> = Vec::new();
                let mut i: usize = 0;
                while i < self.aliases.len()
                    invariant
                        i <= self.aliases@.len(),
                        r@.len() == i,
                        forall|j: int| 0 <= j < i ==> *(#[trigger] r@[j]) == self.aliases@[j],
                    decreases self.aliases@.len() - i,
                {
                    r.push(&self.aliases[i]);
                    i = i + 1;
                }
                assert(ref_texts(r@) =~= texts(self.aliases@));
                r
            },
        }
    }

    /// Appends the names of this command that `other` has too.
    pub(crate) fn push_shared_names(
        &self,
        other: &Self,
        case_insensitive: bool,
        found: &mut Vec<String>,
    )
        ensures
            texts(final(found)@) == texts(old(found)@) + shared_names(
                *self,
                *other,
                case_insensitive,
            ),
    {
        let ghost before = texts(found@);
        if text_equal(&self.name, &other.name, case_insensitive) {
            found.push(self.name.clone());
        }
        assert(texts(found@) =~= before + only_if(
            same_text(self.name@, other.name@, case_insensitive),
            self.name@,
        ));
        push_shared_localizations(
            &self.name_localizations,
            &other.name_localizations,
            case_insensitive,
            found,
        );
        assert(texts(found@) =~= before + shared_names(*self, *other, case_insensitive));
    }

    /// Appends the aliases of this command that `other` has too.
    pub(crate) fn push_shared_aliases(
        &self,
        other: &Self,
        case_insensitive: bool,
        overrides: &StringMap<CommandOverride>,
        found: &mut Vec<String>,
    )
        ensures
            texts(final(found)@) == texts(old(found)@) + shared_aliases(
                *self,
                *other,
                case_insensitive,
                overrides@,
            ),
    {
        let own = self.answering_aliases(overrides);
        let others = other.answering_aliases(overrides);
        push_shared_texts(&own, &others, case_insensitive, found);
    }

    /// Returns all collisions between `self` and `other` for
    ///
    /// * name
    /// * name_localizations
    /// * aliases
    ///
    /// if the commands share a command type (prefix, slash, contextmenu). The names in Discord's
    /// context menus and the localised names are compared if both commands are in the menu of the
    /// same type (user, message). A disabled command collides with nothing.
    ///
    /// Application command names should always be lower case, this is not ensured by this check.
    /// They will be rejected by Discord on registering as illegal otherwise.
    /// Non-lowercase application command names may yield false negatives in this check!
    ///
    /// `prefix_names_case_insensitive` if true, the names (and aliases)
    /// of prefix commands are checked case-insensitive.
    pub fn check_naming_collision(
        &self,
        other: &Self,
        prefix_names_case_insensitive: bool,
        overrides: &StringMap<CommandOverride>,
    ) -> (r: Vec<String>)
        ensures
            texts(r@) == naming_collision(
                *self,
                *other,
                prefix_names_case_insensitive,
                overrides@,
            ),
    {
        let ci = prefix_names_case_insensitive;
        let mut conflicts: Vec<String> = Vec::new();
        assert(texts(conflicts@) =~= Seq::<Seq<char>>::empty());
        if self.is_disabled_by(overrides) || other.is_disabled_by(overrides) {
            return conflicts;
        }
        let context_check = self.is_in_menu_of(other);
        let prefix_check = self.prefix_action.is_some() && other.prefix_action.is_some();
        let slash_check = self.slash_action.is_some() && other.slash_action.is_some();

        if context_check && *self.context_name() == *other.context_name() {
            conflicts.push(self.context_name().clone());
        }
        let ghost part = only_if(
            context_check && self.shown_context_name() == other.shown_context_name(),
            self.shown_context_name(),
        );
        assert(texts(conflicts@) =~= part);
        if slash_check || prefix_check {
            self.push_shared_names(other, ci && prefix_check, &mut conflicts);
        } else if context_check {
            push_shared_localizations(
                &self.name_localizations,
                &other.name_localizations,
                false,
                &mut conflicts,
            );
        }
        let ghost part = part + colliding_names(*self, *other, ci);
        assert(texts(conflicts@) =~= part);
        if prefix_check {
            self.push_shared_aliases(other, ci, overrides, &mut conflicts);
        }
        assert(texts(conflicts@) =~= part + (if prefix_check {
            shared_aliases(*self, *other, ci, overrides@)
        } else {
            Seq::empty()
        }));
        conflicts
    }

    fn is_in_menu_of(&self, other: &Self) -> (r: bool)
        ensures
            r == share_context_menu(*self, *other),
    {
        match (&self.context_menu_action, &other.context_menu_action) {
            (
                Some(ContextMenuCommandAction::User(_)),
                Some(ContextMenuCommandAction::User(_)),
            ) => true,
            (
                Some(ContextMenuCommandAction::Message(_)),
                Some(ContextMenuCommandAction::Message(_)),
            ) => true,
            _ => false,
        }
    }
}

proof fn lemma_localizations_shared_both_ways(
    a: Seq<(Seq<char>, Seq<char>)>,
    b: Seq<(Seq<char>, Seq<char>)>,
    case_insensitive: bool,
)
    requires
        shared_localizations(a, b, case_insensitive).len() > 0,
    ensures
        shared_localizations(b, a, case_insensitive).len() > 0,
{
    let in_b = |p: (Seq<char>, Seq<char>)| is_localized_in(p, b, case_insensitive);
    let in_a = |p: (Seq<char>, Seq<char>)| is_localized_in(p, a, case_insensitive);
    lemma_filter_empty(a, in_b);
    lemma_filter_empty(b, in_a);
    let i = choose|i: int| 0 <= i < a.len() && in_b(#[trigger] a[i]);
    let j = choose|j: int|
        0 <= j < b.len() && (#[trigger] b[j]).0 == a[i].0 && same_text(
            a[i].1,
            b[j].1,
            case_insensitive,
        );
    lemma_same_text_symmetric(a[i].1, b[j].1, case_insensitive);
    assert(a[i].0 == b[j].0);
    assert(in_a(b[j]));
}

proof fn lemma_texts_shared_both_ways(
    a: Seq<Seq<char>>,
    b: Seq<Seq<char>>,
    case_insensitive: bool,
)
    requires
        shared_texts(a, b, case_insensitive).len() > 0,
    ensures
        shared_texts(b, a, case_insensitive).len() > 0,
{
    let in_b = |x: Seq<char>| is_text_in(x, b, case_insensitive);
    let in_a = |x: Seq<char>| is_text_in(x, a, case_insensitive);
    lemma_filter_empty(a, in_b);
    lemma_filter_empty(b, in_a);
    let i = choose|i: int| 0 <= i < a.len() && in_b(#[trigger] a[i]);
    let j = choose|j: int| 0 <= j < b.len() && same_text(#[trigger] b[j], a[i], case_insensitive);
    lemma_same_text_symmetric(b[j], a[i], case_insensitive);
    assert(in_a(b[j]));
}

/// Two commands share names or aliases either way around.
pub(crate) proof fn lemma_identifiers_shared_both_ways<H>(
    a: Command<H>,
    b: Command<H>,
    case_insensitive: bool,
    overrides: Map<Seq<char>, CommandOverride>,
)
    ensures
        shared_names(a, b, case_insensitive).len() > 0 ==> shared_names(
            b,
            a,
            case_insensitive,
        ).len() > 0,
        shared_aliases(a, b, case_insensitive, overrides).len() > 0 ==> shared_aliases(
            b,
            a,
            case_insensitive,
            overrides,
        ).len() > 0,
{
    let la = localized(a.name_localizations@);
    let lb = localized(b.name_localizations@);
    lemma_same_text_symmetric(a.name@, b.name@, case_insensitive);
    if shared_localizations(la, lb, case_insensitive).len() > 0 {
        lemma_localizations_shared_both_ways(la, lb, case_insensitive);
    }
    if shared_aliases(a, b, case_insensitive, overrides).len() > 0 {
        lemma_texts_shared_both_ways(
            active_aliases(a, overrides),
            active_aliases(b, overrides),
            case_insensitive,
        );
    }
}

proof fn lemma_collision_both_ways<H>(
    a: Command<H>,
    b: Command<H>,
    case_insensitive: bool,
    overrides: Map<Seq<char>, CommandOverride>,
)
    requires
        naming_collision(a, b, case_insensitive, overrides).len() > 0,
    ensures
        naming_collision(b, a, case_insensitive, overrides).len() > 0,
{
    let prefix = a.prefix_action is Some && b.prefix_action is Some;
    let la = localized(a.name_localizations@);
    let lb = localized(b.name_localizations@);
    lemma_identifiers_shared_both_ways(a, b, case_insensitive, overrides);
    lemma_identifiers_shared_both_ways(a, b, case_insensitive && prefix, overrides);
    if shared_localizations(la, lb, false).len() > 0 {
        lemma_localizations_shared_both_ways(la, lb, false);
    }
}

/// All checks are symmetrical: [`Command::check_naming_collision`] finds something either way
/// around or not at all.
pub proof fn law_collisions_are_symmetrical<H>(
    a: Command<H>,
    b: Command<H>,
    case_insensitive: bool,
    overrides: Map<Seq<char>, CommandOverride>,
)
    ensures
        naming_collision(a, b, case_insensitive, overrides).len() == 0 <==> naming_collision(
            b,
            a,
            case_insensitive,
            overrides,
        ).len() == 0,
{
    if naming_collision(a, b, case_insensitive, overrides).len() > 0 {
        lemma_collision_both_ways(a, b, case_insensitive, overrides);
    }
    if naming_collision(b, a, case_insensitive, overrides).len() > 0 {
        lemma_collision_both_ways(b, a, case_insensitive, overrides);
    }
}

/// A disabled command collides with nothing, and neither do two commands that share no command
/// type, where the context menus of users and of messages are two types.
pub proof fn law_nothing_to_collide<H>(
    a: Command<H>,
    b: Command<H>,
    case_insensitive: bool,
    overrides: Map<Seq<char>, CommandOverride>,
)
    requires
        is_disabled(a, overrides) || is_disabled(b, overrides) || ({
            &&& a.prefix_action is None || b.prefix_action is None
            &&& a.slash_action is None || b.slash_action is None
            &&& !share_context_menu(a, b)
        }),
    ensures
        naming_collision(a, b, case_insensitive, overrides).len() == 0,
{
}

/// Two enabled commands of which both are slash or both are prefix commands collide if they have
/// the same name, two context menu commands of the same type if they are shown under the same name.
/// Both collide if they have the same localised name for one locale. Two enabled prefix commands
/// collide if an alias of one is an alias of the other. Case is ignored for prefix commands only.
pub proof fn law_same_identifiers_collide<H>(
    a: Command<H>,
    b: Command<H>,
    case_insensitive: bool,
    overrides: Map<Seq<char>, CommandOverride>,
    i: int,
    j: int,
)
    requires
        !is_disabled(a, overrides),
        !is_disabled(b, overrides),
        ({
            let prefix = a.prefix_action is Some && b.prefix_action is Some;
            let slash = a.slash_action is Some && b.slash_action is Some;
            let menu = share_context_menu(a, b);
            let la = localized(a.name_localizations@);
            let lb = localized(b.name_localizations@);
            let aliases = active_aliases(a, overrides);
            let others = active_aliases(b, overrides);
            ||| menu && a.shown_context_name() == b.shown_context_name()
            ||| (slash || prefix) && same_text(a.name@, b.name@, case_insensitive && prefix)
            ||| (slash || prefix || menu) && 0 <= i < la.len() && 0 <= j < lb.len() && la[i].0
                == lb[j].0 && same_text(la[i].1, lb[j].1, case_insensitive && prefix)
            ||| prefix && 0 <= i < aliases.len() && 0 <= j < others.len() && same_text(
                others[j],
                aliases[i],
                case_insensitive,
            )
        }),
    ensures
        naming_collision(a, b, case_insensitive, overrides).len() > 0,
{
    let ci = case_insensitive && a.prefix_action is Some && b.prefix_action is Some;
    let la = localized(a.name_localizations@);
    let lb = localized(b.name_localizations@);
    let aliases = active_aliases(a, overrides);
    let others = active_aliases(b, overrides);
    if 0 <= i < la.len() && 0 <= j < lb.len() && la[i].0 == lb[j].0 && same_text(
        la[i].1,
        lb[j].1,
        ci,
    ) {
        let shared = |p: (Seq<char>, Seq<char>)| is_localized_in(p, lb, ci);
        assert(lb[j].0 == la[i].0);
        assert(shared(la[i]));
        lemma_filter_empty(la, shared);
    }
    if 0 <= i < aliases.len() && 0 <= j < others.len() && same_text(
        others[j],
        aliases[i],
        case_insensitive,
    ) {
        let shared = |x: Seq<char>| is_text_in(x, others, case_insensitive);
        assert(shared(aliases[i]));
        lemma_filter_empty(aliases, shared);
    }
}

/// The flag changes nothing for two commands that are not both prefix commands: application
/// command names are compared with regard to case.
pub proof fn law_case_is_ignored_for_prefix_commands_only<H>(
    a: Command<H>,
    b: Command<H>,
    overrides: Map<Seq<char>, CommandOverride>,
)
    requires
        a.prefix_action is None || b.prefix_action is None,
    ensures
        naming_collision(a, b, true, overrides) == naming_collision(a, b, false, overrides),
{
}

/// A command answers to every alias that its override adds, and to none that it removes. To any
/// other alias it answers if it is one of its own.
pub proof fn law_changed_aliases<H>(
    cmd: Command<H>,
    overrides: Map<Seq<char>, CommandOverride>,
    alias: Seq<char>,
)
    requires
        override_of(cmd, overrides) is Some,
        override_of(cmd, overrides)->0.changed_aliases.has_distinct_keys(),
    ensures
        ({
            let changed = override_of(cmd, overrides)->0.changed_aliases@;
            active_aliases(cmd, overrides).contains(alias) == (if changed.contains_key(alias) {
                changed[alias]
            } else {
                texts(cmd.aliases@).contains(alias)
            })
        }),
{
    let o = override_of(cmd, overrides)->0;
    let changed = o.changed_aliases;
    let own = texts(cmd.aliases@);
    let kept = own.filter(|a: Seq<char>| !o.removes(a));
    lemma_filter_contains(own, |a: Seq<char>| !o.removes(a), alias);
    let is_added = |e: (Seq<char>, bool)| e.1;
    let added = changed.entry_seq().filter(is_added);
    lemma_filter_contains(changed.entry_seq(), is_added, (alias, true));
    assert(o.added().contains(alias) <==> changed@.contains_key(alias) && changed@[alias]) by {
        if o.added().contains(alias) {
            let i = o.added().index_of(alias);
            assert(added[i].0 == alias);
            assert(added.contains(added[i]));
            lemma_filter_contains(changed.entry_seq(), is_added, added[i]);
            let j = changed.entry_seq().index_of(added[i]);
            changed.lemma_at(j);
        }
        if changed@.contains_key(alias) && changed@[alias] {
            let j = choose|j: int| changed.is_at(j, alias);
            changed.lemma_at(j);
            assert(changed.entry_seq()[j] == (alias, true));
            let i = added.index_of((alias, true));
            assert(o.added()[i] == alias);
        }
    }
    let all = kept + o.added();
    if kept.contains(alias) {
        assert(all[kept.index_of(alias)] == alias);
    }
    if o.added().contains(alias) {
        assert(all[kept.len() + o.added().index_of(alias)] == alias);
    }
    if all.contains(alias) {
        let i = all.index_of(alias);
        if i < kept.len() {
            assert(kept[i] == alias);
        } else {
            assert(o.added()[i - kept.len()] == alias);
        }
    }
}

} // verus!

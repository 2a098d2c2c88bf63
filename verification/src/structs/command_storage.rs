//! Storages of commands.

use crate::structs::command::{Command, ContextMenuCommandAction};
use crate::seqs::{lemma_filter_contains, lemma_filter_step};
use vstd::prelude::*;

verus! {

/// A Vec, which holds multiple [`Command`] objects.
#[derive(Debug)]
pub struct CommandStorage<H>(pub Vec<Command<H>>);

impl<H> View for CommandStorage<H> {
    type V = Seq<Command<H>>;

    open spec fn view(&self) -> Seq<Command<H>> {
        self.0@
    }
}

impl<H> std::ops::Deref for CommandStorage<H> {
    type Target = Vec<Command<H>>;

    fn deref(&self) -> (r: &Vec<Command<H>>)
        ensures
            *r == self.0,
    {
        &self.0
    }
}

impl<H> std::ops::DerefMut for CommandStorage<H> {
    fn deref_mut(&mut self) -> (r: &mut Vec<Command<H>>)
        ensures
            *r == old(self).0,
            final(self).0 == *final(r),
    {
        &mut self.0
    }
}

impl<H> vstd::std_specs::convert::FromSpecImpl<Vec<Command<H>>> for CommandStorage<H> {
    open spec fn obeys_from_spec() -> bool {
        true
    }

    open spec fn from_spec(v: Vec<Command<H>>) -> Self {
        CommandStorage(v)
    }
}

impl<H> From<Vec<Command<H>>> for CommandStorage<H> {
    fn from(value: Vec<Command<H>>) -> (r: Self) {
        CommandStorage(value)
    }
}

impl<H> Default for CommandStorage<H> {
    fn default() -> (r: Self)
        ensures
            r@ == Seq::<Command<H>>::empty(),
    {
        CommandStorage(Vec::new())
    }
}

/// The two types of context menu commands.
pub enum ContextMenuType {
    User,
    Message,
}

/// Whether `c` is a context menu command of the given type.
pub open spec fn is_context_command<H>(c: Command<H>, kind: ContextMenuType) -> bool {
    match kind {
        ContextMenuType::User => c.context_menu_action matches Some(
            ContextMenuCommandAction::User(_),
        ),
        ContextMenuType::Message => c.context_menu_action matches Some(
            ContextMenuCommandAction::Message(_),
        ),
    }
}

/// The context menu commands among `s`, followed by those among their subcommands.
pub open spec fn context_commands<H>(s: Seq<Command<H>>, kind: ContextMenuType) -> Seq<Command<H>>
    decreases s, s.len() + 1,
{
    s.filter(|c: Command<H>| is_context_command(c, kind)) + nested_context_commands(
        s,
        s.len(),
        kind,
    )
}

/// The context menu commands among the subcommands of the first `n` commands of `s`.
pub open spec fn nested_context_commands<H>(
    s: Seq<Command<H>>,
    n: nat,
    kind: ContextMenuType,
) -> Seq<Command<H>>
    decreases s, n,
{
    if n == 0 || n > s.len() {
        Seq::empty()
    } else {
        nested_context_commands(s, (n - 1) as nat, kind) + context_commands(
            s[n - 1].subcommands@,
            kind,
        )
    }
}

impl<H> CommandStorage<H> {
    /// Returns an empty CommandStorage.
    /// This function uses a Vec with a capacity of 0.
    pub fn new_empty() -> (r: Self)
        ensures
            r@ == Seq::<Command<H>>::empty(),
    {
        CommandStorage(Vec::with_capacity(0))
    }

    /// References to the stored commands.
    pub(crate) fn refs(&self) -> (r: Vec<&Command<H>>)
        ensures
            r@.unref() == self@,
    {
        let mut r: Vec<&Command<H>> = Vec::new();
        let mut i: usize = 0;
        while i < self.0.len()
            invariant
                i <= self.0@.len(),
                r@.len() == i,
                forall|j: int| 0 <= j < i ==> *(#[trigger] r@[j]) == self.0@[j],
            decreases self.0@.len() - i,
        {
            r.push(&self.0[i]);
            i = i + 1;
        }
        assert(r@.unref() =~= self@);
        r
    }

    /// Returns the context commands bound to (user, message) objects.
    ///
    /// This method searches recursively.
    pub fn get_context_commands(&self) -> (r: (Vec<&Command<H>>, Vec<&Command<H>>))
        ensures
            r.0@.unref() == context_commands(self@, ContextMenuType::User),
            r.1@.unref() == context_commands(self@, ContextMenuType::Message),
        decreases *self,
    {
        let ghost s = self@;
        let ghost is_user = |c: Command<H>| is_context_command(c, ContextMenuType::User);
        let ghost is_message = |c: Command<H>| is_context_command(c, ContextMenuType::Message);
        let mut user: Vec<&Command<H>> = Vec::new();
        let mut message: Vec<&Command<H>> = Vec::new();
        let mut i: usize = 0;
        proof {
            reveal(Seq::filter);
            assert(user@.unref() =~= s.take(0).filter(is_user));
            assert(message@.unref() =~= s.take(0).filter(is_message));
        }
        while i < self.0.len()
            invariant
                i <= s.len(),
                s == self.0@,
                is_user == (|c: Command<H>| is_context_command(c, ContextMenuType::User)),
                is_message == (|c: Command<H>| is_context_command(c, ContextMenuType::Message)),
                user@.unref() == s.take(i as int).filter(is_user),
                message@.unref() == s.take(i as int).filter(is_message),
            decreases s.len() - i,
        {
            let ghost u = user@;
            let ghost m = message@;
            let c = &self.0[i];
            match &c.context_menu_action {
                Some(ContextMenuCommandAction::User(_)) => {
                    user.push(c);
                },
                Some(ContextMenuCommandAction::Message(_)) => {
                    message.push(c);
                },
                None => {},
            }
            proof {
                lemma_filter_step(s, i as int, is_user);
                lemma_filter_step(s, i as int, is_message);
                if is_user(s[i as int]) {
                    assert(user@.unref() =~= u.unref().push(s[i as int]));
                }
                if is_message(s[i as int]) {
                    assert(message@.unref() =~= m.unref().push(s[i as int]));
                }
            }
            i = i + 1;
        }
        assert(s.take(i as int) =~= s);
        let ghost own_user = s.filter(is_user);
        let ghost own_message = s.filter(is_message);
        let mut i: usize = 0;
        assert(user@.unref() =~= own_user + nested_context_commands(s, 0, ContextMenuType::User));
        assert(message@.unref() =~= own_message + nested_context_commands(
            s,
            0,
            ContextMenuType::Message,
        ));
        while i < self.0.len()
            invariant
                i <= s.len(),
                s == self.0@,
                user@.unref() == own_user + nested_context_commands(
                    s,
                    i as nat,
                    ContextMenuType::User,
                ),
                message@.unref() == own_message + nested_context_commands(
                    s,
                    i as nat,
                    ContextMenuType::Message,
                ),
            decreases s.len() - i,
        {
            let ghost u = user@;
            let ghost m = message@;
            let c = &self.0[i];
            let (mut nested_user, mut nested_message) = c.subcommands.get_context_commands();
            let ghost nu = nested_user@;
            let ghost nm = nested_message@;
            user.append(&mut nested_user);
            message.append(&mut nested_message);
            proof {
                assert(user@.unref() =~= u.unref() + nu.unref());
                assert(message@.unref() =~= m.unref() + nm.unref());
                assert(user@.unref() =~= own_user + nested_context_commands(
                    s,
                    (i + 1) as nat,
                    ContextMenuType::User,
                ));
                assert(message@.unref() =~= own_message + nested_context_commands(
                    s,
                    (i + 1) as nat,
                    ContextMenuType::Message,
                ));
            }
            i = i + 1;
        }
        (user, message)
    }
}

/// Whether `c` is one of the commands of `s` or is somewhere below one of them.
pub open spec fn is_within<H>(c: Command<H>, s: Seq<Command<H>>) -> bool
    decreases s,
{
    exists|i: int|
        0 <= i < s.len() && (#[trigger] s[i] == c || is_within(c, s[i].subcommands@))
}

proof fn lemma_nested_context_commands<H>(
    s: Seq<Command<H>>,
    n: nat,
    kind: ContextMenuType,
    c: Command<H>,
)
    requires
        n <= s.len(),
    ensures
        nested_context_commands(s, n, kind).contains(c) <==> is_context_command(c, kind)
            && exists|i: int| 0 <= i < n && is_within(c, (#[trigger] s[i]).subcommands@),
    decreases s, n,
{
    if n > 0 {
        let m = (n - 1) as nat;
        let front = nested_context_commands(s, m, kind);
        let back = context_commands(s[n - 1].subcommands@, kind);
        lemma_nested_context_commands(s, m, kind, c);
        law_context_commands_are_complete(s[n - 1].subcommands@, kind, c);
        if (front + back).contains(c) {
            let k = (front + back).index_of(c);
            if k < front.len() {
                assert(front[k] == c);
            } else {
                assert(back[k - front.len()] == c);
            }
        }
        if front.contains(c) {
            let k = front.index_of(c);
            assert((front + back)[k] == c);
        }
        if back.contains(c) {
            let k = back.index_of(c);
            assert((front + back)[front.len() + k] == c);
        }
    }
}

/// [`CommandStorage::get_context_commands`] searches recursively: a command is among what it
/// returns for a type if and only if it is a context menu command of that type and stored
/// somewhere, on whatever level.
pub proof fn law_context_commands_are_complete<H>(
    s: Seq<Command<H>>,
    kind: ContextMenuType,
    c: Command<H>,
)
    ensures
        context_commands(s, kind).contains(c) <==> is_context_command(c, kind) && is_within(c, s),
    decreases s, s.len() + 1,
{
    let p = |c: Command<H>| is_context_command(c, kind);
    let front = s.filter(p);
    let back = nested_context_commands(s, s.len(), kind);
    lemma_nested_context_commands(s, s.len(), kind, c);
    lemma_filter_contains(s, p, c);
    if (front + back).contains(c) {
        let k = (front + back).index_of(c);
        if k < front.len() {
            assert(front[k] == c);
            let i = s.index_of(c);
            assert(s[i] == c);
        } else {
            assert(back[k - front.len()] == c);
        }
    }
    if front.contains(c) {
        let k = front.index_of(c);
        assert((front + back)[k] == c);
    }
    if back.contains(c) {
        let k = back.index_of(c);
        assert((front + back)[front.len() + k] == c);
    }
    if is_within(c, s) {
        let i = choose|i: int|
            0 <= i < s.len() && (#[trigger] s[i] == c || is_within(c, s[i].subcommands@));
        if s[i] == c {
            assert(s.contains(c));
        }
    }
}

} // verus!

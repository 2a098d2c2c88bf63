//! Laws on the search for the command of an interaction.

use crate::dispatch::slash::{
    answers_to, extracted, first_subcommand, found_content, guild_content,
    law_found_user_command_is_meant, law_message_command_is_found, search, search_context, search_slash, CommandInteraction,
    ResolvedOption, ResolvedValue,
};
use crate::string_map::StringMap;
use crate::structs::command::{Command, ContextMenuCommandAction};
use crate::structs::command_override::CommandOverride;
use crate::structs::command_storage::{
    context_commands, is_context_command, is_within, nested_context_commands, CommandStorage,
    ContextMenuType,
};
use serenity::model::application::CommandType;
use vstd::prelude::*;

verus! {

/// Whether an override switches `c` off.
pub open spec fn is_off<H>(c: Command<H>, overrides: Map<Seq<char>, CommandOverride>) -> bool {
    match c.command_id {
        Some(id) => overrides.contains_key(id@) && (overrides[id@].disabled
            || overrides[id@].group_disabled),
        None => false,
    }
}

/// Whether `c` has the name, a slash action, and no override that switches it off.
pub open spec fn is_wanted<H>(
    c: Command<H>,
    name: Seq<char>,
    overrides: Map<Seq<char>, CommandOverride>,
) -> bool {
    c.name@ == name && c.slash_action is Some && !is_off(c, overrides)
}

/// Whether an option holds options of its own, as a subcommand or a group of them does.
pub open spec fn is_subcommand<V>(option: ResolvedOption<V>) -> bool {
    option.value is SubCommand || option.value is SubCommandGroup
}

/// Whether the `m`th option is the first subcommand, with the options `nested` of its own.
pub open spec fn is_first_subcommand<V>(
    options: Seq<ResolvedOption<V>>,
    m: int,
    nested: Vec<ResolvedOption<V>>,
) -> bool {
    &&& 0 <= m < options.len()
    &&& options[m].value == ResolvedValue::SubCommand(nested) || options[m].value
        == ResolvedValue::SubCommandGroup(nested)
    &&& forall|j: int| 0 <= j < m ==> !is_subcommand(#[trigger] options[j])
}

proof fn lemma_first_subcommand<V>(
    options: Seq<ResolvedOption<V>>,
    i: nat,
    m: int,
    nested: Vec<ResolvedOption<V>>,
)
    requires
        is_first_subcommand(options, m, nested),
        i <= m,
    ensures
        first_subcommand(options, i) == Some((options[m].name@, nested@)),
    decreases m - i,
{
    if i < m {
        assert(!is_subcommand(options[i as int]));
        lemma_first_subcommand(options, i + 1, m, nested);
    }
}

proof fn lemma_no_subcommand<V>(options: Seq<ResolvedOption<V>>, i: nat)
    requires
        forall|j: int| 0 <= j < options.len() ==> !is_subcommand(#[trigger] options[j]),
    ensures
        first_subcommand(options, i) is None,
    decreases options.len() - i,
{
    if i < options.len() {
        assert(!is_subcommand(options[i as int]));
        lemma_no_subcommand(options, i + 1);
    }
}

proof fn lemma_wanted<H>(
    c: Command<H>,
    name: Seq<char>,
    overrides: Map<Seq<char>, CommandOverride>,
)
    ensures
        answers_to(c, name, overrides) == is_wanted(c, name, overrides),
{
}

proof fn lemma_plain_search<H, V>(
    name: Seq<char>,
    options: Seq<ResolvedOption<V>>,
    s: Seq<Command<H>>,
    i: nat,
    overrides: Map<Seq<char>, CommandOverride>,
)
    requires
        i <= s.len(),
        first_subcommand(options, 0) is None,
        forall|j: int| 0 <= j < i ==> !is_wanted(#[trigger] s[j], name, overrides),
    ensures
        ({
            let result = search_slash(name, options, s, i, overrides);
            &&& result.parents.len() == 0
            &&& match result.found {
                None => forall|j: int|
                    0 <= j < s.len() ==> !is_wanted(#[trigger] s[j], name, overrides),
                Some((c, args)) => args == options && exists|k: int|
                    {
                        &&& 0 <= k < s.len() && #[trigger] s[k] == c
                        &&& is_wanted(s[k], name, overrides)
                        &&& forall|j: int|
                            0 <= j < k ==> !is_wanted(#[trigger] s[j], name, overrides)
                    },
            }
        }),
    decreases s.len() - i,
{
    if i < s.len() {
        lemma_wanted(s[i as int], name, overrides);
        if is_wanted(s[i as int], name, overrides) {
            assert(s[i as int] == s[i as int]);
        } else {
            lemma_plain_search(name, options, s, i + 1, overrides);
        }
    }
}

/// An interaction with a slash command that asks for no subcommand finds a command if and only if
/// one of the stored commands has the name, has a slash action and is not switched off. It finds the
/// first of them, for which all the options are meant, and there are no parent commands. No other
/// field of a command has a part in that.
pub proof fn law_plain_search<H, V>(
    name: Seq<char>,
    kind: CommandType,
    options: Seq<ResolvedOption<V>>,
    s: Seq<Command<H>>,
    overrides: Map<Seq<char>, CommandOverride>,
    k: int,
)
    requires
        kind is ChatInput || kind is Unknown,
        forall|j: int| 0 <= j < options.len() ==> !is_subcommand(#[trigger] options[j]),
    ensures
        ({
            let result = search(name, kind, options, s, overrides);
            &&& result.found is Some <==> exists|i: int|
                0 <= i < s.len() && is_wanted(#[trigger] s[i], name, overrides)
            &&& 0 <= k < s.len() && is_wanted(s[k], name, overrides) && (forall|j: int|
                0 <= j < k ==> !is_wanted(#[trigger] s[j], name, overrides)) ==> result.found
                == Some((s[k], options))
            &&& result.parents.len() == 0
        }),
{
    lemma_no_subcommand(options, 0);
    lemma_plain_search(name, options, s, 0, overrides);
    if let Some((c, _)) = search(name, kind, options, s, overrides).found {
        let f = choose|f: int|
            {
                &&& 0 <= f < s.len() && #[trigger] s[f] == c
                &&& is_wanted(s[f], name, overrides)
                &&& forall|j: int| 0 <= j < f ==> !is_wanted(#[trigger] s[j], name, overrides)
            };
        assert(is_wanted(s[f], name, overrides));
    }
}

/// Whether the search that is asked for below the `i`th command finds something.
pub open spec fn leads_on<H, V>(
    s: Seq<Command<H>>,
    i: int,
    name: Seq<char>,
    sub_name: Seq<char>,
    sub_options: Seq<ResolvedOption<V>>,
    kind: CommandType,
    overrides: Map<Seq<char>, CommandOverride>,
) -> bool {
    is_wanted(s[i], name, overrides) && search(
        sub_name,
        kind,
        sub_options,
        s[i].subcommands@,
        overrides,
    ).found is Some
}

proof fn lemma_search_below<H, V>(
    name: Seq<char>,
    kind: CommandType,
    options: Seq<ResolvedOption<V>>,
    sub_name: Seq<char>,
    sub_options: Seq<ResolvedOption<V>>,
    s: Seq<Command<H>>,
    i: nat,
    overrides: Map<Seq<char>, CommandOverride>,
)
    requires
        kind is ChatInput || kind is Unknown,
        i <= s.len(),
        first_subcommand(options, 0) == Some((sub_name, sub_options)),
    ensures
        ({
            let result = search_slash(name, options, s, i, overrides);
            let lead = |j: int| leads_on(s, j, name, sub_name, sub_options, kind, overrides);
            &&& (forall|j: int| i <= j < s.len() ==> !is_wanted(#[trigger] s[j], name, overrides))
                ==> result.parents.len() == 0
            &&& match result.found {
                None => forall|j: int| i <= j < s.len() ==> !#[trigger] lead(j),
                Some(found) => exists|k: int|
                    {
                        let below = search(
                            sub_name,
                            kind,
                            sub_options,
                            s[k].subcommands@,
                            overrides,
                        );
                        let end = seq![s[k]] + below.parents;
                        &&& i <= k < s.len() && #[trigger] lead(k)
                        &&& forall|j: int| i <= j < k ==> !#[trigger] lead(j)
                        &&& below.found == Some(found)
                        &&& end.is_suffix_of(result.parents)
                        &&& (forall|j: int|
                            i <= j < k ==> !is_wanted(#[trigger] s[j], name, overrides))
                            ==> result.parents == end
                    },
            }
        }),
    decreases s.len() - i,
{
    if i < s.len() {
        let lead = |j: int| leads_on(s, j, name, sub_name, sub_options, kind, overrides);
        let c = s[i as int];
        let result = search_slash(name, options, s, i, overrides);
        let below = search_slash(sub_name, sub_options, c.subcommands@, 0, overrides);
        let rest = search_slash(name, options, s, i + 1, overrides);
        lemma_wanted(c, name, overrides);
        lemma_search_below(
            name,
            kind,
            options,
            sub_name,
            sub_options,
            s,
            i + 1,
            overrides,
        );
        if lead(i as int) {
            assert(result.parents.skip(0) =~= result.parents);
        } else {
            if let Some(found) = rest.found {
                let k = choose|k: int|
                    {
                        let below = search(
                            sub_name,
                            kind,
                            sub_options,
                            s[k].subcommands@,
                            overrides,
                        );
                        let end = seq![s[k]] + below.parents;
                        &&& i + 1 <= k < s.len() && #[trigger] lead(k)
                        &&& forall|j: int| i + 1 <= j < k ==> !#[trigger] lead(j)
                        &&& below.found == Some(found)
                        &&& end.is_suffix_of(rest.parents)
                        &&& (forall|j: int|
                            i + 1 <= j < k ==> !is_wanted(#[trigger] s[j], name, overrides))
                            ==> rest.parents == end
                    };
                let end = seq![s[k]] + search(
                    sub_name,
                    kind,
                    sub_options,
                    s[k].subcommands@,
                    overrides,
                ).parents;
                assert(lead(k));
                if is_wanted(c, name, overrides) {
                    let front = seq![c] + below.parents;
                    assert(result.parents == front + rest.parents);
                    assert(result.parents.skip(result.parents.len() - end.len())
                        =~= rest.parents.skip(rest.parents.len() - end.len()));
                    assert(is_wanted(s[i as int], name, overrides));
                }
            }
        }
    }
}

/// An interaction with a slash command that asks for a subcommand finds a command if and only if
/// one of the stored commands has the name, has a slash action and is not switched off, and the
/// same search for the subcommand finds one among its subcommands. It finds what the search below
/// the first of them finds. That command is a parent command, followed by the parent commands of the
/// search below it; if no other command was tried before, these are all.
pub proof fn law_search_below<H, V>(
    name: Seq<char>,
    kind: CommandType,
    options: Seq<ResolvedOption<V>>,
    m: int,
    nested: Vec<ResolvedOption<V>>,
    s: Seq<Command<H>>,
    overrides: Map<Seq<char>, CommandOverride>,
    k: int,
)
    requires
        kind is ChatInput || kind is Unknown,
        is_first_subcommand(options, m, nested),
    ensures
        ({
            let result = search(name, kind, options, s, overrides);
            let lead = |i: int|
                leads_on(s, i, name, options[m].name@, nested@, kind, overrides);
            let below = search(options[m].name@, kind, nested@, s[k].subcommands@, overrides);
            let end = seq![s[k]] + below.parents;
            &&& result.found is Some <==> exists|i: int| 0 <= i < s.len() && #[trigger] lead(i)
            &&& 0 <= k < s.len() && lead(k) && (forall|j: int| 0 <= j < k ==> !#[trigger] lead(j))
                ==> {
                &&& result.found == below.found
                &&& end.is_suffix_of(result.parents)
                &&& (forall|j: int| 0 <= j < k ==> !is_wanted(#[trigger] s[j], name, overrides))
                    ==> result.parents == end
            }
            &&& (forall|j: int| 0 <= j < s.len() ==> !is_wanted(#[trigger] s[j], name, overrides))
                ==> result.parents.len() == 0
        }),
{
    let sub_name = options[m].name@;
    let lead = |i: int| leads_on(s, i, name, sub_name, nested@, kind, overrides);
    lemma_first_subcommand(options, 0, m, nested);
    lemma_search_below(name, kind, options, sub_name, nested@, s, 0, overrides);
    let result = search(name, kind, options, s, overrides);
    if let Some(found) = result.found {
        let f = choose|f: int|
            {
                let below = search(sub_name, kind, nested@, s[f].subcommands@, overrides);
                let end = seq![s[f]] + below.parents;
                &&& 0 <= f < s.len() && #[trigger] lead(f)
                &&& forall|j: int| 0 <= j < f ==> !#[trigger] lead(j)
                &&& below.found == Some(found)
                &&& end.is_suffix_of(result.parents)
                &&& (forall|j: int| 0 <= j < f ==> !is_wanted(#[trigger] s[j], name, overrides))
                    ==> result.parents == end
            };
        if 0 <= k < s.len() && lead(k) && (forall|j: int| 0 <= j < k ==> !#[trigger] lead(j)) {
            assert(f == k) by {
                if f < k {
                    assert(!lead(f));
                } else if k < f {
                    assert(!lead(k));
                }
            }
        }
    }
}

/// Whether `c` acts on users if `on_user` is set, else on messages.
pub open spec fn acts_on<H>(c: Command<H>, on_user: bool) -> bool {
    match c.context_menu_action {
        Some(ContextMenuCommandAction::User(_)) => on_user,
        Some(ContextMenuCommandAction::Message(_)) => !on_user,
        None => false,
    }
}

/// Whether `c` is stored in `s` on whatever level, acts on that kind of item, is not switched off,
/// and has the name in the context menu: the one given for it, or else the main name.
pub open spec fn is_wanted_in_menu<H>(
    c: Command<H>,
    name: Seq<char>,
    on_user: bool,
    s: Seq<Command<H>>,
    overrides: Map<Seq<char>, CommandOverride>,
) -> bool {
    &&& is_within(c, s)
    &&& acts_on(c, on_user)
    &&& !is_off(c, overrides)
    &&& name == (if c.context_menu_name is Some {
        c.context_menu_name->0@
    } else {
        c.name@
    })
}

/// An interaction with a context menu command finds a command if and only if one is wanted, and what
/// it finds is one. All the options are meant for it, and there are no parent commands. In
/// particular it never finds a command that has a slash action only.
pub proof fn law_menu_search<H, V>(
    name: Seq<char>,
    on_user: bool,
    options: Seq<ResolvedOption<V>>,
    s: Seq<Command<H>>,
    overrides: Map<Seq<char>, CommandOverride>,
    c: Command<H>,
)
    ensures
        ({
            let kind = if on_user {
                CommandType::User
            } else {
                CommandType::Message
            };
            let result = search(name, kind, options, s, overrides);
            &&& is_wanted_in_menu(c, name, on_user, s, overrides) ==> result.found is Some
            &&& result.found matches Some((found, args)) ==> is_wanted_in_menu(
                found,
                name,
                on_user,
                s,
                overrides,
            ) && args == options
            &&& result.parents.len() == 0
        }),
{
    if on_user {
        law_found_user_command_is_meant(name, options, s, overrides);
        assert(is_context_command(c, ContextMenuType::User) == acts_on(c, true));
    } else {
        law_message_command_is_found(name, options, s, overrides);
        assert(is_context_command(c, ContextMenuType::Message) == acts_on(c, false));
    }
}

/// An interaction with the primary entry point of an app finds nothing.
pub proof fn law_entry_point_search<H, V>(
    name: Seq<char>,
    options: Seq<ResolvedOption<V>>,
    s: Seq<Command<H>>,
    overrides: Map<Seq<char>, CommandOverride>,
)
    ensures
        ({
            let result = search(name, CommandType::PrimaryEntryPoint, options, s, overrides);
            result.found is None && result.parents.len() == 0
        }),
{
}

/// A command that is registered in a guild is searched for in what is stored for the guild, with
/// the overrides of the guild; if nothing is stored, nothing is found. Any other is searched for in
/// the global commands, with no overrides. The name, the type and the options of the interaction are
/// searched for.
pub proof fn law_extracted<H, V>(
    interaction: CommandInteraction<V>,
    global: Seq<Command<H>>,
    guild: Option<(Seq<Command<H>>, Map<Seq<char>, CommandOverride>)>,
)
    ensures
        ({
            let result = extracted(interaction, global, guild);
            let find = |s: Seq<Command<H>>, overrides: Map<Seq<char>, CommandOverride>|
                search(
                    interaction.name@,
                    interaction.kind,
                    interaction.options@,
                    s,
                    overrides,
                );
            &&& interaction.guild_id is None ==> result == find(global, Map::empty())
            &&& interaction.guild_id is Some ==> match guild {
                Some((stored, overrides)) => result == find(stored, overrides),
                None => true,
            }
            &&& interaction.guild_id is Some && guild is None ==> result.found is None
                && result.parents.len() == 0
        }),
{
}

/// The commands and the overrides that are stored for a guild are searched as they are stored, and
/// what is found is handed on as it was found.
pub proof fn law_contents<H, V>(
    commands: &CommandStorage<H>,
    overrides: &StringMap<CommandOverride>,
    found: &Command<H>,
    args: &Vec<ResolvedOption<V>>,
)
    ensures
        guild_content(Some((commands, overrides))) == Some((commands@, overrides@)),
        guild_content::<H>(None) is None,
        found_content(Some((found, args))) == Some((*found, args@)),
        found_content::<H, V>(None) is None,
{
}

/// A global command that asks for no subcommand is found if and only if one of the global commands
/// has the name and a slash action: no override switches it off.
pub proof fn law_extracted_global<H, V>(
    interaction: CommandInteraction<V>,
    global: Seq<Command<H>>,
    guild: Option<(Seq<Command<H>>, Map<Seq<char>, CommandOverride>)>,
)
    requires
        interaction.guild_id is None,
        interaction.kind is ChatInput,
        forall|j: int|
            0 <= j < interaction.options@.len() ==> !is_subcommand(
                #[trigger] interaction.options@[j],
            ),
    ensures
        extracted(interaction, global, guild).found is Some <==> exists|i: int|
            0 <= i < global.len() && (#[trigger] global[i]).name@ == interaction.name@
                && global[i].slash_action is Some,
{
    let overrides = Map::<Seq<char>, CommandOverride>::empty();
    law_plain_search(
        interaction.name@,
        interaction.kind,
        interaction.options@,
        global,
        overrides,
        0,
    );
    if exists|i: int|
        0 <= i < global.len() && (#[trigger] global[i]).name@ == interaction.name@
            && global[i].slash_action is Some {
        let i = choose|i: int|
            0 <= i < global.len() && (#[trigger] global[i]).name@ == interaction.name@
                && global[i].slash_action is Some;
        assert(is_wanted(global[i], interaction.name@, overrides));
    }
}

proof fn lemma_search_tail<H, V>(
    name: Seq<char>,
    options: Seq<ResolvedOption<V>>,
    s: Seq<Command<H>>,
    i: nat,
    overrides: Map<Seq<char>, CommandOverride>,
)
    requires
        i < s.len(),
    ensures
        search_slash(name, options, s, i + 1, overrides) == search_slash(
            name,
            options,
            s.skip(1),
            i,
            overrides,
        ),
    decreases s.len() - i,
{
    let t = s.skip(1);
    if i + 1 < s.len() {
        assert(t[i as int] == s[i as int + 1]);
        lemma_search_tail(name, options, s, i + 1, overrides);
    }
}

/// The stored commands are tried one after the other. A command that is not wanted has no part in
/// the search. A wanted command below which nothing is found is a parent command all the same, with
/// the parent commands of the search below it, and the search goes on with the next command.
pub proof fn law_search_goes_on<H, V>(
    name: Seq<char>,
    kind: CommandType,
    options: Seq<ResolvedOption<V>>,
    m: int,
    nested: Vec<ResolvedOption<V>>,
    s: Seq<Command<H>>,
    overrides: Map<Seq<char>, CommandOverride>,
)
    requires
        kind is ChatInput || kind is Unknown,
        s.len() > 0,
    ensures
        ({
            let result = search(name, kind, options, s, overrides);
            let rest = search(name, kind, options, s.skip(1), overrides);
            let below = search(options[m].name@, kind, nested@, s[0].subcommands@, overrides);
            &&& !is_wanted(s[0], name, overrides) ==> result == rest
            &&& is_wanted(s[0], name, overrides) && is_first_subcommand(options, m, nested)
                && below.found is None ==> {
                &&& result.found == rest.found
                &&& result.parents == seq![s[0]] + below.parents + rest.parents
            }
        }),
{
    lemma_wanted(s[0], name, overrides);
    lemma_search_tail(name, options, s, 0, overrides);
    if is_first_subcommand(options, m, nested) {
        lemma_first_subcommand(options, 0, m, nested);
    }
}

/// Whether `c` acts on that kind of item, is not switched off, and has the name in the context menu:
/// the one given for it, or else the main name.
pub open spec fn is_shown_as<H>(
    c: Command<H>,
    name: Seq<char>,
    on_user: bool,
    overrides: Map<Seq<char>, CommandOverride>,
) -> bool {
    &&& acts_on(c, on_user)
    &&& !is_off(c, overrides)
    &&& name == (if c.context_menu_name is Some {
        c.context_menu_name->0@
    } else {
        c.name@
    })
}

proof fn lemma_search_context_add<H>(
    name: Seq<char>,
    a: Seq<Command<H>>,
    b: Seq<Command<H>>,
    i: nat,
    overrides: Map<Seq<char>, CommandOverride>,
)
    requires
        i <= a.len() + b.len(),
    ensures
        i >= a.len() ==> search_context(name, a + b, i, overrides) == search_context(
            name,
            b,
            (i - a.len()) as nat,
            overrides,
        ),
        i < a.len() ==> search_context(name, a + b, i, overrides) == (match search_context(
            name,
            a,
            i,
            overrides,
        ) {
            Some(c) => Some(c),
            None => search_context(name, b, 0, overrides),
        }),
    decreases a.len() + b.len() - i,
{
    let t = a + b;
    if i < t.len() {
        if i < a.len() {
            assert(t[i as int] == a[i as int]);
        } else {
            assert(t[i as int] == b[i - a.len()]);
        }
        lemma_search_context_add(name, a, b, i + 1, overrides);
    }
}

/// What a search finds in `a` and, if there is nothing, in `b`.
proof fn lemma_search_context_both<H>(
    name: Seq<char>,
    a: Seq<Command<H>>,
    b: Seq<Command<H>>,
    overrides: Map<Seq<char>, CommandOverride>,
)
    ensures
        search_context(name, a + b, 0, overrides) == (match search_context(name, a, 0, overrides) {
            Some(c) => Some(c),
            None => search_context(name, b, 0, overrides),
        }),
{
    lemma_search_context_add(name, a, b, 0, overrides);
}

proof fn lemma_search_own<H>(
    name: Seq<char>,
    kind: ContextMenuType,
    on_user: bool,
    s: Seq<Command<H>>,
    overrides: Map<Seq<char>, CommandOverride>,
    i: int,
)
    requires
        on_user == (kind is User),
    ensures
        ({
            let own = s.filter(|c: Command<H>| is_context_command(c, kind));
            let found = search_context(name, own, 0, overrides);
            &&& (forall|j: int|
                0 <= j < s.len() ==> !is_shown_as(#[trigger] s[j], name, on_user, overrides))
                ==> found is None
            &&& 0 <= i < s.len() && is_shown_as(s[i], name, on_user, overrides) && (forall|j: int|
                0 <= j < i ==> !is_shown_as(#[trigger] s[j], name, on_user, overrides)) ==> found
                == Some(s[i])
        }),
    decreases s.len(),
{
    reveal(Seq::filter);
    let p = |c: Command<H>| is_context_command(c, kind);
    if s.len() > 0 {
        let front = s.drop_last();
        let c = s.last();
        assert forall|j: int| 0 <= j < front.len() implies #[trigger] front[j] == s[j] by {}
        lemma_search_own(name, kind, on_user, front, overrides, i);
        assert(is_context_command(c, kind) == acts_on(c, on_user));
        if p(c) {
            assert(front.filter(p).push(c) =~= front.filter(p) + seq![c]);
            lemma_search_context_both(name, front.filter(p), seq![c], overrides);
            reveal_with_fuel(search_context, 2);
            assert(seq![c][0] == c);
        }
        assert(s[s.len() - 1] == c);
        if forall|j: int|
            0 <= j < s.len() ==> !is_shown_as(#[trigger] s[j], name, on_user, overrides) {
            assert forall|j: int| 0 <= j < front.len() implies !is_shown_as(
                #[trigger] front[j],
                name,
                on_user,
                overrides,
            ) by {
                assert(!is_shown_as(s[j], name, on_user, overrides));
            }
        }
        if 0 <= i < s.len() && is_shown_as(s[i], name, on_user, overrides) && (forall|j: int|
            0 <= j < i ==> !is_shown_as(#[trigger] s[j], name, on_user, overrides)) {
            assert forall|j: int| 0 <= j < i && j < front.len() implies !is_shown_as(
                #[trigger] front[j],
                name,
                on_user,
                overrides,
            ) by {
                assert(!is_shown_as(s[j], name, on_user, overrides));
            }
        }
    }
}

proof fn lemma_search_nested<H>(
    name: Seq<char>,
    kind: ContextMenuType,
    s: Seq<Command<H>>,
    n: nat,
    overrides: Map<Seq<char>, CommandOverride>,
    i: int,
)
    requires
        0 <= i < n <= s.len(),
        forall|j: int|
            0 <= j < i ==> search_context(
                name,
                context_commands((#[trigger] s[j]).subcommands@, kind),
                0,
                overrides,
            ) is None,
    ensures
        ({
            let found = search_context(
                name,
                context_commands(s[i].subcommands@, kind),
                0,
                overrides,
            );
            let all = search_context(name, nested_context_commands(s, n, kind), 0, overrides);
            found is Some || n == i + 1 ==> all == found
        }),
    decreases n,
{
    let front = nested_context_commands(s, (n - 1) as nat, kind);
    let last = context_commands(s[n - 1].subcommands@, kind);
    lemma_search_context_both(name, front, last, overrides);
    if i < n - 1 {
        lemma_search_nested(name, kind, s, (n - 1) as nat, overrides, i);
    } else if i > 0 {
        assert(search_context(
            name,
            context_commands(s[i - 1].subcommands@, kind),
            0,
            overrides,
        ) is None);
        lemma_search_nested(name, kind, s, (n - 1) as nat, overrides, i - 1);
    }
}

/// Of several commands that are shown under the name in the context menu, the first on the top level
/// is found. If there is none on the top level, what is found is what is found below the first
/// command below which something is.
pub proof fn law_first_menu_command<H, V>(
    name: Seq<char>,
    on_user: bool,
    options: Seq<ResolvedOption<V>>,
    s: Seq<Command<H>>,
    overrides: Map<Seq<char>, CommandOverride>,
    i: int,
)
    requires
        0 <= i < s.len(),
    ensures
        ({
            let kind = if on_user {
                CommandType::User
            } else {
                CommandType::Message
            };
            let result = search(name, kind, options, s, overrides);
            let below = search(name, kind, options, s[i].subcommands@, overrides);
            &&& is_shown_as(s[i], name, on_user, overrides) && (forall|j: int|
                0 <= j < i ==> !is_shown_as(#[trigger] s[j], name, on_user, overrides))
                ==> result.found == Some((s[i], options))
            &&& (forall|j: int|
                0 <= j < s.len() ==> !is_shown_as(#[trigger] s[j], name, on_user, overrides))
                && below.found is Some && (forall|j: int|
                0 <= j < i ==> search(
                    name,
                    kind,
                    options,
                    (#[trigger] s[j]).subcommands@,
                    overrides,
                ).found is None) ==> result.found == below.found
        }),
{
    let kind = if on_user {
        CommandType::User
    } else {
        CommandType::Message
    };
    let menu = if on_user {
        ContextMenuType::User
    } else {
        ContextMenuType::Message
    };
    let own = s.filter(|c: Command<H>| is_context_command(c, menu));
    let nested = nested_context_commands(s, s.len(), menu);
    let below = search(name, kind, options, s[i].subcommands@, overrides);
    assert(context_commands(s, menu) == own + nested);
    lemma_search_context_both(name, own, nested, overrides);
    lemma_search_own(name, menu, on_user, s, overrides, i);
    if below.found is Some && (forall|j: int|
        0 <= j < i ==> search(
            name,
            kind,
            options,
            (#[trigger] s[j]).subcommands@,
            overrides,
        ).found is None) {
        assert forall|j: int| 0 <= j < i implies search_context(
            name,
            context_commands((#[trigger] s[j]).subcommands@, menu),
            0,
            overrides,
        ) is None by {
            assert(search(name, kind, options, s[j].subcommands@, overrides).found is None);
        }
        lemma_search_nested(name, menu, s, s.len(), overrides, i);
    }
}

} // verus!

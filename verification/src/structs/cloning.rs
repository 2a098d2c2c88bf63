//! Copies of commands, and commands without any content.

use crate::discord::option_clone;
use crate::structs::command::{Command, CommandParameter, CommandParameterChoice};
use crate::structs::command_storage::CommandStorage;
use vstd::prelude::*;

verus! {

/// The content of an optional list.
pub open spec fn opt_list<T>(v: Option<Vec<T>>) -> Option<Seq<T>> {
    match v {
        Some(v) => Some(v@),
        None => None,
    }
}

/// Whether the two choices have the same content.
pub open spec fn same_choice(a: CommandParameterChoice, b: CommandParameterChoice) -> bool {
    a.name == b.name && a.localizations@ == b.localizations@
}

/// Whether the two parameters have the same content.
pub open spec fn same_parameter<H>(a: CommandParameter<H>, b: CommandParameter<H>) -> bool {
    &&& a.name == b.name
    &&& a.name_localizations@ == b.name_localizations@
    &&& a.description == b.description
    &&& a.description_localizations@ == b.description_localizations@
    &&& a.choices@.len() == b.choices@.len()
    &&& forall|i: int|
        #![trigger a.choices@[i]]
        #![trigger b.choices@[i]]
        0 <= i < a.choices@.len() ==> same_choice(a.choices@[i], b.choices@[i])
    &&& a.autocomplete_callback == b.autocomplete_callback
    &&& a.slash_option == b.slash_option
}

/// Whether the two commands have the same content, their subcommands included.
pub open spec fn same_command<H>(a: Command<H>, b: Command<H>) -> bool
    decreases a, 0nat,
{
    &&& a.prefix_action == b.prefix_action
    &&& a.slash_action == b.slash_action
    &&& a.context_menu_action == b.context_menu_action
    &&& a.subcommands@.len() == b.subcommands@.len()
    &&& same_commands(a.subcommands@, b.subcommands@, a.subcommands@.len())
    &&& a.subcommand_required == b.subcommand_required
    &&& a.name == b.name
    &&& a.name_localizations@ == b.name_localizations@
    &&& a.qualified_name == b.qualified_name
    &&& a.identifying_name == b.identifying_name
    &&& a.source_code_name == b.source_code_name
    &&& a.category == b.category
    &&& a.hide_in_help == b.hide_in_help
    &&& a.description == b.description
    &&& a.description_localizations@ == b.description_localizations@
    &&& a.help_text == b.help_text
    &&& a.manual_cooldowns == b.manual_cooldowns
    &&& a.cooldowns == b.cooldowns
    &&& a.cooldown_config == b.cooldown_config
    &&& a.reuse_response == b.reuse_response
    &&& a.default_member_permissions == b.default_member_permissions
    &&& a.required_permissions == b.required_permissions
    &&& a.required_bot_permissions == b.required_bot_permissions
    &&& a.owners_only == b.owners_only
    &&& a.guild_only == b.guild_only
    &&& a.dm_only == b.dm_only
    &&& a.nsfw_only == b.nsfw_only
    &&& a.on_error == b.on_error
    &&& a.checks@ == b.checks@
    &&& a.parameters@.len() == b.parameters@.len()
    &&& forall|i: int|
        #![trigger a.parameters@[i]]
        #![trigger b.parameters@[i]]
        0 <= i < a.parameters@.len() ==> same_parameter(a.parameters@[i], b.parameters@[i])
    &&& a.custom_data == b.custom_data
    &&& a.command_id == b.command_id
    &&& a.aliases@ == b.aliases@
    &&& a.invoke_on_edit == b.invoke_on_edit
    &&& a.track_deletion == b.track_deletion
    &&& a.broadcast_typing == b.broadcast_typing
    &&& a.context_menu_name == b.context_menu_name
    &&& a.ephemeral == b.ephemeral
    &&& opt_list(a.install_context) == opt_list(b.install_context)
    &&& opt_list(a.interaction_context) == opt_list(b.interaction_context)
}

/// Whether the first `n` commands of `s` and of `t` have the same content.
pub open spec fn same_commands<H>(s: Seq<Command<H>>, t: Seq<Command<H>>, n: nat) -> bool
    decreases s, n,
{
    n == 0 || n > s.len() || (same_commands(s, t, (n - 1) as nat) && same_command(
        s[n - 1],
        t[n - 1],
    ))
}

proof fn lemma_same_commands_prefix<H>(
    s: Seq<Command<H>>,
    t: Seq<Command<H>>,
    u: Seq<Command<H>>,
    n: nat,
)
    requires
        same_commands(s, t, n),
        forall|i: int| 0 <= i < n ==> t[i] == u[i],
    ensures
        same_commands(s, u, n),
    decreases n,
{
    if 0 < n <= s.len() {
        lemma_same_commands_prefix(s, t, u, (n - 1) as nat);
    }
}

pub(crate) fn clone_list<T: Copy>(v: &Vec<T>) -> (r: Vec<T>)
    ensures
        r@ == v@,
{
    let mut r: Vec<T> = Vec::new();
    let mut i: usize = 0;
    while i < v.len()
        invariant
            i <= v@.len(),
            r@ == v@.take(i as int),
        decreases v@.len() - i,
    {
        r.push(v[i]);
        i = i + 1;
    }
    r
}

fn clone_opt_list<T: Copy>(v: &Option<Vec<T>>) -> (r: Option<Vec<T>>)
    ensures
        opt_list(r) == opt_list(*v),
{
    match v {
        Some(v) => Some(clone_list(v)),
        None => None,
    }
}

fn clone_texts(v: &Vec<String>) -> (r: Vec<String>)
    ensures
        r@ == v@,
{
    let mut r: Vec<String> = Vec::new();
    let mut i: usize = 0;
    while i < v.len()
        invariant
            i <= v@.len(),
            r@ == v@.take(i as int),
        decreases v@.len() - i,
    {
        r.push(v[i].clone());
        i = i + 1;
    }
    r
}

fn clone_localizations(v: &Vec<(String, String)>) -> (r: Vec<(String, String)>)
    ensures
        r@ == v@,
{
    let mut r: Vec<(String, String)> = Vec::new();
    let mut i: usize = 0;
    while i < v.len()
        invariant
            i <= v@.len(),
            r@ == v@.take(i as int),
        decreases v@.len() - i,
    {
        r.push((v[i].0.clone(), v[i].1.clone()));
        i = i + 1;
    }
    r
}

fn clone_opt_text(s: &Option<String>) -> (r: Option<String>)
    ensures
        r == *s,
{
    match s {
        Some(s) => Some(s.clone()),
        None => None,
    }
}

impl Clone for CommandParameterChoice {
    fn clone(&self) -> (r: Self)
        ensures
            same_choice(*self, r),
    {
        CommandParameterChoice {
            name: self.name.clone(),
            localizations: clone_localizations(&self.localizations),
        }
    }
}

impl<H: Copy> Clone for CommandParameter<H> {
    fn clone(&self) -> (r: Self)
        ensures
            same_parameter(*self, r),
    {
        let mut choices: Vec<CommandParameterChoice> = Vec::new();
        let mut i: usize = 0;
        while i < self.choices.len()
            invariant
                i <= self.choices@.len(),
                choices@.len() == i,
                forall|j: int|
                    0 <= j < i ==> same_choice(self.choices@[j], #[trigger] choices@[j]),
            decreases self.choices@.len() - i,
        {
            choices.push(self.choices[i].clone());
            i = i + 1;
        }
        CommandParameter {
            name: self.name.clone(),
            name_localizations: clone_localizations(&self.name_localizations),
            description: clone_opt_text(&self.description),
            description_localizations: clone_localizations(&self.description_localizations),
            choices,
            autocomplete_callback: self.autocomplete_callback,
            slash_option: match &self.slash_option {
                Some(option) => Some(option_clone(option)),
                None => None,
            },
        }
    }
}

fn clone_parameters<H: Copy>(v: &Vec<CommandParameter<H>>) -> (r: Vec<CommandParameter<H>>)
    ensures
        r@.len() == v@.len(),
        forall|i: int|
            #![trigger v@[i]]
            #![trigger r@[i]]
            0 <= i < v@.len() ==> same_parameter(v@[i], r@[i]),
{
    let mut r: Vec<CommandParameter<H>> = Vec::new();
    let mut i: usize = 0;
    while i < v.len()
        invariant
            i <= v@.len(),
            r@.len() == i,
            forall|j: int| 0 <= j < i ==> same_parameter(v@[j], #[trigger] r@[j]),
        decreases v@.len() - i,
    {
        r.push(v[i].clone());
        i = i + 1;
    }
    r
}

fn clone_command<H: Copy>(c: &Command<H>) -> (r: Command<H>)
    ensures
        same_command(*c, r),
    decreases *c, 0nat,
{
    Command {
        prefix_action: c.prefix_action,
        slash_action: c.slash_action,
        context_menu_action: c.context_menu_action,
        subcommands: clone_storage(&c.subcommands),
        subcommand_required: c.subcommand_required,
        name: c.name.clone(),
        name_localizations: clone_localizations(&c.name_localizations),
        qualified_name: c.qualified_name.clone(),
        identifying_name: c.identifying_name.clone(),
        source_code_name: c.source_code_name.clone(),
        category: clone_opt_text(&c.category),
        hide_in_help: c.hide_in_help,
        description: clone_opt_text(&c.description),
        description_localizations: clone_localizations(&c.description_localizations),
        help_text: clone_opt_text(&c.help_text),
        manual_cooldowns: c.manual_cooldowns,
        cooldowns: c.cooldowns,
        cooldown_config: c.cooldown_config,
        reuse_response: c.reuse_response,
        default_member_permissions: c.default_member_permissions,
        required_permissions: c.required_permissions,
        required_bot_permissions: c.required_bot_permissions,
        owners_only: c.owners_only,
        guild_only: c.guild_only,
        dm_only: c.dm_only,
        nsfw_only: c.nsfw_only,
        on_error: c.on_error,
        checks: clone_list(&c.checks),
        parameters: clone_parameters(&c.parameters),
        custom_data: c.custom_data,
        command_id: clone_opt_text(&c.command_id),
        aliases: clone_texts(&c.aliases),
        invoke_on_edit: c.invoke_on_edit,
        track_deletion: c.track_deletion,
        broadcast_typing: c.broadcast_typing,
        context_menu_name: clone_opt_text(&c.context_menu_name),
        ephemeral: c.ephemeral,
        install_context: clone_opt_list(&c.install_context),
        interaction_context: clone_opt_list(&c.interaction_context),
    }
}

fn clone_storage<H: Copy>(s: &CommandStorage<H>) -> (r: CommandStorage<H>)
    ensures
        r@.len() == s@.len(),
        same_commands(s@, r@, s@.len()),
    decreases *s, 0nat,
{
    let mut r: Vec<Command<H>> = Vec::new();
    let mut i: usize = 0;
    while i < s.0.len()
        invariant
            i <= s.0@.len(),
            r@.len() == i,
            same_commands(s.0@, r@, i as nat),
        decreases s.0@.len() - i,
    {
        let ghost before = r@;
        r.push(clone_command(&s.0[i]));
        proof {
            lemma_same_commands_prefix(s.0@, before, r@, i as nat);
        }
        i = i + 1;
    }
    CommandStorage(r)
}

impl<H: Copy> Clone for Command<H> {
    fn clone(&self) -> (r: Self)
        ensures
            same_command(*self, r),
    {
        clone_command(self)
    }
}

impl<H: Copy> Clone for CommandStorage<H> {
    fn clone(&self) -> (r: Self)
        ensures
            r@.len() == self@.len(),
            same_commands(self@, r@, self@.len()),
    {
        clone_storage(self)
    }
}

/// `std::ptr::eq`: whether the two references point to the same place. A command takes up memory,
/// so if they do, they point to the same command; equal commands in two places are not the same.
/// Nothing is said of when the places are the same: that depends on where the commands lie in
/// memory.
#[verifier::external_body]
fn is_same_place<H>(a: &Command<H>, b: &Command<H>) -> (r: bool)
    ensures
        r ==> *a == *b,
{
    std::ptr::eq(a, b)
}

/// Whether `r` is the answer to whether `a` and `b` are the same command in the same place.
pub closed spec fn tells_places_apart<H>(a: &Command<H>, b: &Command<H>, r: bool) -> bool {
    call_ensures(is_same_place::<H>, (a, b), r)
}

impl<H> vstd::std_specs::cmp::PartialEqSpecImpl for Command<H> {
    open spec fn obeys_eq_spec() -> bool {
        false
    }

    open spec fn eq_spec(&self, other: &Self) -> bool {
        arbitrary()
    }
}

/// A command equals itself only, not its copies.
impl<H> PartialEq for Command<H> {
    fn eq(&self, other: &Self) -> (r: bool)
        ensures
            tells_places_apart(self, other, r),
            r ==> *self == *other,
    {
        is_same_place(self, other)
    }
}

impl<H> Eq for Command<H> {

}

impl<H> Default for Command<H> {
    fn default() -> (r: Self)
        ensures
            r.prefix_action is None,
            r.slash_action is None,
            r.context_menu_action is None,
            r.subcommands@.len() == 0,
            !r.subcommand_required,
            r.name@.len() == 0,
            r.name_localizations@.len() == 0,
            r.qualified_name@.len() == 0,
            r.identifying_name@.len() == 0,
            r.source_code_name@.len() == 0,
            r.category is None,
            !r.hide_in_help,
            r.description is None,
            r.description_localizations@.len() == 0,
            r.help_text is None,
            r.manual_cooldowns is None,
            r.cooldowns is None,
            r.cooldown_config is None,
            !r.reuse_response,
            r.default_member_permissions == 0,
            r.required_permissions == 0,
            r.required_bot_permissions == 0,
            !r.owners_only,
            !r.guild_only,
            !r.dm_only,
            !r.nsfw_only,
            r.on_error is None,
            r.checks@.len() == 0,
            r.parameters@.len() == 0,
            r.custom_data is None,
            r.command_id is None,
            r.aliases@.len() == 0,
            !r.invoke_on_edit,
            !r.track_deletion,
            !r.broadcast_typing,
            r.context_menu_name is None,
            !r.ephemeral,
            r.install_context is None,
            r.interaction_context is None,
    {
        Command {
            prefix_action: None,
            slash_action: None,
            context_menu_action: None,
            subcommands: CommandStorage(Vec::new()),
            subcommand_required: false,
            name: String::new(),
            name_localizations: Vec::new(),
            qualified_name: String::new(),
            identifying_name: String::new(),
            source_code_name: String::new(),
            category: None,
            hide_in_help: false,
            description: None,
            description_localizations: Vec::new(),
            help_text: None,
            manual_cooldowns: None,
            cooldowns: None,
            cooldown_config: None,
            reuse_response: false,
            default_member_permissions: 0,
            required_permissions: 0,
            required_bot_permissions: 0,
            owners_only: false,
            guild_only: false,
            dm_only: false,
            nsfw_only: false,
            on_error: None,
            checks: Vec::new(),
            parameters: Vec::new(),
            custom_data: None,
            command_id: None,
            aliases: Vec::new(),
            invoke_on_edit: false,
            track_deletion: false,
            broadcast_typing: false,
            context_menu_name: None,
            ephemeral: false,
            install_context: None,
            interaction_context: None,
        }
    }
}

} // verus!

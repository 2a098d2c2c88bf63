//! The handling of one event of the client.
//!
//! It alternates decisions and work that is done elsewhere: [`event_step`] takes the step that was
//! reached and the reply to its task, and gives the next step and its task.

use vstd::prelude::*;

verus! {

/// What the dispatch reads of an event.
#[derive(Debug, Clone, Copy)]
pub enum EventKind {
    /// A message was sent, in this guild if it was sent in one.
    Message {
        /// The guild that the message was sent in.
        guild_id: Option<u64>,
    },
    /// A message was edited.
    MessageUpdate {
        /// The guild that the message was sent in.
        guild_id: Option<u64>,
    },
    /// A message was deleted.
    MessageDelete {
        /// The deleted message.
        deleted_message_id: u64,
    },
    /// An application command was invoked.
    Command {
        /// The guild that it was invoked in.
        guild_id: Option<u64>,
    },
    /// Values are asked for, for an option of a slash command.
    Autocomplete {
        /// The guild that they are asked for in.
        guild_id: Option<u64>,
    },
    /// The dispatch has nothing to do with any other event.
    Other,
}

/// How edits of messages are dealt with.
#[derive(Debug, Clone, Copy)]
pub struct EditOptions {
    /// Whether invocations by messages are tracked, so that edits and deletions have an effect.
    pub tracks_edits: bool,
    /// Whether an edit of a message that was not responded to yet is ignored.
    pub ignore_edits_if_not_yet_responded: bool,
}

/// Why a message is dispatched.
#[derive(Debug, Clone, Copy)]
pub enum MessageDispatchTrigger {
    /// The message was sent.
    MessageCreate,
    /// The message was edited, and was a valid invocation before.
    MessageEdit,
    /// The message was edited, and was not a valid invocation before.
    MessageEditFromInvalid,
}

/// How far the handling of an event has got.
#[derive(Debug, Clone, Copy)]
pub enum EventStep {
    /// Nothing was done yet.
    Received(EventKind),
    /// The edit is being looked up among the tracked invocations.
    TrackingEdit {
        /// The guild that the message was sent in.
        guild_id: Option<u64>,
    },
    /// The deletion is being looked up among the tracked invocations.
    TrackingDeletion,
    /// The event is being dispatched onto a command.
    Dispatching,
    /// The error of the dispatch is being handled.
    HandlingError,
    /// The bot's response is being deleted.
    DeletingResponse,
    /// The user's event handler is running.
    EventHandling,
    /// The error of the user's event handler is being reported.
    ReportingError,
    /// There is nothing left to do.
    Finished,
}

/// What came of the task of a step.
#[derive(Debug, Clone, Copy)]
pub enum EventReply {
    /// It is done.
    Done,
    /// It failed.
    Failed,
    /// The edited message shall be dispatched. Whether it was a valid invocation before is the
    /// value.
    Edited(bool),
    /// There is nothing to do about the edit or the deletion.
    Nothing,
    /// There is a response of the bot to the deleted message.
    Response,
}

/// What is to be done next for an event.
#[derive(Debug, Clone, Copy)]
pub enum EventTask {
    /// Look up the edited message among the tracked invocations.
    ProcessMessageUpdate {
        /// Whether an edit of a message that was not responded to yet is ignored.
        ignore_edits_if_not_yet_responded: bool,
    },
    /// Look up the deleted message among the tracked invocations.
    ProcessMessageDelete {
        /// The deleted message.
        deleted_message_id: u64,
    },
    /// Dispatch the message onto prefix commands.
    DispatchMessage {
        /// The guild whose commands are searched besides the global ones.
        guild_id: Option<u64>,
        /// Why the message is dispatched.
        trigger: MessageDispatchTrigger,
    },
    /// Dispatch the interaction, i.e. run the command.
    DispatchInteraction {
        /// The guild whose commands are searched besides the global ones.
        guild_id: Option<u64>,
    },
    /// Dispatch the interaction, i.e. propose values.
    DispatchAutocomplete {
        /// The guild whose commands are searched besides the global ones.
        guild_id: Option<u64>,
    },
    /// Handle the error of the dispatch.
    HandleError,
    /// Delete the bot's response. That it fails is worth a warning only.
    DeleteResponse,
    /// Run the user's event handler.
    RunEventHandler,
    /// Report the error of the user's event handler.
    ReportError,
    /// Stop.
    Finish,
}

/// The step that runs the user's event handler.
pub open spec fn handler_step() -> (EventStep, EventTask) {
    (EventStep::EventHandling, EventTask::RunEventHandler)
}

/// The first task for an event.
pub open spec fn first_event_step(kind: EventKind, options: EditOptions) -> (EventStep, EventTask) {
    match kind {
        EventKind::Message { guild_id } => (
            EventStep::Dispatching,
            EventTask::DispatchMessage { guild_id, trigger: MessageDispatchTrigger::MessageCreate },
        ),
        EventKind::MessageUpdate { guild_id } => if options.tracks_edits {
            (
                EventStep::TrackingEdit { guild_id },
                EventTask::ProcessMessageUpdate {
                    ignore_edits_if_not_yet_responded: options.ignore_edits_if_not_yet_responded,
                },
            )
        } else {
            handler_step()
        },
        EventKind::MessageDelete { deleted_message_id } => if options.tracks_edits {
            (
                EventStep::TrackingDeletion,
                EventTask::ProcessMessageDelete { deleted_message_id },
            )
        } else {
            handler_step()
        },
        EventKind::Command { guild_id } => (
            EventStep::Dispatching,
            EventTask::DispatchInteraction { guild_id },
        ),
        EventKind::Autocomplete { guild_id } => (
            EventStep::Dispatching,
            EventTask::DispatchAutocomplete { guild_id },
        ),
        EventKind::Other => handler_step(),
    }
}

/// The step and the task that follow `step` after the reply to its task.
pub open spec fn next_event_step(
    step: EventStep,
    reply: EventReply,
    options: EditOptions,
) -> (EventStep, EventTask) {
    match step {
        EventStep::Received(kind) => first_event_step(kind, options),
        EventStep::TrackingEdit { guild_id } => match reply {
            EventReply::Edited(previously_tracked) => (
                EventStep::Dispatching,
                EventTask::DispatchMessage {
                    guild_id,
                    trigger: if previously_tracked {
                        MessageDispatchTrigger::MessageEdit
                    } else {
                        MessageDispatchTrigger::MessageEditFromInvalid
                    },
                },
            ),
            _ => handler_step(),
        },
        EventStep::TrackingDeletion => if reply is Response {
            (EventStep::DeletingResponse, EventTask::DeleteResponse)
        } else {
            handler_step()
        },
        EventStep::Dispatching => if reply is Failed {
            (EventStep::HandlingError, EventTask::HandleError)
        } else {
            handler_step()
        },
        EventStep::HandlingError => handler_step(),
        EventStep::DeletingResponse => handler_step(),
        EventStep::EventHandling => if reply is Failed {
            (EventStep::ReportingError, EventTask::ReportError)
        } else {
            (EventStep::Finished, EventTask::Finish)
        },
        _ => (EventStep::Finished, EventTask::Finish),
    }
}

/// Decides how the handling of an event goes on after `step`, given the reply to its task.
/// To the first step, [`EventStep::Received`], any reply will do.
pub fn event_step(step: EventStep, reply: EventReply, options: EditOptions) -> (r: (
    EventStep,
    EventTask,
))
    ensures
        r == next_event_step(step, reply, options),
{
    let handler = (EventStep::EventHandling, EventTask::RunEventHandler);
    match step {
        EventStep::Received(kind) => match kind {
            EventKind::Message { guild_id } => {
                let trigger = MessageDispatchTrigger::MessageCreate;
                (EventStep::Dispatching, EventTask::DispatchMessage { guild_id, trigger })
            },
            EventKind::MessageUpdate { guild_id } => if options.tracks_edits {
                let task = EventTask::ProcessMessageUpdate {
                    ignore_edits_if_not_yet_responded: options.ignore_edits_if_not_yet_responded,
                };
                (EventStep::TrackingEdit { guild_id }, task)
            } else {
                handler
            },
            EventKind::MessageDelete { deleted_message_id } => if options.tracks_edits {
                let task = EventTask::ProcessMessageDelete { deleted_message_id };
                (EventStep::TrackingDeletion, task)
            } else {
                handler
            },
            EventKind::Command { guild_id } => {
                (EventStep::Dispatching, EventTask::DispatchInteraction { guild_id })
            },
            EventKind::Autocomplete { guild_id } => {
                (EventStep::Dispatching, EventTask::DispatchAutocomplete { guild_id })
            },
            EventKind::Other => handler,
        },
        EventStep::TrackingEdit { guild_id } => match reply {
            EventReply::Edited(previously_tracked) => {
                let trigger = if previously_tracked {
                    MessageDispatchTrigger::MessageEdit
                } else {
                    MessageDispatchTrigger::MessageEditFromInvalid
                };
                (EventStep::Dispatching, EventTask::DispatchMessage { guild_id, trigger })
            },
            _ => handler,
        },
        EventStep::TrackingDeletion => match reply {
            EventReply::Response => (EventStep::DeletingResponse, EventTask::DeleteResponse),
            _ => handler,
        },
        EventStep::Dispatching => match reply {
            EventReply::Failed => (EventStep::HandlingError, EventTask::HandleError),
            _ => handler,
        },
        EventStep::HandlingError => handler,
        EventStep::DeletingResponse => handler,
        // The event handler runs after the framework's own handling of the event
        EventStep::EventHandling => match reply {
            EventReply::Failed => (EventStep::ReportingError, EventTask::ReportError),
            _ => (EventStep::Finished, EventTask::Finish),
        },
        _ => (EventStep::Finished, EventTask::Finish),
    }
}

/// How many steps can still follow.
pub open spec fn event_steps_left(step: EventStep) -> nat {
    match step {
        EventStep::Received(_) => 6,
        EventStep::TrackingEdit { .. } => 5,
        EventStep::TrackingDeletion => 5,
        EventStep::Dispatching => 4,
        EventStep::HandlingError => 3,
        EventStep::DeletingResponse => 3,
        EventStep::EventHandling => 2,
        EventStep::ReportingError => 1,
        EventStep::Finished => 0,
    }
}

/// All the tasks that follow `step`, whose task got `reply`, if each later one gets the reply that
/// `replies` gives.
pub open spec fn event_tasks(
    step: EventStep,
    reply: EventReply,
    replies: spec_fn(EventTask) -> EventReply,
    options: EditOptions,
) -> Seq<EventTask>
    decreases event_steps_left(step),
{
    if step is Finished {
        Seq::empty()
    } else {
        let next = next_event_step(step, reply, options);
        seq![next.1] + event_tasks(next.0, replies(next.1), replies, options)
    }
}

/// The number of times that the user's event handler is run among the tasks.
pub open spec fn handler_runs(tasks: Seq<EventTask>) -> nat
    decreases tasks.len(),
{
    if tasks.len() == 0 {
        0
    } else {
        (if tasks[0] is RunEventHandler {
            1nat
        } else {
            0nat
        }) + handler_runs(tasks.skip(1))
    }
}

/// The last tasks of every event: the user's event handler and, if it failed, the report of its
/// error.
pub open spec fn last_event_tasks(replies: spec_fn(EventTask) -> EventReply) -> Seq<EventTask> {
    if replies(EventTask::RunEventHandler) is Failed {
        seq![EventTask::RunEventHandler, EventTask::ReportError, EventTask::Finish]
    } else {
        seq![EventTask::RunEventHandler, EventTask::Finish]
    }
}

proof fn lemma_last_event_tasks(replies: spec_fn(EventTask) -> EventReply, options: EditOptions)
    ensures
        ({
            let handler = handler_step();
            seq![handler.1] + event_tasks(handler.0, replies(handler.1), replies, options)
                == last_event_tasks(replies)
        }),
        handler_runs(last_event_tasks(replies)) == 1,
{
    reveal_with_fuel(event_tasks, 4);
    reveal_with_fuel(handler_runs, 4);
}

proof fn lemma_handler_from(
    step: EventStep,
    reply: EventReply,
    replies: spec_fn(EventTask) -> EventReply,
    options: EditOptions,
)
    requires
        event_steps_left(step) > 2,
    ensures
        handler_runs(event_tasks(step, reply, replies, options)) == 1,
        last_event_tasks(replies).is_suffix_of(event_tasks(step, reply, replies, options)),
    decreases event_steps_left(step),
{
    let next = next_event_step(step, reply, options);
    let rest = event_tasks(next.0, replies(next.1), replies, options);
    let tasks = seq![next.1] + rest;
    assert(tasks.skip(1) =~= rest);
    if next.0 is EventHandling {
        lemma_last_event_tasks(replies, options);
        assert(tasks.skip(0) =~= tasks);
    } else {
        lemma_handler_from(next.0, replies(next.1), replies, options);
    }
}

/// For every event, whatever the replies, the user's event handler is run exactly once, and after
/// it nothing else is done but reporting its error if it failed.
pub proof fn law_event_handler_runs_once_and_last(
    kind: EventKind,
    reply: EventReply,
    replies: spec_fn(EventTask) -> EventReply,
    options: EditOptions,
)
    ensures
        ({
            let tasks = event_tasks(EventStep::Received(kind), reply, replies, options);
            handler_runs(tasks) == 1 && last_event_tasks(replies).is_suffix_of(tasks)
        }),
{
    lemma_handler_from(EventStep::Received(kind), reply, replies, options);
}

/// A message that is edited or deleted has no effect if invocations are not tracked: only the
/// user's event handler is run.
pub proof fn law_untracked_edits_are_left_alone(
    kind: EventKind,
    reply: EventReply,
    replies: spec_fn(EventTask) -> EventReply,
    options: EditOptions,
)
    requires
        kind is MessageUpdate || kind is MessageDelete,
        !options.tracks_edits,
    ensures
        event_tasks(EventStep::Received(kind), reply, replies, options) == last_event_tasks(
            replies,
        ),
{
    lemma_last_event_tasks(replies, options);
}

/// A message, an invoked command and an autocompletion are dispatched first; the error of a
/// dispatch that failed is handled right after it.
pub proof fn law_failed_dispatch_is_handled(
    kind: EventKind,
    reply: EventReply,
    replies: spec_fn(EventTask) -> EventReply,
    options: EditOptions,
)
    requires
        kind is Message || kind is Command || kind is Autocomplete,
    ensures
        ({
            let dispatch = first_event_step(kind, options).1;
            let handling = if replies(dispatch) is Failed {
                seq![dispatch, EventTask::HandleError]
            } else {
                seq![dispatch]
            };
            event_tasks(EventStep::Received(kind), reply, replies, options) == handling
                + last_event_tasks(replies)
        }),
{
    let dispatch = first_event_step(kind, options).1;
    let after = event_tasks(EventStep::Dispatching, replies(dispatch), replies, options);
    lemma_last_event_tasks(replies, options);
    assert(event_tasks(EventStep::Received(kind), reply, replies, options) == seq![dispatch]
        + after);
    if replies(dispatch) is Failed {
        let error = EventTask::HandleError;
        assert(after == seq![error] + event_tasks(
            EventStep::HandlingError,
            replies(error),
            replies,
            options,
        ));
        assert(seq![dispatch] + (seq![error] + last_event_tasks(replies)) =~= seq![dispatch, error]
            + last_event_tasks(replies));
    }
}

} // verus!

//! Laws on the handling of an event.

use crate::dispatch::event::{
    event_tasks, next_event_step, EditOptions, EventKind, EventReply, EventStep, EventTask,
    MessageDispatchTrigger,
};
use vstd::prelude::*;

verus! {

/// The first thing that is done for an event. A message, an invoked command and an autocompletion
/// are dispatched with the commands of the guild that they come from. An edit and a deletion are
/// looked up if invocations are tracked. For anything else only the user's event handler runs.
pub proof fn law_first_task(
    guild_id: Option<u64>,
    deleted_message_id: u64,
    reply: EventReply,
    options: EditOptions,
)
    ensures
        ({
            let first = |kind: EventKind|
                next_event_step(EventStep::Received(kind), reply, options).1;
            let edit = first(EventKind::MessageUpdate { guild_id });
            let deletion = first(EventKind::MessageDelete { deleted_message_id });
            &&& first(EventKind::Message { guild_id }) == (EventTask::DispatchMessage {
                guild_id,
                trigger: MessageDispatchTrigger::MessageCreate,
            })
            &&& first(EventKind::Command { guild_id }) == (EventTask::DispatchInteraction {
                guild_id,
            })
            &&& first(EventKind::Autocomplete { guild_id }) == (EventTask::DispatchAutocomplete {
                guild_id,
            })
            &&& options.tracks_edits ==> edit == (EventTask::ProcessMessageUpdate {
                ignore_edits_if_not_yet_responded: options.ignore_edits_if_not_yet_responded,
            })
            &&& options.tracks_edits ==> deletion == (EventTask::ProcessMessageDelete {
                deleted_message_id,
            })
            &&& !options.tracks_edits ==> edit is RunEventHandler && deletion is RunEventHandler
            &&& first(EventKind::Other) is RunEventHandler
        }),
{
}

/// All that is done for an edited message if invocations are tracked. It is dispatched if and only
/// if the look-up says so, with the commands of the guild that it is in, as an edit of a valid or of
/// an invalid invocation; the error of that dispatch is handled. Then the event handler runs, and
/// its error is reported.
pub proof fn law_tracked_edit(
    guild_id: Option<u64>,
    reply: EventReply,
    replies: spec_fn(EventTask) -> EventReply,
    options: EditOptions,
)
    requires
        options.tracks_edits,
    ensures
        ({
            let look_up = EventTask::ProcessMessageUpdate {
                ignore_edits_if_not_yet_responded: options.ignore_edits_if_not_yet_responded,
            };
            let trigger = if replies(look_up) == EventReply::Edited(true) {
                MessageDispatchTrigger::MessageEdit
            } else {
                MessageDispatchTrigger::MessageEditFromInvalid
            };
            let dispatch = EventTask::DispatchMessage { guild_id, trigger };
            let start = EventStep::Received(EventKind::MessageUpdate { guild_id });
            event_tasks(start, reply, replies, options) == seq![look_up] + (
            if replies(look_up) is Edited {
                seq![dispatch] + (if replies(dispatch) is Failed {
                    seq![EventTask::HandleError]
                } else {
                    Seq::empty()
                })
            } else {
                Seq::empty()
            }) + seq![EventTask::RunEventHandler] + (
            if replies(EventTask::RunEventHandler) is Failed {
                seq![EventTask::ReportError]
            } else {
                Seq::empty()
            }) + seq![EventTask::Finish]
        }),
{
    reveal_with_fuel(event_tasks, 7);
}

/// All that is done for a deleted message if invocations are tracked: the bot's response is deleted
/// if and only if there is one. Then the event handler runs, and its error is reported.
pub proof fn law_tracked_deletion(
    deleted_message_id: u64,
    reply: EventReply,
    replies: spec_fn(EventTask) -> EventReply,
    options: EditOptions,
)
    requires
        options.tracks_edits,
    ensures
        ({
            let look_up = EventTask::ProcessMessageDelete { deleted_message_id };
            let start = EventStep::Received(EventKind::MessageDelete { deleted_message_id });
            event_tasks(start, reply, replies, options) == seq![look_up] + (
            if replies(look_up) is Response {
                seq![EventTask::DeleteResponse]
            } else {
                Seq::empty()
            }) + seq![EventTask::RunEventHandler] + (
            if replies(EventTask::RunEventHandler) is Failed {
                seq![EventTask::ReportError]
            } else {
                Seq::empty()
            }) + seq![EventTask::Finish]
        }),
{
    reveal_with_fuel(event_tasks, 6);
}

/// All that is done for a message, an invoked command, an autocompletion and any event that the
/// dispatch has nothing to do with: the dispatch, the handling of its error, the event handler and
/// the report of its error.
pub proof fn law_dispatched_event(
    kind: EventKind,
    guild_id: Option<u64>,
    reply: EventReply,
    replies: spec_fn(EventTask) -> EventReply,
    options: EditOptions,
)
    requires
        kind == (EventKind::Message { guild_id }) || kind == (EventKind::Command { guild_id })
            || kind == (EventKind::Autocomplete { guild_id }) || kind == EventKind::Other,
    ensures
        ({
            let dispatch = match kind {
                EventKind::Message { .. } => EventTask::DispatchMessage {
                    guild_id,
                    trigger: MessageDispatchTrigger::MessageCreate,
                },
                EventKind::Command { .. } => EventTask::DispatchInteraction { guild_id },
                _ => EventTask::DispatchAutocomplete { guild_id },
            };
            event_tasks(EventStep::Received(kind), reply, replies, options) == (
            if kind is Other {
                Seq::empty()
            } else if replies(dispatch) is Failed {
                seq![dispatch, EventTask::HandleError]
            } else {
                seq![dispatch]
            }) + seq![EventTask::RunEventHandler] + (
            if replies(EventTask::RunEventHandler) is Failed {
                seq![EventTask::ReportError]
            } else {
                Seq::empty()
            }) + seq![EventTask::Finish]
        }),
{
    reveal_with_fuel(event_tasks, 6);
}

/// What is finished stays finished.
pub proof fn law_finished_events_stay_finished(reply: EventReply, options: EditOptions)
    ensures
        next_event_step(EventStep::Finished, reply, options) == (
            EventStep::Finished,
            EventTask::Finish,
        ),
{
}

} // verus!

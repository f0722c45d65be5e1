//! The normalized events the engine emits to its consumer, and their
//! mathematical model.

use vstd::prelude::*;

verus! {

/// One normalized event, scoped by the caller to a workspace. The engine
/// computes events; delivering them to a sink is the caller's work.
#[derive(Debug, PartialEq, Eq)]
pub enum EngineEvent {
    /// The session finished its handshake.
    Connected,
    /// A line of process output was not valid JSON.
    ParseError { raw: String, error: String },
    /// A line of diagnostic output, forwarded verbatim.
    StderrLine { message: String },
    /// A prompt began on a thread.
    TurnStarted { thread_id: String, turn_id: String },
    /// One incremental text fragment of the in-progress message.
    MessageDelta { thread_id: String, item_id: String, delta: String },
    /// The finished message, with its full accumulated text.
    MessageCompleted { thread_id: String, item_id: String, text: String },
    /// The turn that produced the finished message.
    TurnCompleted { thread_id: String, turn_id: String },
}

pub enum EventModel {
    Connected,
    ParseError { raw: Seq<char>, error: Seq<char> },
    StderrLine { message: Seq<char> },
    TurnStarted { thread_id: Seq<char>, turn_id: Seq<char> },
    MessageDelta { thread_id: Seq<char>, item_id: Seq<char>, delta: Seq<char> },
    MessageCompleted { thread_id: Seq<char>, item_id: Seq<char>, text: Seq<char> },
    TurnCompleted { thread_id: Seq<char>, turn_id: Seq<char> },
}

pub open spec fn event_model(e: EngineEvent) -> EventModel {
    match e {
        EngineEvent::Connected => EventModel::Connected,
        EngineEvent::ParseError { raw, error } => EventModel::ParseError {
            raw: raw@,
            error: error@,
        },
        EngineEvent::StderrLine { message } => EventModel::StderrLine { message: message@ },
        EngineEvent::TurnStarted { thread_id, turn_id } => EventModel::TurnStarted {
            thread_id: thread_id@,
            turn_id: turn_id@,
        },
        EngineEvent::MessageDelta { thread_id, item_id, delta } => EventModel::MessageDelta {
            thread_id: thread_id@,
            item_id: item_id@,
            delta: delta@,
        },
        EngineEvent::MessageCompleted { thread_id, item_id, text } => EventModel::MessageCompleted {
            thread_id: thread_id@,
            item_id: item_id@,
            text: text@,
        },
        EngineEvent::TurnCompleted { thread_id, turn_id } => EventModel::TurnCompleted {
            thread_id: thread_id@,
            turn_id: turn_id@,
        },
    }
}

pub open spec fn event_models(evs: Seq<EngineEvent>) -> Seq<EventModel> {
    evs.map_values(|e: EngineEvent| event_model(e))
}

} // verus!

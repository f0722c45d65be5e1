//! The protocol engine's state: the monotone request-identifier counter, the
//! pending-request slots, and the per-thread streaming-assembly state
//! machine, together with the routing of inbound output lines.

use vstd::prelude::*;
use crate::events::{EngineEvent, EventModel, event_model, event_models};
use crate::table::{
    distinct_keys, entry_map, lemma_distinct_push, lemma_distinct_remove, lemma_entry_map_contains,
    lemma_entry_map_index, lemma_entry_map_push, lemma_entry_map_remove, lemma_remove_absent,
};
use crate::text::all_ws;
use crate::text::is_blank;
use crate::wire::{LineRoute, line_route, parse_json_line, classify_value, Routed};

verus! {

#[verifier::external_type_specification]
#[verifier::external_body]
#[verifier::reject_recursive_types(T)]
pub struct ExOneshotSender<T>(tokio::sync::oneshot::Sender<T>);

/// The single-fire slot a caller waits on: the sending half of a tokio
/// oneshot channel carrying the matching response.
pub type ResponseSlot = tokio::sync::oneshot::Sender<serde_json::Value>;

/// Relies on tokio's `oneshot::Sender::send`: hands the response value to
/// the paired receiver, or discards it when the waiter has already gone.
/// Nothing is promised of the outcome: it depends on the receiver's state.
#[verifier::external_body]
fn deliver_to_slot(tx: ResponseSlot, v: serde_json::Value) {
    let _ = tx.send(v);
}

/// Relies on uuid's `Uuid::new_v4` and its hyphenated rendering: a freshly
/// drawn random identifier. Nothing is promised of the text: the value
/// depends on randomness.
#[verifier::external_body]
fn fresh_uuid_text() -> (r: String) {
    uuid::Uuid::new_v4().to_string()
}

/// The in-progress prompt of one thread: its turn identifier, the identifier
/// of the message being assembled, and the text accumulated so far.
pub struct PromptState {
    pub turn_id: String,
    pub item_id: String,
    pub text: String,
}

pub struct PromptModel {
    pub turn_id: Seq<char>,
    pub item_id: Seq<char>,
    pub text: Seq<char>,
}

impl PromptState {
    pub open spec fn model(self) -> PromptModel {
        PromptModel { turn_id: self.turn_id@, item_id: self.item_id@, text: self.text@ }
    }
}

/// Beginning a prompt: binds the thread to a fresh prompt record with empty
/// accumulated text.
pub open spec fn begin_t(
    m: Map<Seq<char>, PromptModel>,
    t: Seq<char>,
    turn: Seq<char>,
    item: Seq<char>,
) -> Map<Seq<char>, PromptModel> {
    m.insert(t, PromptModel { turn_id: turn, item_id: item, text: Seq::empty() })
}

/// Appending a delta: extends the thread's accumulated text, in arrival
/// order, leaving the identifiers alone.
pub open spec fn append_t(
    m: Map<Seq<char>, PromptModel>,
    t: Seq<char>,
    d: Seq<char>,
) -> Map<Seq<char>, PromptModel> {
    m.insert(
        t,
        PromptModel { turn_id: m[t].turn_id, item_id: m[t].item_id, text: m[t].text + d },
    )
}

/// The two completion events a finished prompt emits, in order: the full
/// message, then the turn.
pub open spec fn finish_events(t: Seq<char>, ps: PromptModel) -> Seq<EventModel> {
    seq![
        EventModel::MessageCompleted { thread_id: t, item_id: ps.item_id, text: ps.text },
        EventModel::TurnCompleted { thread_id: t, turn_id: ps.turn_id },
    ]
}

/// One live session's correlation and streaming state. The caller holds it
/// under a lock; every operation is a short, non-blocking step.
pub struct SessionCore {
    /// The next request identifier to hand out; starts at 1 and only grows.
    pub next_id: u64,
    /// The single-fire slots of the requests still awaiting a response,
    /// keyed by request identifier.
    pub pending: Vec<(u64, ResponseSlot)>,
    /// The in-progress prompt of each thread that has one.
    pub prompts: Vec<(String, PromptState)>,
}

impl SessionCore {
    /// The pending-request table as a map from identifier to slot.
    pub open spec fn pending_map(self) -> Map<u64, ResponseSlot> {
        entry_map(self.pending@)
    }

    pub open spec fn prompt_entries(self) -> Seq<(Seq<char>, PromptModel)> {
        self.prompts@.map_values(|p: (String, PromptState)| (p.0@, p.1.model()))
    }

    /// The streaming-assembly state as a map from thread identifier to its
    /// in-progress prompt.
    pub open spec fn prompts_map(self) -> Map<Seq<char>, PromptModel> {
        entry_map(self.prompt_entries())
    }

    /// Well-formedness: identifiers are allocated below the counter and at
    /// most one pending slot exists per identifier; at most one prompt
    /// record exists per thread.
    pub open spec fn wf(self) -> bool {
        &&& distinct_keys(self.pending@)
        &&& distinct_keys(self.prompt_entries())
        &&& self.next_id >= 1
        &&& forall|i: int|
            0 <= i < self.pending@.len() ==> (#[trigger] self.pending@[i]).0 < self.next_id
    }

    /// A fresh session: no pending requests, no prompts, identifiers from 1.
    pub fn new() -> (s: SessionCore)
        ensures
            s.wf(),
            s.next_id == 1,
            s.pending@.len() == 0,
            s.prompts@.len() == 0,
    {
        SessionCore { next_id: 1, pending: Vec::new(), prompts: Vec::new() }
    }

    fn find_pending(&self, id: u64) -> (r: Option<usize>)
        ensures
            r matches Some(i) ==> i < self.pending@.len() && self.pending@[i as int].0 == id,
            r is None ==> forall|i: int|
                0 <= i < self.pending@.len() ==> (#[trigger] self.pending@[i]).0 != id,
    {
        let mut i: usize = 0;
        while i < self.pending.len()
            invariant
                0 <= i <= self.pending@.len(),
                forall|j: int| 0 <= j < i ==> (#[trigger] self.pending@[j]).0 != id,
            decreases self.pending@.len() - i,
        {
            if self.pending[i].0 == id {
                return Some(i);
            }
            i = i + 1;
        }
        None
    }

    fn find_prompt(&self, thread_id: &str) -> (r: Option<usize>)
        ensures
            r matches Some(i) ==> i < self.prompts@.len() && self.prompts@[i as int].0@
                == thread_id@,
            r is None ==> forall|i: int|
                0 <= i < self.prompts@.len() ==> (#[trigger] self.prompts@[i]).0@ != thread_id@,
    {
        let mut i: usize = 0;
        while i < self.prompts.len()
            invariant
                0 <= i <= self.prompts@.len(),
                forall|j: int| 0 <= j < i ==> (#[trigger] self.prompts@[j]).0@ != thread_id@,
            decreases self.prompts@.len() - i,
        {
            if crate::text::str_eq(self.prompts[i].0.as_str(), thread_id) {
                return Some(i);
            }
            i = i + 1;
        }
        None
    }

    proof fn lemma_prompt_key_bridge(self)
        ensures
            forall|i: int|
                0 <= i < self.prompts@.len() ==> #[trigger] self.prompt_entries()[i] == (
                self.prompts@[i].0@,
                self.prompts@[i].1.model(),
                ),
    {
    }

    /// Allocates the next request identifier and parks the caller's slot
    /// under it. The identifier is fresh: it was never pending before, so a
    /// response naming it can reach no other caller.
    pub fn register_request(&mut self, tx: ResponseSlot) -> (id: u64)
        requires
            old(self).wf(),
            old(self).next_id < u64::MAX,
        ensures
            final(self).wf(),
            id == old(self).next_id,
            final(self).next_id == old(self).next_id + 1,
            !old(self).pending_map().contains_key(id),
            final(self).pending_map() == old(self).pending_map().insert(id, tx),
            final(self).prompts == old(self).prompts,
    {
        let id = self.next_id;
        self.next_id = self.next_id + 1;
        proof {
            lemma_entry_map_contains(self.pending@, id);
            lemma_distinct_push(self.pending@, (id, tx));
        }
        self.pending.push((id, tx));
        proof {
            lemma_entry_map_push(old(self).pending@, (id, tx));
            assert(self.pending@ =~= old(self).pending@.push((id, tx)));
        }
        id
    }

    /// Removes and returns the slot pending under the identifier, if one is:
    /// exactly the slot that was registered under it. A stranger identifier
    /// changes nothing.
    pub fn take_pending(&mut self, id: u64) -> (r: Option<ResponseSlot>)
        requires
            old(self).wf(),
        ensures
            final(self).wf(),
            final(self).next_id == old(self).next_id,
            final(self).prompts == old(self).prompts,
            final(self).pending_map() == old(self).pending_map().remove(id),
            old(self).pending_map().contains_key(id) ==> r == Some(old(self).pending_map()[id]),
            !old(self).pending_map().contains_key(id) ==> r is None && *final(self) == *old(self),
    {
        match self.find_pending(id) {
            Some(i) => {
                proof {
                    lemma_entry_map_index(self.pending@, i as int);
                    lemma_entry_map_remove(self.pending@, i as int);
                    lemma_distinct_remove(self.pending@, i as int);
                    lemma_entry_map_contains(self.pending@, id);
                }
                let entry = self.pending.remove(i);
                Some(entry.1)
            },
            None => {
                proof {
                    lemma_entry_map_contains(self.pending@, id);
                    lemma_remove_absent(self.pending_map(), id);
                }
                None
            },
        }
    }

    /// Empties the pending table, handing back every parked slot, in
    /// registration order. Dropping the returned slots is how teardown
    /// resolves every outstanding request as canceled.
    pub fn drain_pending(&mut self) -> (slots: Vec<ResponseSlot>)
        requires
            old(self).wf(),
        ensures
            final(self).wf(),
            final(self).next_id == old(self).next_id,
            final(self).prompts == old(self).prompts,
            final(self).pending@.len() == 0,
            slots@ == old(self).pending@.map_values(|p: (u64, ResponseSlot)| p.1),
    {
        let mut slots: Vec<ResponseSlot> = Vec::new();
        while self.pending.len() > 0
            invariant
                self.next_id == old(self).next_id,
                self.prompts == old(self).prompts,
                slots@.len() + self.pending@.len() == old(self).pending@.len(),
                forall|j: int|
                    0 <= j < slots@.len() ==> slots@[j] == (#[trigger] old(self).pending@[j]).1,
                self.pending@ =~= old(self).pending@.skip(slots@.len() as int),
            decreases self.pending@.len(),
        {
            let entry = self.pending.remove(0);
            slots.push(entry.1);
            proof {
                assert(self.pending@ =~= old(self).pending@.skip(slots@.len() as int));
            }
        }
        proof {
            assert(slots@ =~= old(self).pending@.map_values(|p: (u64, ResponseSlot)| p.1));
        }
        slots
    }

    /// Begins a prompt on a thread. If the thread already has one, this is a
    /// usage error and the existing state is left untouched; otherwise a
    /// fresh turn identifier and message identifier are drawn, the thread's
    /// accumulated text starts empty, and the turn-started event is handed
    /// back with the turn identifier.
    pub fn begin_prompt(&mut self, thread_id: &str) -> (r: Result<(String, EngineEvent), String>)
        requires
            old(self).wf(),
        ensures
            final(self).wf(),
            final(self).next_id == old(self).next_id,
            final(self).pending == old(self).pending,
            old(self).prompts_map().contains_key(thread_id@) ==> (r matches Err(e) && e@
                == "prompt already in progress"@ && *final(self) == *old(self)),
            !old(self).prompts_map().contains_key(thread_id@) ==> (r matches Ok((turn, ev)) && {
                let pm = final(self).prompts_map()[thread_id@];
                &&& final(self).prompts_map().contains_key(thread_id@)
                &&& pm.turn_id == turn@
                &&& pm.text == Seq::<char>::empty()
                &&& final(self).prompts_map() == begin_t(
                    old(self).prompts_map(),
                    thread_id@,
                    turn@,
                    pm.item_id,
                )
                &&& event_model(ev) == EventModel::TurnStarted {
                    thread_id: thread_id@,
                    turn_id: turn@,
                }
            }),
    {
        proof {
            self.lemma_prompt_key_bridge();
        }
        match self.find_prompt(thread_id) {
            Some(i) => {
                proof {
                    lemma_entry_map_index(self.prompt_entries(), i as int);
                }
                Err("prompt already in progress".to_owned())
            },
            None => {
                proof {
                    lemma_entry_map_contains(self.prompt_entries(), thread_id@);
                }
                let turn_id = "turn-".to_owned().concat(fresh_uuid_text().as_str());
                let item_id = "item-".to_owned().concat(fresh_uuid_text().as_str());
                let st = PromptState {
                    turn_id: turn_id.clone(),
                    item_id: item_id.clone(),
                    text: String::new(),
                };
                let ghost entry = (thread_id@, st.model());
                proof {
                    assert forall|j: int| 0 <= j < old(self).prompt_entries().len() implies (
                    #[trigger] old(self).prompt_entries()[j]).0 != entry.0 by {}
                    lemma_distinct_push(old(self).prompt_entries(), entry);
                    lemma_entry_map_push(old(self).prompt_entries(), entry);
                }
                self.prompts.push((thread_id.to_owned(), st));
                let ev = EngineEvent::TurnStarted {
                    thread_id: thread_id.to_owned(),
                    turn_id: turn_id.clone(),
                };
                proof {
                    self.lemma_prompt_key_bridge();
                    assert(self.prompt_entries() =~= old(self).prompt_entries().push(entry));
                }
                Ok((turn_id, ev))
            },
        }
    }

    /// Appends one delta to a thread's in-progress message, in arrival
    /// order. A thread with no prompt state is left alone and yields
    /// nothing; otherwise the message identifier comes back with the
    /// per-delta event.
    pub fn append_delta(&mut self, thread_id: &str, delta: &str) -> (r: Option<(String, EngineEvent)>)
        requires
            old(self).wf(),
        ensures
            final(self).wf(),
            final(self).next_id == old(self).next_id,
            final(self).pending == old(self).pending,
            !old(self).prompts_map().contains_key(thread_id@) ==> r is None && *final(self)
                == *old(self),
            old(self).prompts_map().contains_key(thread_id@) ==> (r matches Some((item, ev))
                && item@ == old(self).prompts_map()[thread_id@].item_id && final(self).prompts_map()
                == append_t(old(self).prompts_map(), thread_id@, delta@) && event_model(ev) == (
            EventModel::MessageDelta { thread_id: thread_id@, item_id: item@, delta: delta@ })),
    {
        proof {
            self.lemma_prompt_key_bridge();
        }
        match self.find_prompt(thread_id) {
            None => {
                proof {
                    lemma_entry_map_contains(self.prompt_entries(), thread_id@);
                }
                None
            },
            Some(i) => {
                proof {
                    lemma_entry_map_index(self.prompt_entries(), i as int);
                }
                self.prompts[i].1.text.append(delta);
                let item = self.prompts[i].1.item_id.clone();
                let ev = EngineEvent::MessageDelta {
                    thread_id: thread_id.to_owned(),
                    item_id: item.clone(),
                    delta: delta.to_owned(),
                };
                proof {
                    self.lemma_prompt_key_bridge();
                    let ghost entry = (thread_id@, self.prompts@[i as int].1.model());
                    assert(self.prompt_entries() =~= old(self).prompt_entries().update(
                        i as int,
                        entry,
                    ));
                    crate::table::lemma_entry_map_update(
                        old(self).prompt_entries(),
                        i as int,
                        entry,
                    );
                }
                Some((item, ev))
            },
        }
    }

    /// Finishes a thread's prompt. With no prompt state this is a silent
    /// no-op; otherwise the state is removed and exactly the two completion
    /// events come back, in order: the completed message with the full
    /// accumulated text, then the completed turn.
    pub fn finish_prompt(&mut self, thread_id: &str) -> (evs: Vec<EngineEvent>)
        requires
            old(self).wf(),
        ensures
            final(self).wf(),
            final(self).next_id == old(self).next_id,
            final(self).pending == old(self).pending,
            !old(self).prompts_map().contains_key(thread_id@) ==> evs@.len() == 0 && *final(self)
                == *old(self),
            old(self).prompts_map().contains_key(thread_id@) ==> final(self).prompts_map() == old(
                self,
            ).prompts_map().remove(thread_id@) && event_models(evs@) == finish_events(
                thread_id@,
                old(self).prompts_map()[thread_id@],
            ),
    {
        proof {
            self.lemma_prompt_key_bridge();
        }
        match self.find_prompt(thread_id) {
            None => {
                proof {
                    lemma_entry_map_contains(self.prompt_entries(), thread_id@);
                }
                Vec::new()
            },
            Some(i) => {
                proof {
                    lemma_entry_map_index(self.prompt_entries(), i as int);
                    lemma_entry_map_remove(self.prompt_entries(), i as int);
                    lemma_distinct_remove(self.prompt_entries(), i as int);
                }
                let entry = self.prompts.remove(i);
                let st = entry.1;
                let mut evs: Vec<EngineEvent> = Vec::new();
                evs.push(
                    EngineEvent::MessageCompleted {
                        thread_id: thread_id.to_owned(),
                        item_id: st.item_id,
                        text: st.text,
                    },
                );
                evs.push(
                    EngineEvent::TurnCompleted {
                        thread_id: thread_id.to_owned(),
                        turn_id: st.turn_id,
                    },
                );
                proof {
                    self.lemma_prompt_key_bridge();
                    assert(self.prompt_entries() =~= old(self).prompt_entries().remove(i as int));
                    assert(event_models(evs@) =~= finish_events(
                        thread_id@,
                        old(self).prompts_map()[thread_id@],
                    ));
                }
                evs
            },
        }
    }

    /// Clears a thread's prompt without emitting any completion event: the
    /// abort path, used when the request that was to produce the message
    /// failed, so no coherent final message exists.
    pub fn clear_prompt(&mut self, thread_id: &str)
        requires
            old(self).wf(),
        ensures
            final(self).wf(),
            final(self).next_id == old(self).next_id,
            final(self).pending == old(self).pending,
            final(self).prompts_map() == old(self).prompts_map().remove(thread_id@),
            !old(self).prompts_map().contains_key(thread_id@) ==> *final(self) == *old(self),
    {
        proof {
            self.lemma_prompt_key_bridge();
        }
        match self.find_prompt(thread_id) {
            None => {
                proof {
                    lemma_entry_map_contains(self.prompt_entries(), thread_id@);
                    lemma_remove_absent(self.prompts_map(), thread_id@);
                }
            },
            Some(i) => {
                proof {
                    lemma_entry_map_index(self.prompt_entries(), i as int);
                    lemma_entry_map_remove(self.prompt_entries(), i as int);
                    lemma_distinct_remove(self.prompt_entries(), i as int);
                }
                let _ = self.prompts.remove(i);
                proof {
                    self.lemma_prompt_key_bridge();
                    assert(self.prompt_entries() =~= old(self).prompt_entries().remove(i as int));
                }
            },
        }
    }

    /// Handles one raw line of the process's standard output, in arrival
    /// order: blank lines are skipped; a line that is not valid JSON yields
    /// exactly one parse-error event and changes nothing, so the read loop
    /// survives it; a response resolves the slot pending under its
    /// identifier and only that slot (an unknown identifier changes
    /// nothing); the one interpreted notification shape appends its delta
    /// to the thread's prompt and yields the per-delta event; every other
    /// message is left alone.
    pub fn handle_stdout_line(&mut self, line: &str) -> (evs: Vec<EngineEvent>)
        requires
            old(self).wf(),
        ensures
            final(self).wf(),
            final(self).next_id == old(self).next_id,
            match line_route(line@) {
                LineRoute::Skip => *final(self) == *old(self) && evs@.len() == 0,
                LineRoute::Bad => *final(self) == *old(self) && evs@.len() == 1 && (event_models(
                    evs@,
                )[0] matches EventModel::ParseError { raw, error } && raw == line@),
                LineRoute::ResponseTo(id) => final(self).prompts == old(self).prompts
                    && final(self).pending_map() == old(self).pending_map().remove(id)
                    && evs@.len() == 0,
                LineRoute::Delta { thread, text } => final(self).pending == old(self).pending && (
                if old(self).prompts_map().contains_key(thread) {
                    final(self).prompts_map() == append_t(old(self).prompts_map(), thread, text)
                        && evs@.len() == 1 && event_models(evs@)[0] == (EventModel::MessageDelta {
                        thread_id: thread,
                        item_id: old(self).prompts_map()[thread].item_id,
                        delta: text,
                    })
                } else {
                    *final(self) == *old(self) && evs@.len() == 0
                }),
                LineRoute::Other => *final(self) == *old(self) && evs@.len() == 0,
            },
    {
        if is_blank(line) {
            return Vec::new();
        }
        let parsed = match parse_json_line(line) {
            Err(e) => {
                let ev = EngineEvent::ParseError { raw: line.to_owned(), error: e };
                let mut evs: Vec<EngineEvent> = Vec::new();
                evs.push(ev);
                return evs;
            },
            Ok(v) => v,
        };
        match classify_value(&parsed) {
            Routed::ResponseTo(id) => {
                match self.take_pending(id) {
                    Some(tx) => deliver_to_slot(tx, parsed),
                    None => {},
                }
                Vec::new()
            },
            Routed::Delta { thread, text } => {
                match self.append_delta(thread.as_str(), text.as_str()) {
                    Some(pair) => {
                        let mut evs: Vec<EngineEvent> = Vec::new();
                        evs.push(pair.1);
                        evs
                    },
                    None => Vec::new(),
                }
            },
            Routed::Other => Vec::new(),
        }
    }
}

/// Turns one raw line of the process's standard error into the diagnostic
/// event it is forwarded as; blank lines are skipped.
pub fn stderr_event(line: &str) -> (r: Option<EngineEvent>)
    ensures
        all_ws(line@) ==> r is None,
        !all_ws(line@) ==> (r matches Some(ev) && event_model(ev) == (EventModel::StderrLine {
            message: line@,
        })),
{
    if is_blank(line) {
        None
    } else {
        Some(EngineEvent::StderrLine { message: line.to_owned() })
    }
}

/// Identifier isolation: in a well-formed session, one identifier names at
/// most one pending slot, so a response is delivered to the slot registered
/// under the identifier it echoes and to no other.
pub proof fn lemma_identifier_isolation(s: SessionCore, i: int, j: int)
    requires
        s.wf(),
        0 <= i < s.pending@.len(),
        0 <= j < s.pending@.len(),
        s.pending@[i].0 == s.pending@[j].0,
    ensures
        i == j,
{
}

/// Streaming assembly: beginning a prompt, appending two deltas and
/// finishing yields the turn-started state, both deltas carrying the one
/// message identifier, the completed message holding the deltas joined in
/// arrival order, then the completed turn — and afterwards the thread has
/// no prompt state.
pub proof fn lemma_prompt_stream_assembly(
    m: Map<Seq<char>, PromptModel>,
    t: Seq<char>,
    turn: Seq<char>,
    item: Seq<char>,
    d1: Seq<char>,
    d2: Seq<char>,
)
    requires
        !m.contains_key(t),
    ensures
        ({
            let m1 = begin_t(m, t, turn, item);
            let m2 = append_t(m1, t, d1);
            let m3 = append_t(m2, t, d2);
            &&& m1[t].text == Seq::<char>::empty()
            &&& m1[t].turn_id == turn
            &&& m2[t].item_id == item
            &&& m3[t].item_id == item
            &&& m3[t].text == d1 + d2
            &&& finish_events(t, m3[t]) == seq![
                EventModel::MessageCompleted { thread_id: t, item_id: item, text: d1 + d2 },
                EventModel::TurnCompleted { thread_id: t, turn_id: turn },
            ]
            &&& !m3.remove(t).contains_key(t)
        }),
{
    let m1 = begin_t(m, t, turn, item);
    let m2 = append_t(m1, t, d1);
    let m3 = append_t(m2, t, d2);
    assert(m1[t].text + d1 =~= d1);
    assert(m3[t].text =~= d1 + d2);
    assert(finish_events(t, m3[t]) =~= seq![
        EventModel::MessageCompleted { thread_id: t, item_id: item, text: d1 + d2 },
        EventModel::TurnCompleted { thread_id: t, turn_id: turn },
    ]);
}

/// Aborting: clearing right after beginning leaves the streaming state
/// exactly as it was, and emits no completion events (the clear step
/// returns none by its signature).
pub proof fn lemma_clear_aborts(
    m: Map<Seq<char>, PromptModel>,
    t: Seq<char>,
    turn: Seq<char>,
    item: Seq<char>,
)
    requires
        !m.contains_key(t),
    ensures
        begin_t(m, t, turn, item).remove(t) == m,
{
    assert(begin_t(m, t, turn, item).remove(t) =~= m);
}

} // verus!



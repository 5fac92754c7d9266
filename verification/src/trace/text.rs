//! The display text of events.
use super::EventType;
use crate::types::ids::{controller_id_text, machine_id_text, object_id_text, tx_id_text};
use crate::types::val::val_text;
use vstd::prelude::*;

verus! {

/// The display text of an event, e.g. `created obj:0 (behavior: ping)`.
pub open spec fn event_text(e: EventType) -> Seq<char> {
    match e {
        EventType::ObjectCreated { id, behavior_name } => "created "@ + object_id_text(id)
            + " (behavior: "@ + behavior_name@ + ")"@,
        EventType::ObjectDestroyed(id) => "destroyed "@ + object_id_text(id),
        EventType::ObjectCalled { id, input, output } => "called "@ + object_id_text(id)
            + " with "@ + val_text(input@) + match output {
            Some(out) => " -> "@ + val_text(out@),
            None => Seq::empty(),
        },
        EventType::MessageReceived { id, input } => object_id_text(id) + " received "@ + val_text(
            input@,
        ),
        EventType::ObjectMoved { id, from, to } => "moved "@ + object_id_text(id) + " from "@
            + machine_id_text(from) + " to "@ + machine_id_text(to),
        EventType::ExecutionMoved { from, to } => "execution moved from "@ + machine_id_text(from)
            + " to "@ + machine_id_text(to),
        EventType::ObjectFetched { id, machine } => "fetched "@ + object_id_text(id) + " to "@
            + machine_id_text(machine),
        EventType::ObjectTransferred { id, from, to } => "transferred "@ + object_id_text(id)
            + " from "@ + controller_id_text(from) + " to "@ + controller_id_text(to),
        EventType::ObjectFrozen { id, controller } => "froze "@ + object_id_text(id) + " via "@
            + controller_id_text(controller),
        EventType::FunctionUpdated(name) => "updated function "@ + name@,
        EventType::TransactionStarted(id) => "tx started: "@ + tx_id_text(id),
        EventType::TransactionCommitted(id) => "tx committed: "@ + tx_id_text(id),
        EventType::TransactionAborted(id) => "tx aborted: "@ + tx_id_text(id),
        EventType::StateUpdated(id) => "state updated: "@ + object_id_text(id),
        EventType::ErrorOccurred(msg) => "error: "@ + msg@,
    }
}

impl EventType {
    /// Appends the display text of this event to `out`.
    pub fn write_to(&self, out: &mut String)
        ensures
            final(out)@ == old(out)@ + event_text(*self),
    {
        let ghost start = out@;
        match self {
            EventType::ObjectCreated { id, behavior_name } => {
                out.append("created ");
                id.write_to(out);
                out.append(" (behavior: ");
                out.append(behavior_name.as_str());
                out.append(")");
            },
            EventType::ObjectDestroyed(id) => {
                out.append("destroyed ");
                id.write_to(out);
            },
            EventType::ObjectCalled { id, input, output } => {
                out.append("called ");
                id.write_to(out);
                out.append(" with ");
                input.write_to(out);
                match output {
                    Some(o) => {
                        out.append(" -> ");
                        o.write_to(out);
                    },
                    None => {},
                }
            },
            EventType::MessageReceived { id, input } => {
                id.write_to(out);
                out.append(" received ");
                input.write_to(out);
            },
            EventType::ObjectMoved { id, from, to } => {
                out.append("moved ");
                id.write_to(out);
                out.append(" from ");
                from.write_to(out);
                out.append(" to ");
                to.write_to(out);
            },
            EventType::ExecutionMoved { from, to } => {
                out.append("execution moved from ");
                from.write_to(out);
                out.append(" to ");
                to.write_to(out);
            },
            EventType::ObjectFetched { id, machine } => {
                out.append("fetched ");
                id.write_to(out);
                out.append(" to ");
                machine.write_to(out);
            },
            EventType::ObjectTransferred { id, from, to } => {
                out.append("transferred ");
                id.write_to(out);
                out.append(" from ");
                from.write_to(out);
                out.append(" to ");
                to.write_to(out);
            },
            EventType::ObjectFrozen { id, controller } => {
                out.append("froze ");
                id.write_to(out);
                out.append(" via ");
                controller.write_to(out);
            },
            EventType::FunctionUpdated(name) => {
                out.append("updated function ");
                out.append(name.as_str());
            },
            EventType::TransactionStarted(id) => {
                out.append("tx started: ");
                id.write_to(out);
            },
            EventType::TransactionCommitted(id) => {
                out.append("tx committed: ");
                id.write_to(out);
            },
            EventType::TransactionAborted(id) => {
                out.append("tx aborted: ");
                id.write_to(out);
            },
            EventType::StateUpdated(id) => {
                out.append("state updated: ");
                id.write_to(out);
            },
            EventType::ErrorOccurred(msg) => {
                out.append("error: ");
                out.append(msg.as_str());
            },
        }
        assert(out@ =~= start + event_text(*self));
    }

    /// The display text of this event.
    pub fn display_string(&self) -> (s: String)
        ensures
            s@ == event_text(*self),
    {
        let mut s = String::new();
        self.write_to(&mut s);
        s
    }
}

} // verus!

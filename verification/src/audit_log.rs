//! The audit log of events received from the broker.

use vstd::prelude::*;
use vstd::string::*;

use crate::clock::{now, Timestamp};
use crate::ids::{is_random_uuid, AuditLogId};

verus! {

/// What an audit log entry records.
#[derive(Clone, Copy, Debug, PartialEq, Eq, Structural)]
pub enum EventType {
    OrderCreated,
}

impl EventType {
    /// The event type as it is stored.
    pub fn as_str(&self) -> (s: &'static str)
        ensures
            s@ == "order_created"@,
    {
        match self {
            EventType::OrderCreated => "order_created",
        }
    }
}

/// An audit log entry: the event's JSON text and when it was recorded.
#[derive(Debug)]
pub struct AuditLog {
    pub id: AuditLogId,
    pub event_type: EventType,
    pub payload: String,
    pub created_at: Timestamp,
}

impl AuditLog {
    /// The entry for a received order-created event whose JSON text is
    /// `payload`; JSON `null` where the event could not be rendered.
    pub fn order_created(id: AuditLogId, payload: Option<String>, created_at: Timestamp) -> (log:
        AuditLog)
        ensures
            log.id == id,
            log.event_type == EventType::OrderCreated,
            log.created_at == created_at,
            payload matches Some(p) ==> log.payload == p,
            payload is None ==> log.payload@ == "null"@,
    {
        let payload = match payload {
            Some(p) => p,
            None => String::from_str("null"),
        };
        AuditLog { id, event_type: EventType::OrderCreated, payload, created_at }
    }

    /// The entry for a received order-created event, with a fresh
    /// identifier and the present time.
    pub fn record_order_created(payload: Option<String>) -> (log: AuditLog)
        ensures
            is_random_uuid(log.id.0),
            log.event_type == EventType::OrderCreated,
            log.created_at.secs >= 0,
            log.created_at.nanos < 1_000_000_000,
            payload matches Some(p) ==> log.payload == p,
            payload is None ==> log.payload@ == "null"@,
    {
        AuditLog::order_created(AuditLogId::new(), payload, now())
    }
}

} // verus!

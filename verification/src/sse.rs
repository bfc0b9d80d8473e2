//! Server-sent events: what a subscriber of the broadcast is sent, and the
//! heartbeat.

use vstd::prelude::*;

verus! {

/// The backlog of the broadcast where none is configured.
pub const DEFAULT_BACKLOG: usize = 1024;

/// The seconds between two heartbeats.
pub const HEARTBEAT_SECS: u64 = 10;

/// A notification for the subscribers of one instance.
#[derive(Debug, PartialEq, Eq)]
pub struct BroadcastMsg {
    pub ids_id: String,
    pub message: String,
}

/// One server-sent event.
#[derive(Debug, PartialEq, Eq)]
pub struct SseEvent {
    /// The name of the event, where it has one.
    pub event: Option<String>,
    pub data: String,
}

/// What the stream of a subscriber is woken by.
#[derive(Debug)]
pub enum Received {
    /// The cursor brought the next notification.
    Message(BroadcastMsg),
    /// The cursor fell off the backlog and passed over so many
    /// notifications.
    Lagged(u64),
    /// The heartbeat timer fired: ten seconds have passed since it last did.
    Tick,
}

/// What the stream of a subscriber does with what its cursor brought. In
/// every case the stream goes on.
#[derive(Debug, PartialEq, Eq)]
pub enum SseStep {
    /// The event is sent to the client.
    Send(SseEvent),
    /// Nothing is sent.
    Skip,
    /// Nothing is sent, and the loss is logged.
    ReportLag { missed: u64 },
}

/// The backlog of the broadcast.
pub fn get_broadcast_capacity(capacity: Option<usize>) -> (r: usize)
    ensures
        r == match capacity {
            Some(c) => c,
            None => 1024,
        },
{
    match capacity {
        Some(c) => c,
        None => DEFAULT_BACKLOG,
    }
}

/// What the stream of the instance `ids_id` does when it is woken: a
/// notification for the instance is sent as the data of an event without a
/// name, a notification for another instance is passed over, a loss is
/// reported, and a tick of the heartbeat timer sends the event `ping` with
/// the data `keep-alive`. No step ends the stream.
pub fn mcp_get(ids_id: &str, received: Received) -> (r: SseStep)
    ensures
        match received {
            Received::Message(msg) => if msg.ids_id@ == ids_id@ {
                r matches SseStep::Send(e) && e.event is None && e.data@ == msg.message@
            } else {
                r matches SseStep::Skip
            },
            Received::Lagged(n) => r matches SseStep::ReportLag { missed } && missed == n,
            Received::Tick => r matches SseStep::Send(e) && (e.event matches Some(name) && name@
                == "ping"@) && e.data@ == "keep-alive"@,
        },
{
    match received {
        Received::Message(msg) => {
            if *msg.ids_id.as_str() == *ids_id {
                SseStep::Send(SseEvent { event: None, data: msg.message })
            } else {
                SseStep::Skip
            }
        },
        Received::Lagged(n) => SseStep::ReportLag { missed: n },
        Received::Tick => SseStep::Send(heartbeat()),
    }
}

/// The heartbeat: the event `ping` with the data `keep-alive`.
pub fn heartbeat() -> (r: SseEvent)
    ensures
        r.event matches Some(name) && name@ == "ping"@,
        r.data@ == "keep-alive"@,
{
    SseEvent { event: Some("ping".to_string()), data: "keep-alive".to_string() }
}

/// The one event of an answer that is sent as a stream: the body as the
/// data of an event without a name.
pub fn once_sse(body: String) -> (r: SseEvent)
    ensures
        r.event is None,
        r.data@ == body@,
{
    SseEvent { event: None, data: body }
}

} // verus!

use vstd::prelude::*;

verus! {

/// Outcome of one attempt to take a message from a metered channel
/// receiver. The channel itself is outside work; only the outcome reaches
/// this layer.
#[derive(Clone, Copy, Debug, PartialEq, Eq, Structural)]
pub enum ChannelEvent {
    /// A message arrived; the channel now holds this many queued messages.
    Received { queue_len: u64 },
    /// No message was waiting.
    Empty,
    /// The wait ran out before a message arrived.
    TimedOut,
    /// Every sender is gone; nothing will arrive any more.
    Disconnected,
}

/// What the receiver must do to its metrics after an event: record the new
/// queue length and count the message, drop its metrics from the registry
/// for good, or leave them as they are.
#[derive(Clone, Copy, Debug, PartialEq, Eq, Structural)]
pub enum MetricsAction {
    Record { queue_len: u64 },
    Unregister,
    Keep,
}

/// The metrics decision after a non-blocking receive attempt: a message is
/// recorded, an empty channel changes nothing, and only disconnection
/// retires the metrics.
pub fn metrics_action_on_try_recv(event: &ChannelEvent) -> (a: MetricsAction)
    ensures
        *event matches ChannelEvent::Received { queue_len } ==> a == (MetricsAction::Record {
            queue_len,
        }),
        event is Empty || event is TimedOut ==> a == MetricsAction::Keep,
        event is Disconnected ==> a == MetricsAction::Unregister,
{
    match event {
        ChannelEvent::Received { queue_len } => MetricsAction::Record { queue_len: *queue_len },
        ChannelEvent::Empty => MetricsAction::Keep,
        ChannelEvent::TimedOut => MetricsAction::Keep,
        ChannelEvent::Disconnected => MetricsAction::Unregister,
    }
}

/// The metrics decision after a blocking or deadline-bound receive: a
/// message is recorded; any failure, timeout included, retires the metrics.
pub fn metrics_action_on_recv(event: &ChannelEvent) -> (a: MetricsAction)
    ensures
        *event matches ChannelEvent::Received { queue_len } ==> a == (MetricsAction::Record {
            queue_len,
        }),
        !(event is Received) ==> a == MetricsAction::Unregister,
{
    match event {
        ChannelEvent::Received { queue_len } => MetricsAction::Record { queue_len: *queue_len },
        ChannelEvent::Empty => MetricsAction::Unregister,
        ChannelEvent::TimedOut => MetricsAction::Unregister,
        ChannelEvent::Disconnected => MetricsAction::Unregister,
    }
}

/// Whether a receiver being dropped is the last holder of its metrics, in
/// which case it must unregister them.
pub fn should_unregister_on_drop(remaining_refs: u64) -> (r: bool)
    ensures
        r == (remaining_refs == 1),
{
    remaining_refs == 1
}

} // verus!

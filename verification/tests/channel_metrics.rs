use git_delta_manifest::receiver::ChannelEvent;
use git_delta_manifest::receiver::MetricsAction;
use git_delta_manifest::receiver::metrics_action_on_recv;
use git_delta_manifest::receiver::metrics_action_on_try_recv;
use git_delta_manifest::receiver::should_unregister_on_drop;

#[test]
fn try_recv_records_message_and_queue_length() {
    assert_eq!(
        metrics_action_on_try_recv(&ChannelEvent::Received { queue_len: 3 }),
        MetricsAction::Record { queue_len: 3 }
    );
}

#[test]
fn try_recv_keeps_metrics_on_empty_channel() {
    assert_eq!(
        metrics_action_on_try_recv(&ChannelEvent::Empty),
        MetricsAction::Keep
    );
}

#[test]
fn try_recv_unregisters_on_disconnect() {
    assert_eq!(
        metrics_action_on_try_recv(&ChannelEvent::Disconnected),
        MetricsAction::Unregister
    );
}

#[test]
fn recv_records_message_and_unregisters_on_any_failure() {
    assert_eq!(
        metrics_action_on_recv(&ChannelEvent::Received { queue_len: 0 }),
        MetricsAction::Record { queue_len: 0 }
    );
    assert_eq!(
        metrics_action_on_recv(&ChannelEvent::TimedOut),
        MetricsAction::Unregister
    );
    assert_eq!(
        metrics_action_on_recv(&ChannelEvent::Disconnected),
        MetricsAction::Unregister
    );
}

#[test]
fn only_the_last_holder_unregisters_on_drop() {
    assert!(should_unregister_on_drop(1));
    assert!(!should_unregister_on_drop(2));
    assert!(!should_unregister_on_drop(5));
}

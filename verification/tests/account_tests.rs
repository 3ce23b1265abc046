use mail_forwarder::account::{effective_interval, AccountLoop, Directive, LoopPhase};
use mail_forwarder::message::Email;
use mail_forwarder::orchestrator::Orchestrator;

fn email(id: &str) -> Email {
    Email {
        id: id.to_string(),
        content: format!("Subject: {}", id).into_bytes(),
    }
}

#[test]
fn test_effective_interval() {
    assert_eq!(effective_interval(None), 300);
    assert_eq!(effective_interval(Some(3)), 10);
    assert_eq!(effective_interval(Some(10)), 10);
    assert_eq!(effective_interval(Some(60)), 60);
}

#[test]
fn test_scenario_both_deliver_delete_disabled() {
    // Batch of 2, both deliver successfully, delete disabled: both ids
    // added to the seen set, both notified, in original order.
    let mut m = AccountLoop::new(Some(60), Some(false), 1);
    assert!(matches!(m.on_wake(), Directive::Fetch));
    let d = m.on_batch(vec![email("m1"), email("m2")]);
    assert!(matches!(d, Directive::Deliver { index: 0 }));
    let d = m.on_deliver_result(true);
    assert!(matches!(d, Directive::Deliver { index: 1 }));
    let d = m.on_deliver_result(true);
    assert!(matches!(
        d,
        Directive::Notify {
            index: 0,
            notifier: 0
        }
    ));
    assert!(m.seen.contains(&"m1".to_string()));
    assert!(m.seen.contains(&"m2".to_string()));
    let d = m.on_notified();
    assert!(matches!(
        d,
        Directive::Notify {
            index: 1,
            notifier: 0
        }
    ));
    let d = m.on_notified();
    assert!(matches!(d, Directive::Wait { seconds: 60 }));
    assert_eq!(m.phase, LoopPhase::Waiting);
}

#[test]
fn test_scenario_deliver_fails() {
    // Batch of 1, delivery fails: seen set unchanged, no delete
    // attempted, no notification.
    let mut m = AccountLoop::new(Some(60), Some(true), 1);
    assert!(matches!(m.on_wake(), Directive::Fetch));
    let d = m.on_batch(vec![email("m1")]);
    assert!(matches!(d, Directive::Deliver { index: 0 }));
    let d = m.on_deliver_result(false);
    assert!(matches!(d, Directive::Wait { seconds: 60 }));
    assert!(!m.seen.contains(&"m1".to_string()));
    assert!(m.seen.is_empty());
}

#[test]
fn test_scenario_delete_fails_withholds_notifications() {
    // Batch of 2, both deliver successfully, delete enabled, the batched
    // delete fails: both ids remain in the seen set and zero
    // notifications are sent.
    let mut m = AccountLoop::new(Some(60), Some(true), 2);
    assert!(matches!(m.on_wake(), Directive::Fetch));
    let d = m.on_batch(vec![email("c1"), email("c2")]);
    assert!(matches!(d, Directive::Deliver { index: 0 }));
    let d = m.on_deliver_result(true);
    assert!(matches!(d, Directive::Deliver { index: 1 }));
    let d = m.on_deliver_result(true);
    match d {
        Directive::DeleteBatch { ids } => {
            assert_eq!(ids, vec!["c1".to_string(), "c2".to_string()]);
        }
        other => panic!("expected a batched delete, got {:?}", other),
    }
    let d = m.on_delete_result(false);
    assert!(matches!(d, Directive::Wait { seconds: 60 }));
    assert!(m.seen.contains(&"c1".to_string()));
    assert!(m.seen.contains(&"c2".to_string()));
    assert_eq!(m.phase, LoopPhase::Waiting);
}

#[test]
fn test_scenario_delete_succeeds_notifies_each_once() {
    // Batch of 2, both deliver and the batched delete succeed: the seen
    // set ends empty (ids added then removed) and both messages are
    // notified exactly once via every configured notifier.
    let mut m = AccountLoop::new(Some(60), Some(true), 2);
    assert!(matches!(m.on_wake(), Directive::Fetch));
    let d = m.on_batch(vec![email("d1"), email("d2")]);
    assert!(matches!(d, Directive::Deliver { index: 0 }));
    let d = m.on_deliver_result(true);
    assert!(matches!(d, Directive::Deliver { index: 1 }));
    let d = m.on_deliver_result(true);
    assert!(matches!(d, Directive::DeleteBatch { .. }));
    let mut notified: Vec<(usize, usize)> = Vec::new();
    let mut d = m.on_delete_result(true);
    loop {
        match d {
            Directive::Notify { index, notifier } => {
                notified.push((index, notifier));
                d = m.on_notified();
            }
            Directive::Wait { seconds: 60 } => break,
            other => panic!("unexpected directive {:?}", other),
        }
    }
    assert_eq!(notified, vec![(0, 0), (0, 1), (1, 0), (1, 1)]);
    assert!(m.seen.is_empty());
}

#[test]
fn test_scenario_shutdown_mid_processing() {
    // Shutdown fires while the loop is mid-processing on a 3-message
    // batch: all 3 messages complete processing before the loop stops.
    let mut m = AccountLoop::new(Some(30), Some(false), 0);
    assert!(matches!(m.on_wake(), Directive::Fetch));
    let d = m.on_batch(vec![email("e1"), email("e2"), email("e3")]);
    assert!(matches!(d, Directive::Deliver { index: 0 }));
    let d = m.on_deliver_result(true);
    assert!(matches!(d, Directive::Deliver { index: 1 }));
    m.on_shutdown();
    // The cycle is not preempted: processing continues.
    assert_eq!(m.phase, LoopPhase::Delivering { index: 1 });
    let d = m.on_deliver_result(true);
    assert!(matches!(d, Directive::Deliver { index: 2 }));
    let d = m.on_deliver_result(true);
    assert!(matches!(d, Directive::Wait { seconds: 30 }));
    assert!(m.seen.contains(&"e1".to_string()));
    assert!(m.seen.contains(&"e2".to_string()));
    assert!(m.seen.contains(&"e3".to_string()));
    // Only at the wait point is the signal observed.
    let d = m.on_wake();
    assert!(matches!(d, Directive::Stop));
    assert_eq!(m.phase, LoopPhase::Stopped);
}

#[test]
fn test_already_seen_batch_is_a_no_op() {
    // Re-running the processing step on a batch containing only
    // already-seen ids produces zero deliveries and zero notifications.
    let mut m = AccountLoop::new(Some(60), Some(false), 1);
    assert!(matches!(m.on_wake(), Directive::Fetch));
    let d = m.on_batch(vec![email("m1")]);
    assert!(matches!(d, Directive::Deliver { index: 0 }));
    let d = m.on_deliver_result(true);
    assert!(matches!(d, Directive::Notify { index: 0, notifier: 0 }));
    let d = m.on_notified();
    assert!(matches!(d, Directive::Wait { seconds: 60 }));
    // Second cycle: the same message is reported again by the source.
    assert!(matches!(m.on_wake(), Directive::Fetch));
    let d = m.on_batch(vec![email("m1")]);
    assert!(matches!(d, Directive::Wait { seconds: 60 }));
    assert!(m.seen.contains(&"m1".to_string()));
}

#[test]
fn test_duplicate_ids_within_batch() {
    // A duplicate id later in the batch is skipped once the first
    // occurrence has been forwarded.
    let mut m = AccountLoop::new(Some(60), Some(false), 0);
    m.on_wake();
    let d = m.on_batch(vec![email("x"), email("x")]);
    assert!(matches!(d, Directive::Deliver { index: 0 }));
    let d = m.on_deliver_result(true);
    assert!(matches!(d, Directive::Wait { .. }));
}

#[test]
fn test_empty_batch_ends_cycle() {
    let mut m = AccountLoop::new(Some(60), Some(true), 3);
    assert!(matches!(m.on_wake(), Directive::Fetch));
    let d = m.on_batch(Vec::new());
    assert!(matches!(d, Directive::Wait { seconds: 60 }));
    assert!(m.seen.is_empty());
}

#[test]
fn test_fetch_failure_skips_cycle() {
    let mut m = AccountLoop::new(Some(15), Some(false), 1);
    assert!(matches!(m.on_wake(), Directive::Fetch));
    let d = m.on_fetch_failed();
    assert!(matches!(d, Directive::Wait { seconds: 15 }));
    assert_eq!(m.phase, LoopPhase::Waiting);
    assert!(m.seen.is_empty());
}

#[test]
fn test_interval_floor_in_machine() {
    let m = AccountLoop::new(Some(1), None, 0);
    assert_eq!(m.interval_seconds, 10);
    let m = AccountLoop::new(None, None, 0);
    assert_eq!(m.interval_seconds, 300);
}

#[test]
fn test_orchestrator_fires_shutdown_once() {
    let mut o = Orchestrator::new();
    o.task_started();
    o.task_started();
    assert!(!o.all_joined());
    assert!(o.request_shutdown());
    assert!(!o.request_shutdown());
    o.task_joined();
    assert!(!o.all_joined());
    o.task_joined();
    assert!(o.all_joined());
}

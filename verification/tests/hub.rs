use bioma::actor::{ActorId, ActorStatus, Resolution, SpawnExistsOptions, SpawnOptions};
use bioma::error::SystemActorError;
use bioma::hub::Hub;
use bioma::send::SendOptions;

fn mode(exists: SpawnExistsOptions) -> SpawnOptions {
    SpawnOptions { exists }
}

#[test]
fn a_request_is_answered_with_the_correlated_reply() {
    let mut hub = Hub::new();
    let a = ActorId::of("Asker", "/a");
    let b = ActorId::of("Answerer", "/b");
    let ctx_a = hub.spawn(&a, vec![], &mode(SpawnExistsOptions::Create), 1).unwrap().context;
    let ctx_b = hub.spawn(&b, vec![], &mode(SpawnExistsOptions::Create), 1).unwrap().context;

    let x = b"{\"x\":1}".to_vec();
    let y = b"{\"y\":2}".to_vec();
    let mut wait =
        hub.send(&ctx_a, &b, 100, "X", "Y", x.clone(), &SendOptions::default(), 10).unwrap();
    assert_eq!(hub.pending(&b), 1);
    assert_eq!(hub.pending(&a), 0);

    let request = hub.recv(&ctx_b).unwrap();
    assert_eq!(request.is("X"), Some(&x));
    assert!(request.sender == a);
    assert!(hub.reply(&ctx_b, &request, 101, "Y", y.clone(), 11));
    assert_eq!(hub.pending(&b), 0);

    let reply = hub.recv(&ctx_a).unwrap();
    assert_eq!(reply.correlation, request.correlation);
    assert_eq!(wait.on_frame(&reply), Some(Ok(y)));
    assert!(hub.recv(&ctx_a).is_none());
}

#[test]
fn a_restored_actor_starts_from_its_state_at_stop_time() {
    let mut hub = Hub::new();
    let a = ActorId::of("Counter", "/a");
    hub.spawn(&a, vec![0], &mode(SpawnExistsOptions::Create), 1).unwrap();
    hub.save(&a, vec![41], 2).unwrap();
    hub.save(&a, vec![42], 3).unwrap();
    hub.stop(&a, 4).unwrap();
    assert_eq!(hub.resolve(&a), Resolution::Persisted);
    let back = hub.spawn(&a, vec![0], &mode(SpawnExistsOptions::Restore), 5).unwrap();
    assert_eq!(back.snapshot, vec![42]);
    assert_eq!(hub.lookup(&a).unwrap().state, vec![42]);
    assert_eq!(hub.lookup(&a).unwrap().status, ActorStatus::Active);

    let never = ActorId::of("Counter", "/never");
    let r = hub.spawn(&never, vec![0], &mode(SpawnExistsOptions::Restore), 6);
    assert_eq!(r.err(), Some(SystemActorError::NotFound));
    assert_eq!(hub.resolve(&never), Resolution::Unknown);
}

#[test]
fn a_relay_stands_in_for_the_driver() {
    let mut hub = Hub::new();
    let driver = ActorId::of("Driver", "/driver");
    let relay = ActorId::of("Relay", "/relay");
    let c = ActorId::of("Worker", "/c");
    let relay_ctx = hub.spawn(&relay, vec![], &SpawnOptions::default(), 1).unwrap().context;
    let ctx_c = hub.spawn(&c, vec![], &SpawnOptions::default(), 1).unwrap().context;
    hub.send(&relay_ctx, &c, 1, "Job", "Done", vec![7], &SendOptions::default(), 2).unwrap();
    let seen = hub.recv(&ctx_c).unwrap();
    assert!(seen.sender == relay);
    assert!(seen.sender != driver);
    assert!(hub.reply(&ctx_c, &seen, 2, "Done", vec![], 3));
    assert_eq!(hub.pending(&relay), 1);
    assert_eq!(hub.pending(&driver), 0);
}

#[test]
fn frames_queue_for_an_actor_that_does_not_run() {
    let mut hub = Hub::new();
    let a = ActorId::of("Asker", "/a");
    let later = ActorId::of("Late", "/later");
    let ctx_a = hub.spawn(&a, vec![], &SpawnOptions::default(), 1).unwrap().context;
    assert!(hub.send(&ctx_a, &later, 1, "Hi", "Ho", vec![1], &SendOptions::default(), 2).is_ok());
    assert!(hub.send(&ctx_a, &later, 2, "Hi", "Ho", vec![2], &SendOptions::default(), 3).is_ok());
    assert_eq!(hub.pending(&later), 2);
    let ctx = hub.spawn(&later, vec![], &SpawnOptions::default(), 4).unwrap().context;
    assert_eq!(hub.recv(&ctx).unwrap().payload, vec![1]);
    assert_eq!(hub.recv(&ctx).unwrap().payload, vec![2]);
    assert!(hub.recv(&ctx).is_none());
}

#[test]
fn reset_empties_the_mailbox_and_create_does_not() {
    let mut hub = Hub::new();
    let a = ActorId::of("Asker", "/a");
    let b = ActorId::of("Answerer", "/b");
    let ctx_a = hub.spawn(&a, vec![], &SpawnOptions::default(), 1).unwrap().context;
    hub.send(&ctx_a, &b, 1, "Hi", "Ho", vec![1], &SendOptions::default(), 2).unwrap();
    hub.spawn(&b, vec![], &mode(SpawnExistsOptions::Create), 3).unwrap();
    assert_eq!(hub.pending(&b), 1);
    let again = hub.spawn(&b, vec![9], &mode(SpawnExistsOptions::Create), 4);
    assert_eq!(again.err(), Some(SystemActorError::AlreadyExists));
    assert_eq!(hub.pending(&b), 1);
    let fresh = hub.spawn(&b, vec![9], &mode(SpawnExistsOptions::Reset), 5).unwrap();
    assert!(fresh.purge_mailbox);
    assert_eq!(fresh.snapshot, vec![9]);
    assert_eq!(hub.pending(&b), 0);
    assert!(hub.recv(&fresh.context).is_none());
    assert!(hub.send(&ctx_a, &b, 2, "Hi", "Ho", vec![2], &SendOptions::default(), 1).is_ok());
    assert_eq!(hub.pending(&b), 1);
}

#[test]
fn a_stopped_recipient_refuses_a_strict_send() {
    let mut hub = Hub::new();
    let a = ActorId::of("Asker", "/a");
    let b = ActorId::of("Answerer", "/b");
    let ctx_a = hub.spawn(&a, vec![], &SpawnOptions::default(), 1).unwrap().context;
    hub.spawn(&b, vec![], &SpawnOptions::default(), 1).unwrap();
    hub.stop(&b, 2).unwrap();
    let strict = SendOptions { timeout: Some(5), require_active: true };
    let r = hub.send(&ctx_a, &b, 1, "Hi", "Ho", vec![1], &strict, 3);
    assert_eq!(r.err(), Some(SystemActorError::RecipientGone));
    assert_eq!(hub.pending(&b), 0);
    assert!(hub.send(&ctx_a, &b, 1, "Hi", "Ho", vec![1], &SendOptions::default(), 3).is_ok());
    assert_eq!(hub.pending(&b), 1);
}

#[test]
fn traffic_for_others_does_not_disturb_the_order() {
    let mut hub = Hub::new();
    let a = ActorId::of("A", "/a");
    let b = ActorId::of("B", "/b");
    let c = ActorId::of("C", "/c");
    let ctx_a = hub.spawn(&a, vec![], &SpawnOptions::default(), 1).unwrap().context;
    let ctx_b = hub.spawn(&b, vec![], &SpawnOptions::default(), 1).unwrap().context;
    let ctx_c = hub.spawn(&c, vec![], &SpawnOptions::default(), 1).unwrap().context;
    let o = SendOptions::default();
    hub.send(&ctx_a, &b, 1, "T", "R", vec![1], &o, 10).unwrap();
    hub.send(&ctx_a, &c, 2, "T", "R", vec![2], &o, 11).unwrap();
    hub.send(&ctx_c, &b, 3, "T", "R", vec![3], &o, 12).unwrap();
    hub.send(&ctx_a, &b, 4, "T", "R", vec![4], &o, 13).unwrap();
    assert_eq!(hub.recv(&ctx_b).unwrap().id, 1);
    assert_eq!(hub.recv(&ctx_b).unwrap().id, 3);
    assert_eq!(hub.recv(&ctx_b).unwrap().id, 4);
    assert_eq!(hub.recv(&ctx_c).unwrap().id, 2);
    assert!(hub.recv(&ctx_b).is_none());
}

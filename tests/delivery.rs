use matrixmail::delivery::{Action, Event, Membership, Phase, SendRun, Step};
use matrixmail::session::Session;

fn session(sync: Option<&str>) -> Session {
    Session {
        homeserver: "https://h/".to_string(),
        user_id: "@u:h".to_string(),
        device_id: "D".to_string(),
        access_token: "a0".to_string(),
        refresh_token: Some("r0".to_string()),
        sync_token: sync.map(|s| s.to_string()),
    }
}

/// Runs the events in order and gives every action the run asked for,
/// starting with the first.
fn drive(run: &mut SendRun, events: Vec<Event>) -> Vec<Action> {
    let mut actions = vec![run.action()];
    for e in events {
        run.step(e);
        actions.push(run.action());
    }
    actions
}

#[test]
fn first_run_bootstraps_with_a_full_sync_and_stores_its_checkpoint() {
    let mut run = SendRun::start(session(None), 1);
    assert_eq!(run.action(), Action::Sync);
    assert_eq!(run.session.sync_token, None);
    run.step(Event::Synced("t1".to_string()));
    assert_eq!(run.session.sync_token.as_deref(), Some("t1"));
    assert_eq!(run.action(), Action::CheckRoom(0));
}

#[test]
fn bootstrap_sync_is_retried_from_the_same_checkpoint() {
    let mut run = SendRun::start(session(Some("t0")), 1);
    let actions = drive(&mut run, vec![Event::SyncFailed, Event::SyncFailed]);
    assert_eq!(actions, vec![Action::Sync, Action::Sync, Action::Sync]);
    assert_eq!(run.session.sync_token.as_deref(), Some("t0"));
    assert_eq!(run.phase, Phase::Bootstrap);
}

#[test]
fn joined_destination_is_sent_to_without_a_join() {
    let mut run = SendRun::start(session(Some("t0")), 1);
    let actions = drive(
        &mut run,
        vec![Event::Synced("t1".to_string()), Event::Room(Membership::Joined), Event::Sent],
    );
    assert_eq!(actions, vec![Action::Sync, Action::CheckRoom(0), Action::Send(0), Action::Sync]);
    assert!(!actions.iter().any(|a| matches!(a, Action::Join(_))));
}

#[test]
fn unjoined_destination_is_joined_once_then_sent_to() {
    let mut run = SendRun::start(session(Some("t0")), 2);
    let actions = drive(
        &mut run,
        vec![
            Event::Synced("t1".to_string()),
            Event::Room(Membership::NotJoined),
            Event::JoinConfirmed(0),
            Event::Sent,
            Event::Synced("t2".to_string()),
            Event::Room(Membership::NotJoined),
            // a late signal for the first destination does not count for the second
            Event::JoinConfirmed(0),
            Event::JoinConfirmed(1),
            Event::Sent,
            Event::Synced("t3".to_string()),
        ],
    );
    assert_eq!(
        actions,
        vec![
            Action::Sync,
            Action::CheckRoom(0),
            Action::Join(0),
            Action::Send(0),
            Action::Sync,
            Action::CheckRoom(1),
            Action::Join(1),
            Action::AwaitJoin(1),
            Action::Send(1),
            Action::Sync,
            Action::ReadTokens,
        ]
    );
    assert_eq!(actions.iter().filter(|a| **a == Action::Join(0)).count(), 1);
    assert_eq!(actions.iter().filter(|a| **a == Action::Join(1)).count(), 1);
    assert_eq!(run.session.sync_token.as_deref(), Some("t3"));
}

#[test]
fn failed_second_send_never_saves() {
    let mut run = SendRun::start(session(Some("t0")), 2);
    let actions = drive(
        &mut run,
        vec![
            Event::Synced("t1".to_string()),
            Event::Room(Membership::Joined),
            Event::Sent,
            Event::Synced("t2".to_string()),
            Event::Room(Membership::Joined),
            Event::SendFailed,
            Event::Tokens("a1".to_string(), None),
            Event::Saved,
        ],
    );
    assert_eq!(actions[6], Action::Abort(Step::Send(1)));
    assert_eq!(actions[7], Action::Abort(Step::Send(1)));
    assert_eq!(actions[8], Action::Abort(Step::Send(1)));
    assert!(!actions.contains(&Action::Save));
    assert_eq!(run.phase, Phase::Failed(Step::Send(1)));
}

#[test]
fn full_run_takes_new_tokens_and_saves() {
    let mut run = SendRun::start(session(None), 1);
    let actions = drive(
        &mut run,
        vec![
            Event::Synced("t1".to_string()),
            Event::Room(Membership::Joined),
            Event::Sent,
            Event::Synced("t2".to_string()),
            Event::Tokens("a1".to_string(), Some("r1".to_string())),
            Event::Saved,
        ],
    );
    assert_eq!(actions[4], Action::ReadTokens);
    assert_eq!(actions[5], Action::Save);
    assert_eq!(actions[6], Action::Finish);
    assert_eq!(run.session.access_token, "a1");
    assert_eq!(run.session.refresh_token.as_deref(), Some("r1"));
    assert_eq!(run.session.sync_token.as_deref(), Some("t2"));
    assert_eq!(run.session.user_id, "@u:h");
}

#[test]
fn refresh_stores_the_newer_checkpoint() {
    let mut run = SendRun::start(session(Some("0005")), 1);
    drive(
        &mut run,
        vec![Event::Synced("0007".to_string()), Event::Room(Membership::Joined), Event::Sent],
    );
    let before = run.session.sync_token.clone().unwrap();
    run.step(Event::Synced("0009".to_string()));
    let after = run.session.sync_token.clone().unwrap();
    assert!(after >= before);
    assert_eq!(after, "0009");
}

#[test]
fn failures_of_join_refresh_and_save_stop_the_run() {
    let mut run = SendRun::start(session(None), 1);
    let a = drive(&mut run, vec![Event::Synced("t".to_string()), Event::Room(Membership::NotJoined), Event::JoinFailed]);
    assert_eq!(a[3], Action::Abort(Step::Join(0)));

    let mut run = SendRun::start(session(None), 1);
    let a = drive(&mut run, vec![Event::Synced("t".to_string()), Event::Room(Membership::Joined), Event::Sent, Event::SyncFailed]);
    assert_eq!(a[4], Action::Abort(Step::Refresh(0)));
    assert_eq!(run.session.sync_token.as_deref(), Some("t"));

    let mut run = SendRun::start(session(None), 1);
    let a = drive(
        &mut run,
        vec![
            Event::Synced("t".to_string()),
            Event::Room(Membership::Joined),
            Event::Sent,
            Event::Synced("u".to_string()),
            Event::Tokens("a".to_string(), None),
            Event::SaveFailed,
        ],
    );
    assert_eq!(a[6], Action::Abort(Step::Save));
}

#[test]
fn events_out_of_turn_change_nothing() {
    let mut run = SendRun::start(session(Some("t0")), 1);
    let a = drive(&mut run, vec![Event::Sent, Event::Room(Membership::Joined), Event::Tokens("x".to_string(), None)]);
    assert_eq!(a, vec![Action::Sync, Action::Sync, Action::Sync, Action::Sync]);
    assert_eq!(run.session.access_token, "a0");
}

#[test]
fn no_destinations_goes_straight_to_tokens() {
    let mut run = SendRun::start(session(None), 0);
    run.step(Event::Synced("t".to_string()));
    assert_eq!(run.action(), Action::ReadTokens);
}

#[test]
fn join_failure_while_waiting_stops_the_run() {
    let mut run = SendRun::start(session(None), 1);
    let a = drive(
        &mut run,
        vec![
            Event::Synced("t".to_string()),
            Event::Room(Membership::NotJoined),
            Event::Sent,
            Event::JoinConfirmed(3),
            Event::JoinFailed,
        ],
    );
    assert_eq!(a[3], Action::AwaitJoin(0));
    assert_eq!(a[4], Action::AwaitJoin(0));
    assert_eq!(a[5], Action::Abort(Step::Join(0)));
}

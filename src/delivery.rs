use vstd::prelude::*;
use crate::session::{Session, SessionModel, opt_view};
use crate::store::{entries_of, is_user_id, lemma_record_round_trip, lifted, model_of};

verus! {

/// A destination's membership in the local view of joined rooms.
#[derive(Debug, Clone, Copy, PartialEq, Eq, Structural)]
pub enum Membership {
    Joined,
    NotJoined,
}

/// The step of a send run that failed.
#[derive(Debug, Clone, Copy, PartialEq, Eq, Structural)]
pub enum Step {
    /// Joining the destination with this index.
    Join(usize),
    /// Sending to the destination with this index.
    Send(usize),
    /// The sync after the send to the destination with this index.
    Refresh(usize),
    /// Writing the session back.
    Save,
}

/// Where a send run stands. Destinations are numbered in input order.
#[derive(Debug, Clone, Copy, PartialEq, Eq, Structural)]
pub enum Phase {
    /// Waiting for the first sync to succeed.
    Bootstrap,
    /// Waiting for the destination's membership in the local view.
    Resolving(usize),
    /// The join is to be asked for.
    Joining(usize),
    /// The join was asked for; waiting for its confirmation.
    AwaitingJoin(usize),
    /// Waiting for the send to finish.
    Sending(usize),
    /// Waiting for the sync that follows a send.
    Refreshing(usize),
    /// Every destination is served; waiting for the client's token pair.
    Collecting,
    /// Waiting for the session to be written.
    Saving,
    Done,
    Failed(Step),
}

/// What the caller performs next, then reports as an event.
#[derive(Debug, Clone, Copy, PartialEq, Eq, Structural)]
pub enum Action {
    /// One sync from the run's stored checkpoint; a full sync where none is stored.
    Sync,
    /// Look the destination up in the local view of joined rooms.
    CheckRoom(usize),
    /// Ask to join the destination, and report once this user's membership
    /// there is confirmed as joined (`JoinConfirmed`) or the request failed.
    /// A caller that confirms through a watch on the membership event drops
    /// the watch once it fired.
    Join(usize),
    /// Keep waiting for the confirmation of the join already asked for,
    /// without asking again.
    AwaitJoin(usize),
    /// Send the message to the destination.
    Send(usize),
    /// Read the token pair that the client holds now.
    ReadTokens,
    /// Write the run's session.
    Save,
    /// The run succeeded.
    Finish,
    /// The run stops on this failure; nothing is written.
    Abort(Step),
}

/// What came of the last action.
#[derive(Debug, Clone)]
pub enum Event {
    /// A sync succeeded and returned this checkpoint.
    Synced(String),
    SyncFailed,
    /// The membership of the destination being resolved.
    Room(Membership),
    /// The membership event of this user joining the destination with this index.
    JoinConfirmed(usize),
    /// The join request itself failed.
    JoinFailed,
    Sent,
    SendFailed,
    /// The client's current access token and refresh token.
    Tokens(String, Option<String>),
    Saved,
    SaveFailed,
}

/// The phase after `e`, for a run over `n` destinations. An event that the
/// phase does not wait for changes nothing, but for a join already asked for:
/// then the run waits on for its confirmation.
pub open spec fn next_phase(p: Phase, n: nat, e: Event) -> Phase {
    match (p, e) {
        (Phase::Bootstrap, Event::Synced(_)) => if n == 0 {
            Phase::Collecting
        } else {
            Phase::Resolving(0)
        },
        (Phase::Bootstrap, Event::SyncFailed) => Phase::Bootstrap,
        (Phase::Resolving(i), Event::Room(Membership::Joined)) => Phase::Sending(i),
        (Phase::Resolving(i), Event::Room(Membership::NotJoined)) => Phase::Joining(i),
        (Phase::Joining(i), Event::JoinConfirmed(j)) => if i == j {
            Phase::Sending(i)
        } else {
            Phase::AwaitingJoin(i)
        },
        (Phase::Joining(i), Event::JoinFailed) => Phase::Failed(Step::Join(i)),
        (Phase::Joining(i), _) => Phase::AwaitingJoin(i),
        (Phase::AwaitingJoin(i), Event::JoinConfirmed(j)) => if i == j {
            Phase::Sending(i)
        } else {
            p
        },
        (Phase::AwaitingJoin(i), Event::JoinFailed) => Phase::Failed(Step::Join(i)),
        (Phase::Sending(i), Event::Sent) => Phase::Refreshing(i),
        (Phase::Sending(i), Event::SendFailed) => Phase::Failed(Step::Send(i)),
        (Phase::Refreshing(i), Event::Synced(_)) => if i + 1 < n {
            Phase::Resolving((i + 1) as usize)
        } else {
            Phase::Collecting
        },
        (Phase::Refreshing(i), Event::SyncFailed) => Phase::Failed(Step::Refresh(i)),
        (Phase::Collecting, Event::Tokens(_, _)) => Phase::Saving,
        (Phase::Saving, Event::Saved) => Phase::Done,
        (Phase::Saving, Event::SaveFailed) => Phase::Failed(Step::Save),
        _ => p,
    }
}

/// The session after `e`: a successful sync stores its checkpoint, the token
/// pair is taken over once every destination is served; nothing else changes it.
pub open spec fn next_session(p: Phase, m: SessionModel, e: Event) -> SessionModel {
    match (p, e) {
        (Phase::Bootstrap, Event::Synced(t)) => SessionModel { sync_token: Some(t@), ..m },
        (Phase::Refreshing(_), Event::Synced(t)) => SessionModel { sync_token: Some(t@), ..m },
        (Phase::Collecting, Event::Tokens(a, r)) => SessionModel {
            access_token: a@,
            refresh_token: opt_view(r),
            ..m
        },
        _ => m,
    }
}

/// The action that a phase calls for.
pub open spec fn pending(p: Phase) -> Action {
    match p {
        Phase::Bootstrap => Action::Sync,
        Phase::Resolving(i) => Action::CheckRoom(i),
        Phase::Joining(i) => Action::Join(i),
        Phase::AwaitingJoin(i) => Action::AwaitJoin(i),
        Phase::Sending(i) => Action::Send(i),
        Phase::Refreshing(_) => Action::Sync,
        Phase::Collecting => Action::ReadTokens,
        Phase::Saving => Action::Save,
        Phase::Done => Action::Finish,
        Phase::Failed(s) => Action::Abort(s),
    }
}

/// The phase after a sequence of events.
pub open spec fn phase_after(p: Phase, n: nat, es: Seq<Event>) -> Phase
    decreases es.len(),
{
    if es.len() == 0 {
        p
    } else {
        next_phase(phase_after(p, n, es.drop_last()), n, es.last())
    }
}

/// One send-mode run: the session it works on, how many destinations it
/// serves, and where it stands.
pub struct SendRun {
    pub session: Session,
    pub destinations: usize,
    pub phase: Phase,
}

impl SendRun {
    /// A destination index in the phase is one of the run's destinations.
    pub open spec fn wf(&self) -> bool {
        match self.phase {
            Phase::Resolving(i)
            | Phase::Joining(i)
            | Phase::AwaitingJoin(i)
            | Phase::Sending(i)
            | Phase::Refreshing(i) => i < self.destinations,
            _ => true,
        }
    }

    /// A run over `destinations` destinations; it starts with the bootstrap sync
    /// from the stored checkpoint, a full sync where none is stored.
    pub fn start(session: Session, destinations: usize) -> (r: SendRun)
        ensures
            r.wf(),
            r.session == session,
            r.destinations == destinations,
            r.phase == Phase::Bootstrap,
            pending(r.phase) == Action::Sync,
    {
        SendRun { session, destinations, phase: Phase::Bootstrap }
    }

    /// What the caller performs next.
    pub fn action(&self) -> (r: Action)
        ensures
            r == pending(self.phase),
    {
        match self.phase {
            Phase::Bootstrap => Action::Sync,
            Phase::Resolving(i) => Action::CheckRoom(i),
            Phase::Joining(i) => Action::Join(i),
            Phase::AwaitingJoin(i) => Action::AwaitJoin(i),
            Phase::Sending(i) => Action::Send(i),
            Phase::Refreshing(_) => Action::Sync,
            Phase::Collecting => Action::ReadTokens,
            Phase::Saving => Action::Save,
            Phase::Done => Action::Finish,
            Phase::Failed(s) => Action::Abort(s),
        }
    }

    /// Takes in what came of the last action.
    pub fn step(&mut self, e: Event)
        requires
            old(self).wf(),
        ensures
            final(self).wf(),
            final(self).destinations == old(self).destinations,
            final(self).phase == next_phase(old(self).phase, old(self).destinations as nat, e),
            final(self).session@ == next_session(old(self).phase, old(self).session@, e),
    {
        let n = self.destinations;
        if let Phase::Joining(i) = self.phase {
            match e {
                Event::JoinConfirmed(_) | Event::JoinFailed => {},
                _ => {
                    self.phase = Phase::AwaitingJoin(i);
                    return ;
                },
            }
        }
        match e {
            Event::Synced(t) => match self.phase {
                Phase::Bootstrap => {
                    self.session.record_sync(t);
                    self.phase = if n == 0 {
                        Phase::Collecting
                    } else {
                        Phase::Resolving(0)
                    };
                },
                Phase::Refreshing(i) => {
                    self.session.record_sync(t);
                    self.phase = if i + 1 < n {
                        Phase::Resolving(i + 1)
                    } else {
                        Phase::Collecting
                    };
                },
                _ => {},
            },
            Event::SyncFailed => match self.phase {
                Phase::Refreshing(i) => {
                    self.phase = Phase::Failed(Step::Refresh(i));
                },
                _ => {},
            },
            Event::Room(m) => match self.phase {
                Phase::Resolving(i) => {
                    self.phase = match m {
                        Membership::Joined => Phase::Sending(i),
                        Membership::NotJoined => Phase::Joining(i),
                    };
                },
                _ => {},
            },
            Event::JoinConfirmed(j) => match self.phase {
                Phase::Joining(i) => {
                    self.phase = if i == j {
                        Phase::Sending(i)
                    } else {
                        Phase::AwaitingJoin(i)
                    };
                },
                Phase::AwaitingJoin(i) => {
                    if i == j {
                        self.phase = Phase::Sending(i);
                    }
                },
                _ => {},
            },
            Event::JoinFailed => match self.phase {
                Phase::Joining(i) | Phase::AwaitingJoin(i) => {
                    self.phase = Phase::Failed(Step::Join(i));
                },
                _ => {},
            },
            Event::Sent => match self.phase {
                Phase::Sending(i) => {
                    self.phase = Phase::Refreshing(i);
                },
                _ => {},
            },
            Event::SendFailed => match self.phase {
                Phase::Sending(i) => {
                    self.phase = Phase::Failed(Step::Send(i));
                },
                _ => {},
            },
            Event::Tokens(a, r) => match self.phase {
                Phase::Collecting => {
                    self.session.record_tokens(a, r);
                    self.phase = Phase::Saving;
                },
                _ => {},
            },
            Event::Saved => match self.phase {
                Phase::Saving => {
                    self.phase = Phase::Done;
                },
                _ => {},
            },
            Event::SaveFailed => match self.phase {
                Phase::Saving => {
                    self.phase = Phase::Failed(Step::Save);
                },
                _ => {},
            },
        }
    }
}

/// Running events `a` and then `b` is running `a + b`.
pub proof fn lemma_phase_after_append(p: Phase, n: nat, a: Seq<Event>, b: Seq<Event>)
    ensures
        phase_after(p, n, a + b) == phase_after(phase_after(p, n, a), n, b),
    decreases b.len(),
{
    if b.len() == 0 {
        assert(a + b =~= a);
    } else {
        lemma_phase_after_append(p, n, a, b.drop_last());
        assert((a + b).drop_last() =~= a + b.drop_last());
        assert((a + b).last() == b.last());
    }
}

/// A failed run stays failed whatever comes after, and only ever asks to abort.
pub proof fn lemma_failure_is_final(s: Step, n: nat, es: Seq<Event>)
    ensures
        phase_after(Phase::Failed(s), n, es) == Phase::Failed(s),
        pending(phase_after(Phase::Failed(s), n, es)) == Action::Abort(s),
    decreases es.len(),
{
    if es.len() > 0 {
        lemma_failure_is_final(s, n, es.drop_last());
    }
}

/// When a send fails, the run fails on it, and whatever happens after it never
/// asks to write the session: the checkpoints and tokens of earlier
/// destinations are given up.
pub proof fn lemma_failed_send_never_saves(
    i: usize,
    n: nat,
    before: Seq<Event>,
    after: Seq<Event>,
)
    requires
        phase_after(Phase::Bootstrap, n, before) == Phase::Sending(i),
    ensures
        phase_after(Phase::Bootstrap, n, before.push(Event::SendFailed) + after) == Phase::Failed(
            Step::Send(i),
        ),
        pending(phase_after(Phase::Bootstrap, n, before.push(Event::SendFailed) + after))
            != Action::Save,
{
    let failed = before.push(Event::SendFailed);
    assert(failed.drop_last() =~= before);
    assert(phase_after(Phase::Bootstrap, n, failed) == Phase::Failed(Step::Send(i)));
    lemma_phase_after_append(Phase::Bootstrap, n, failed, after);
    lemma_failure_is_final(Step::Send(i), n, after);
}

/// A join is asked for at most once per resolution of a destination: the run
/// enters the phase that asks to join destination `i` only from resolving `i`,
/// and each later event moves it on.
pub proof fn lemma_join_asked_once(p: Phase, n: nat, e: Event, i: usize)
    ensures
        next_phase(p, n, e) == Phase::Joining(i) ==> p == Phase::Resolving(i),
        p == Phase::Joining(i) ==> next_phase(p, n, e) != Phase::Joining(i),
{
}

/// Destinations are served one at a time and in input order: the run turns to
/// destination `i` only from the first sync (for the first destination) or
/// from the sync after the send to destination `i - 1`.
pub proof fn lemma_destinations_in_order(p: Phase, n: nat, e: Event, i: usize)
    requires
        n <= usize::MAX,
        p != Phase::Resolving(i),
        next_phase(p, n, e) == Phase::Resolving(i),
    ensures
        i == 0 ==> p == Phase::Bootstrap,
        i > 0 ==> p == Phase::Refreshing((i - 1) as usize),
        e is Synced,
{
}

/// The session is written only once every destination is served: the run asks
/// to save only after taking the token pair, which it asks for only after the
/// last destination's sync.
pub proof fn lemma_save_follows_last_sync(p: Phase, n: nat, e: Event)
    requires
        pending(p) != Action::Save,
        pending(next_phase(p, n, e)) == Action::Save,
    ensures
        p == Phase::Collecting,
        e is Tokens,
{
}

/// The stored checkpoint is never rolled back nor dropped: where each sync
/// returns a checkpoint at or after the one it started from (`at_or_after`,
/// reflexive), the checkpoint stored after any event is at or after the one
/// stored before.
pub proof fn lemma_checkpoint_never_rolls_back(
    p: Phase,
    n: nat,
    m: SessionModel,
    e: Event,
    at_or_after: spec_fn(Seq<char>, Seq<char>) -> bool,
)
    requires
        forall|t: Seq<char>| #[trigger] at_or_after(t, t),
        pending(p) == Action::Sync ==> (e matches Event::Synced(t) ==> (m.sync_token matches Some(
            s,
        ) ==> at_or_after(s, t@))),
    ensures
        m.sync_token matches Some(s) ==> (next_session(p, m, e).sync_token matches Some(u)
            && at_or_after(s, u)),
        next_session(p, m, e).sync_token != m.sync_token ==> (pending(p) == Action::Sync
            && e is Synced),
{
}

/// The first send run after enrollment starts with a full sync: a session
/// without a checkpoint, as `Session::enrolled` makes it, is stored and read
/// back without one, the run asks first for a sync from the stored checkpoint
/// (none, so a full sync), and stores whatever checkpoint that sync returns.
pub proof fn lemma_first_run_syncs_in_full(m: SessionModel)
    requires
        m.valid(),
        is_user_id(m.user_id),
        m.sync_token.is_none(),
    ensures
        model_of(lifted(entries_of(m))).sync_token.is_none(),
        pending(Phase::Bootstrap) == Action::Sync,
        forall|t: String|
            #[trigger] next_session(
                Phase::Bootstrap,
                model_of(lifted(entries_of(m))),
                Event::Synced(t),
            ).sync_token == Some(t@),
{
    lemma_record_round_trip(m);
}

} // verus!

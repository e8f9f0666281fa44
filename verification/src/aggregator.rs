//! The offer aggregator: one state machine per session.
//!
//! Each session moves `Accumulating -> Sent -> Done`. Fragments append to
//! the composed offer while accumulating; the end-of-candidates sentinel or
//! the fallback gather timer completes gathering, which appends the
//! explicit end-of-candidates line and hands the composed text out for its
//! single HTTP exchange. The whole behaviour is pinned by the spec-level
//! transition function [`step`], of which the executable [`Aggregator`] is
//! proved a faithful implementation.

use vstd::prelude::*;
use vstd::string::*;

use crate::action::{actions_model, Action, ActionModel, GATHER_TIMEOUT_MS};
use crate::error::{ExchangeError, ProtocolViolation};
use crate::exchange::{interpret_outcome, outcome_result, ExchangeOutcome};
use crate::message::MessageModel;
use crate::message::WhipMessage;
use crate::sentinel::{candidate_is_sentinel, is_sentinel};

verus! {

/// The mathematical state of one session.
pub enum PhaseModel {
    /// Fragments are still being appended to the composed offer text.
    Accumulating { composed: Seq<char>, offer_received: bool },
    /// The composed offer was handed out for its single HTTP exchange.
    Sent,
    /// The exchange outcome was delivered, or the consumer left after the
    /// send; nothing more will ever be sent for this id.
    Done,
}

/// The line appended for one trickled candidate.
pub open spec fn candidate_line(candidate: Seq<char>) -> Seq<char> {
    "a="@ + candidate + "\n"@
}

/// The explicit marker appended when gathering completes.
pub open spec fn end_of_candidates_line() -> Seq<char> {
    "a=end-of-candidates\n"@
}

/// The body of the single HTTP exchange for a composed offer.
pub open spec fn finalized_body(composed: Seq<char>) -> Seq<char> {
    composed + end_of_candidates_line()
}

/// Gathering of `id` completes with composed text `composed`: the session
/// is marked sent and exactly one exchange of the finalized body is asked
/// for.
pub open spec fn gather_complete_step(
    m: Map<Seq<char>, PhaseModel>,
    id: Seq<char>,
    composed: Seq<char>,
) -> (Map<Seq<char>, PhaseModel>, Seq<ActionModel>) {
    (
        m.insert(id, PhaseModel::Sent),
        seq![ActionModel::Exchange { id, body: finalized_body(composed) }],
    )
}

/// An accepted candidate for a session whose composed text so far is
/// `composed`: append the candidate line, then complete if the candidate
/// is the end-of-candidates sentinel.
pub open spec fn ice_step_from(
    m: Map<Seq<char>, PhaseModel>,
    id: Seq<char>,
    composed: Seq<char>,
    offer_received: bool,
    candidate: Seq<char>,
) -> (Map<Seq<char>, PhaseModel>, Seq<ActionModel>) {
    let with_candidate = composed + candidate_line(candidate);
    if is_sentinel(candidate) {
        gather_complete_step(m, id, with_candidate)
    } else {
        (
            m.insert(id, PhaseModel::Accumulating { composed: with_candidate, offer_received }),
            Seq::<ActionModel>::empty(),
        )
    }
}

/// Effect of one trickled candidate.
pub open spec fn step_ice(
    m: Map<Seq<char>, PhaseModel>,
    id: Seq<char>,
    candidate: Seq<char>,
) -> (Map<Seq<char>, PhaseModel>, Seq<ActionModel>) {
    if m.contains_key(id) {
        match m[id] {
            PhaseModel::Accumulating { composed, offer_received } => ice_step_from(
                m,
                id,
                composed,
                offer_received,
                candidate,
            ),
            _ => (
                m,
                seq![
                    ActionModel::LogViolation { id, violation: ProtocolViolation::LateFragment }
                ],
            ),
        }
    } else {
        ice_step_from(m, id, Seq::<char>::empty(), false, candidate)
    }
}

/// Effect of the local SDP offer: appended in arrival order, arms the
/// fallback gather timer; a second offer for a live session is a protocol
/// violation, reported and dropped.
pub open spec fn step_sdp(m: Map<Seq<char>, PhaseModel>, id: Seq<char>, sdp: Seq<char>) -> (
    Map<Seq<char>, PhaseModel>,
    Seq<ActionModel>,
) {
    if m.contains_key(id) {
        match m[id] {
            PhaseModel::Accumulating { composed, offer_received } => if offer_received {
                (
                    m,
                    seq![
                        ActionModel::LogViolation {
                            id,
                            violation: ProtocolViolation::DuplicateOffer,
                        }
                    ],
                )
            } else {
                (
                    m.insert(
                        id,
                        PhaseModel::Accumulating { composed: composed + sdp, offer_received: true },
                    ),
                    seq![ActionModel::StartTimer { id, delay_ms: GATHER_TIMEOUT_MS }],
                )
            },
            _ => (
                m,
                seq![
                    ActionModel::LogViolation { id, violation: ProtocolViolation::LateFragment }
                ],
            ),
        }
    } else {
        (
            m.insert(id, PhaseModel::Accumulating { composed: sdp, offer_received: true }),
            seq![ActionModel::StartTimer { id, delay_ms: GATHER_TIMEOUT_MS }],
        )
    }
}

/// Effect of a teardown notice: destroys an accumulating session without
/// sending; a session already sent is only marked done, so the id can
/// never be sent again.
pub open spec fn step_removed(m: Map<Seq<char>, PhaseModel>, id: Seq<char>) -> (
    Map<Seq<char>, PhaseModel>,
    Seq<ActionModel>,
) {
    if m.contains_key(id) {
        match m[id] {
            PhaseModel::Accumulating { .. } => (m.remove(id), Seq::<ActionModel>::empty()),
            PhaseModel::Sent => (m.insert(id, PhaseModel::Done), Seq::<ActionModel>::empty()),
            PhaseModel::Done => (m, Seq::<ActionModel>::empty()),
        }
    } else {
        (m, Seq::<ActionModel>::empty())
    }
}

/// Effect of the fallback gather timer: completes a still-accumulating
/// session; everywhere else (already sent, done, or destroyed) a no-op.
pub open spec fn step_timeout(m: Map<Seq<char>, PhaseModel>, id: Seq<char>) -> (
    Map<Seq<char>, PhaseModel>,
    Seq<ActionModel>,
) {
    if m.contains_key(id) && m[id] is Accumulating {
        gather_complete_step(m, id, m[id]->Accumulating_composed)
    } else {
        (m, Seq::<ActionModel>::empty())
    }
}

/// The aggregator's transition function: next session table and the
/// actions asked of the caller, for one mailbox message.
pub open spec fn step(m: Map<Seq<char>, PhaseModel>, msg: MessageModel) -> (
    Map<Seq<char>, PhaseModel>,
    Seq<ActionModel>,
) {
    match msg {
        MessageModel::Ice { id, candidate, .. } => step_ice(m, id, candidate),
        MessageModel::Sdp { id, sdp } => step_sdp(m, id, sdp),
        MessageModel::ConsumerRemoved { id } => step_removed(m, id),
        MessageModel::GatherTimeout { id } => step_timeout(m, id),
    }
}

/// Effect of one exchange outcome: a session that was sent becomes done
/// and its answer or error is delivered; any other correlation is dropped.
pub open spec fn complete_step(
    m: Map<Seq<char>, PhaseModel>,
    id: Seq<char>,
    result: Result<Seq<char>, ExchangeError>,
) -> (Map<Seq<char>, PhaseModel>, Seq<ActionModel>) {
    if m.contains_key(id) && m[id] is Sent {
        (
            m.insert(id, PhaseModel::Done),
            match result {
                Ok(answer) => seq![ActionModel::DeliverAnswer { id, answer }],
                Err(error) => seq![ActionModel::ReportError { id, error }],
            },
        )
    } else {
        (m, Seq::<ActionModel>::empty())
    }
}

/// The session table after a sequence of messages.
pub open spec fn run(m: Map<Seq<char>, PhaseModel>, msgs: Seq<MessageModel>) -> Map<
    Seq<char>,
    PhaseModel,
>
    decreases msgs.len(),
{
    if msgs.len() == 0 {
        m
    } else {
        run(step(m, msgs.first()).0, msgs.drop_first())
    }
}

/// All actions emitted over a sequence of messages, in order.
pub open spec fn run_actions(m: Map<Seq<char>, PhaseModel>, msgs: Seq<MessageModel>) -> Seq<
    ActionModel,
>
    decreases msgs.len(),
{
    if msgs.len() == 0 {
        Seq::<ActionModel>::empty()
    } else {
        step(m, msgs.first()).1 + run_actions(step(m, msgs.first()).0, msgs.drop_first())
    }
}

/// One session record of the executable aggregator.
struct Session {
    id: String,
    phase: Phase,
}

/// The executable state of one session.
enum Phase {
    Accumulating { composed: String, offer_received: bool },
    Sent,
    Done,
}

spec fn phase_model(p: Phase) -> PhaseModel {
    match p {
        Phase::Accumulating { composed, offer_received } => PhaseModel::Accumulating {
            composed: composed@,
            offer_received,
        },
        Phase::Sent => PhaseModel::Sent,
        Phase::Done => PhaseModel::Done,
    }
}

spec fn sessions_map(s: Seq<Session>) -> Map<Seq<char>, PhaseModel>
    decreases s.len(),
{
    if s.len() == 0 {
        Map::<Seq<char>, PhaseModel>::empty()
    } else {
        sessions_map(s.drop_last()).insert(s.last().id@, phase_model(s.last().phase))
    }
}

spec fn distinct_ids(s: Seq<Session>) -> bool {
    forall|i: int, j: int| 0 <= i < j < s.len() ==> s[i].id@ != s[j].id@
}

proof fn lemma_map_index(s: Seq<Session>, i: int)
    requires
        0 <= i < s.len(),
        distinct_ids(s),
    ensures
        sessions_map(s).contains_key(s[i].id@),
        sessions_map(s)[s[i].id@] == phase_model(s[i].phase),
    decreases s.len(),
{
    if i < s.len() - 1 {
        let t = s.drop_last();
        assert(distinct_ids(t)) by {
            assert(forall|a: int, b: int|
                0 <= a < b < t.len() ==> t[a].id@ == s[a].id@ && t[b].id@ == s[b].id@);
        };
        lemma_map_index(t, i);
        assert(s.last().id@ != s[i].id@);
    }
}

proof fn lemma_map_no_index(s: Seq<Session>, id: Seq<char>)
    requires
        forall|i: int| 0 <= i < s.len() ==> s[i].id@ != id,
    ensures
        !sessions_map(s).contains_key(id),
    decreases s.len(),
{
    if s.len() > 0 {
        let t = s.drop_last();
        assert(forall|i: int| 0 <= i < t.len() ==> t[i].id@ == s[i].id@);
        lemma_map_no_index(t, id);
        assert(s.last().id@ != id);
    }
}

proof fn lemma_map_update(s: Seq<Session>, i: int, sess: Session)
    requires
        0 <= i < s.len(),
        distinct_ids(s),
        sess.id@ == s[i].id@,
    ensures
        distinct_ids(s.update(i, sess)),
        sessions_map(s.update(i, sess)) == sessions_map(s).insert(
            sess.id@,
            phase_model(sess.phase),
        ),
    decreases s.len(),
{
    let t = s.update(i, sess);
    assert(distinct_ids(t)) by {
        assert(forall|a: int|
            0 <= a < s.len() ==> t[a].id@ == s[a].id@);
    };
    if i == s.len() - 1 {
        assert(t.drop_last() =~= s.drop_last());
        assert(t.last() == sess);
        assert(sessions_map(t) =~= sessions_map(s).insert(sess.id@, phase_model(sess.phase)));
    } else {
        assert(t.drop_last() =~= s.drop_last().update(i, sess));
        assert(distinct_ids(s.drop_last())) by {
            assert(forall|a: int|
                0 <= a < s.len() - 1 ==> s.drop_last()[a].id@ == s[a].id@);
        };
        lemma_map_update(s.drop_last(), i, sess);
        assert(t.last() == s.last());
        assert(s.last().id@ != sess.id@);
        assert(sessions_map(t) =~= sessions_map(s).insert(sess.id@, phase_model(sess.phase)));
    }
}

proof fn lemma_map_push(s: Seq<Session>, sess: Session)
    requires
        distinct_ids(s),
        forall|i: int| 0 <= i < s.len() ==> s[i].id@ != sess.id@,
    ensures
        distinct_ids(s.push(sess)),
        sessions_map(s.push(sess)) == sessions_map(s).insert(sess.id@, phase_model(sess.phase)),
{
    let t = s.push(sess);
    assert(distinct_ids(t)) by {
        assert(forall|a: int| 0 <= a < s.len() ==> t[a].id@ == s[a].id@);
        assert(t[s.len() as int] == sess);
    };
    assert(t.drop_last() =~= s);
    assert(t.last() == sess);
}

proof fn lemma_map_remove(s: Seq<Session>, i: int)
    requires
        0 <= i < s.len(),
        distinct_ids(s),
    ensures
        distinct_ids(s.remove(i)),
        sessions_map(s.remove(i)) == sessions_map(s).remove(s[i].id@),
    decreases s.len(),
{
    let t = s.remove(i);
    assert(distinct_ids(t)) by {
        assert(forall|a: int|
            0 <= a < t.len() ==> t[a].id@ == (if a < i {
                s[a].id@
            } else {
                s[a + 1].id@
            }));
    };
    if i == s.len() - 1 {
        assert(t =~= s.drop_last());
        assert(forall|j: int| 0 <= j < t.len() ==> t[j].id@ == s[j].id@);
        lemma_map_no_index(t, s[i].id@);
        assert(sessions_map(t) =~= sessions_map(s).remove(s[i].id@));
    } else {
        let u = s.drop_last();
        assert(distinct_ids(u)) by {
            assert(forall|a: int| 0 <= a < u.len() ==> u[a].id@ == s[a].id@);
        };
        lemma_map_remove(u, i);
        assert(t.drop_last() =~= u.remove(i));
        assert(t.last() == s.last());
        assert(u[i].id@ == s[i].id@);
        assert(s.last().id@ != s[i].id@);
        assert(sessions_map(t) =~= sessions_map(s).remove(s[i].id@));
    }
}

/// The executable offer aggregator: the session table, keyed by session
/// id, proved to follow [`step`] and [`complete_step`].
pub struct Aggregator {
    sessions: Vec<Session>,
}

impl View for Aggregator {
    type V = Map<Seq<char>, PhaseModel>;

    closed spec fn view(&self) -> Map<Seq<char>, PhaseModel> {
        sessions_map(self.sessions@)
    }
}

impl Aggregator {
    /// Internal consistency: one record per session id.
    pub closed spec fn wf(&self) -> bool {
        distinct_ids(self.sessions@)
    }

    /// An aggregator with no sessions.
    pub fn new() -> (r: Aggregator)
        ensures
            r.wf(),
            r@ == Map::<Seq<char>, PhaseModel>::empty(),
    {
        Aggregator { sessions: Vec::new() }
    }

    fn find_index(&self, id: &String) -> (r: Option<usize>)
        requires
            self.wf(),
        ensures
            match r {
                Some(i) => i < self.sessions@.len() && self.sessions@[i as int].id@ == id@
                    && self@.contains_key(id@) && self@[id@] == phase_model(
                    self.sessions@[i as int].phase,
                ),
                None => !self@.contains_key(id@) && forall|j: int|
                    0 <= j < self.sessions@.len() ==> self.sessions@[j].id@ != id@,
            },
    {
        let n = self.sessions.len();
        let mut i: usize = 0;
        while i < n
            invariant
                n == self.sessions@.len(),
                i <= n,
                self.wf(),
                forall|j: int| 0 <= j < i ==> self.sessions@[j].id@ != id@,
            decreases n - i,
        {
            let s = &self.sessions[i];
            if s.id.eq(id) {
                proof {
                    lemma_map_index(self.sessions@, i as int);
                }
                return Some(i);
            }
            i += 1;
        }
        proof {
            lemma_map_no_index(self.sessions@, id@);
        }
        None
    }

    fn set_phase(&mut self, at: Option<usize>, id: String, phase: Phase)
        requires
            old(self).wf(),
            match at {
                Some(i) => i < old(self).sessions@.len() && old(self).sessions@[i as int].id@
                    == id@,
                None => forall|j: int|
                    0 <= j < old(self).sessions@.len() ==> old(self).sessions@[j].id@ != id@,
            },
        ensures
            final(self).wf(),
            final(self)@ == old(self)@.insert(id@, phase_model(phase)),
    {
        let ghost s0 = self.sessions@;
        let sess = Session { id, phase };
        match at {
            Some(i) => {
                proof {
                    lemma_map_update(s0, i as int, sess);
                }
                self.sessions[i] = sess;
            },
            None => {
                proof {
                    lemma_map_push(s0, sess);
                }
                self.sessions.push(sess);
            },
        }
    }

    fn remove_at(&mut self, i: usize)
        requires
            old(self).wf(),
            i < old(self).sessions@.len(),
        ensures
            final(self).wf(),
            final(self)@ == old(self)@.remove(old(self).sessions@[i as int].id@),
    {
        proof {
            lemma_map_remove(self.sessions@, i as int);
        }
        self.sessions.remove(i);
    }

    /// Accepted candidate: append its line to `composed`, then either
    /// complete the gather (sentinel) or keep accumulating.
    fn ice_into(
        &mut self,
        at: Option<usize>,
        id: String,
        candidate: String,
        composed: String,
        offer_received: bool,
    ) -> (acts: Vec<Action>)
        requires
            old(self).wf(),
            match at {
                Some(i) => i < old(self).sessions@.len() && old(self).sessions@[i as int].id@
                    == id@,
                None => forall|j: int|
                    0 <= j < old(self).sessions@.len() ==> old(self).sessions@[j].id@ != id@,
            },
        ensures
            final(self).wf(),
            final(self)@ == ice_step_from(old(self)@, id@, composed@, offer_received, candidate@).0,
            actions_model(acts@) == ice_step_from(
                old(self)@,
                id@,
                composed@,
                offer_received,
                candidate@,
            ).1,
    {
        let ghost composed0 = composed@;
        let mut with_candidate = composed;
        with_candidate.append("a=");
        with_candidate.append(candidate.as_str());
        with_candidate.append("\n");
        proof {
            assert(with_candidate@ =~= composed0 + candidate_line(candidate@));
        }
        let mut acts: Vec<Action> = Vec::new();
        if candidate_is_sentinel(candidate.as_str()) {
            let ghost acc0 = with_candidate@;
            let mut body = with_candidate;
            body.append("a=end-of-candidates\n");
            proof {
                assert(body@ =~= finalized_body(acc0));
            }
            self.set_phase(at, id.clone(), Phase::Sent);
            acts.push(Action::Exchange { id, body });
            proof {
                assert(actions_model(acts@) =~= ice_step_from(
                    old(self)@,
                    id@,
                    composed0,
                    offer_received,
                    candidate@,
                ).1);
            }
        } else {
            self.set_phase(
                at,
                id,
                Phase::Accumulating { composed: with_candidate, offer_received },
            );
            proof {
                assert(actions_model(acts@) =~= Seq::<ActionModel>::empty());
            }
        }
        acts
    }

    fn on_ice(&mut self, id: String, candidate: String) -> (acts: Vec<Action>)
        requires
            old(self).wf(),
        ensures
            final(self).wf(),
            final(self)@ == step_ice(old(self)@, id@, candidate@).0,
            actions_model(acts@) == step_ice(old(self)@, id@, candidate@).1,
    {
        let found = self.find_index(&id);
        match found {
            Some(i) => {
                let accumulating: bool;
                let mut composed = String::new();
                let mut offer_received = false;
                match &self.sessions[i].phase {
                    Phase::Accumulating { composed: c, offer_received: o } => {
                        accumulating = true;
                        composed = c.clone();
                        offer_received = *o;
                    },
                    _ => {
                        accumulating = false;
                    },
                }
                if accumulating {
                    self.ice_into(Some(i), id, candidate, composed, offer_received)
                } else {
                    let mut acts: Vec<Action> = Vec::new();
                    acts.push(
                        Action::LogViolation { id, violation: ProtocolViolation::LateFragment },
                    );
                    proof {
                        assert(actions_model(acts@) =~= step_ice(
                            old(self)@,
                            id@,
                            candidate@,
                        ).1);
                    }
                    acts
                }
            },
            None => {
                let composed = String::new();
                self.ice_into(None, id, candidate, composed, false)
            },
        }
    }

    fn on_sdp(&mut self, id: String, sdp: String) -> (acts: Vec<Action>)
        requires
            old(self).wf(),
        ensures
            final(self).wf(),
            final(self)@ == step_sdp(old(self)@, id@, sdp@).0,
            actions_model(acts@) == step_sdp(old(self)@, id@, sdp@).1,
    {
        let found = self.find_index(&id);
        let mut acts: Vec<Action> = Vec::new();
        match found {
            Some(i) => {
                let accumulating: bool;
                let mut composed = String::new();
                let mut offer_received = false;
                match &self.sessions[i].phase {
                    Phase::Accumulating { composed: c, offer_received: o } => {
                        accumulating = true;
                        composed = c.clone();
                        offer_received = *o;
                    },
                    _ => {
                        accumulating = false;
                    },
                }
                if accumulating && !offer_received {
                    let ghost composed0 = composed@;
                    composed.append(sdp.as_str());
                    proof {
                        assert(composed@ =~= composed0 + sdp@);
                    }
                    self.set_phase(
                        Some(i),
                        id.clone(),
                        Phase::Accumulating { composed, offer_received: true },
                    );
                    acts.push(Action::StartTimer { id, delay_ms: GATHER_TIMEOUT_MS });
                    proof {
                        assert(actions_model(acts@) =~= step_sdp(old(self)@, id@, sdp@).1);
                    }
                } else if accumulating {
                    acts.push(
                        Action::LogViolation { id, violation: ProtocolViolation::DuplicateOffer },
                    );
                    proof {
                        assert(actions_model(acts@) =~= step_sdp(old(self)@, id@, sdp@).1);
                    }
                } else {
                    acts.push(
                        Action::LogViolation { id, violation: ProtocolViolation::LateFragment },
                    );
                    proof {
                        assert(actions_model(acts@) =~= step_sdp(old(self)@, id@, sdp@).1);
                    }
                }
            },
            None => {
                self.set_phase(
                    None,
                    id.clone(),
                    Phase::Accumulating { composed: sdp, offer_received: true },
                );
                acts.push(Action::StartTimer { id, delay_ms: GATHER_TIMEOUT_MS });
                proof {
                    assert(actions_model(acts@) =~= step_sdp(old(self)@, id@, sdp@).1);
                }
            },
        }
        acts
    }

    fn on_removed(&mut self, id: String) -> (acts: Vec<Action>)
        requires
            old(self).wf(),
        ensures
            final(self).wf(),
            final(self)@ == step_removed(old(self)@, id@).0,
            actions_model(acts@) == step_removed(old(self)@, id@).1,
    {
        let found = self.find_index(&id);
        if let Some(i) = found {
            let accumulating = matches!(&self.sessions[i].phase, Phase::Accumulating { .. });
            let sent = matches!(&self.sessions[i].phase, Phase::Sent);
            if accumulating {
                self.remove_at(i);
            } else if sent {
                self.set_phase(Some(i), id, Phase::Done);
            }
        }
        let acts: Vec<Action> = Vec::new();
        proof {
            assert(actions_model(acts@) =~= Seq::<ActionModel>::empty());
        }
        acts
    }

    fn on_timeout(&mut self, id: String) -> (acts: Vec<Action>)
        requires
            old(self).wf(),
        ensures
            final(self).wf(),
            final(self)@ == step_timeout(old(self)@, id@).0,
            actions_model(acts@) == step_timeout(old(self)@, id@).1,
    {
        let found = self.find_index(&id);
        let mut acts: Vec<Action> = Vec::new();
        if let Some(i) = found {
            let accumulating: bool;
            let mut composed = String::new();
            match &self.sessions[i].phase {
                Phase::Accumulating { composed: c, .. } => {
                    accumulating = true;
                    composed = c.clone();
                },
                _ => {
                    accumulating = false;
                },
            }
            if accumulating {
                let ghost acc0 = composed@;
                let mut body = composed;
                body.append("a=end-of-candidates\n");
                proof {
                    assert(body@ =~= finalized_body(acc0));
                }
                self.set_phase(Some(i), id.clone(), Phase::Sent);
                acts.push(Action::Exchange { id, body });
                proof {
                    assert(actions_model(acts@) =~= step_timeout(old(self)@, id@).1);
                }
            }
        }
        proof {
            if acts@.len() == 0 {
                assert(actions_model(acts@) =~= Seq::<ActionModel>::empty());
            }
        }
        acts
    }

    /// Fold one mailbox message into the session table; the returned
    /// actions are exactly what [`step`] asks for.
    pub fn dispatch(&mut self, msg: WhipMessage) -> (acts: Vec<Action>)
        requires
            old(self).wf(),
        ensures
            final(self).wf(),
            final(self)@ == step(old(self)@, msg@).0,
            actions_model(acts@) == step(old(self)@, msg@).1,
    {
        match msg {
            WhipMessage::Ice { id, candidate, candix: _ } => self.on_ice(id, candidate),
            WhipMessage::Sdp { id, sdp } => self.on_sdp(id, sdp),
            WhipMessage::ConsumerRemoved { id } => self.on_removed(id),
            WhipMessage::GatherTimeout { id } => self.on_timeout(id),
        }
    }

    /// Correlate one exchange outcome back to its session: the session
    /// becomes done, and the answer or the error is delivered; exactly one
    /// of the two, exactly once.
    pub fn complete_exchange(&mut self, id: &String, outcome: ExchangeOutcome) -> (acts: Vec<
        Action,
    >)
        requires
            old(self).wf(),
        ensures
            final(self).wf(),
            final(self)@ == complete_step(old(self)@, id@, outcome_result(outcome)).0,
            actions_model(acts@) == complete_step(old(self)@, id@, outcome_result(outcome)).1,
    {
        let found = self.find_index(id);
        let mut acts: Vec<Action> = Vec::new();
        if let Some(i) = found {
            let sent = matches!(&self.sessions[i].phase, Phase::Sent);
            if sent {
                self.set_phase(Some(i), id.clone(), Phase::Done);
                match interpret_outcome(outcome) {
                    Ok(answer) => {
                        acts.push(Action::DeliverAnswer { id: id.clone(), answer });
                    },
                    Err(error) => {
                        acts.push(Action::ReportError { id: id.clone(), error });
                    },
                }
                proof {
                    assert(actions_model(acts@) =~= complete_step(
                        old(self)@,
                        id@,
                        outcome_result(outcome),
                    ).1);
                }
            }
        }
        proof {
            if acts@.len() == 0 {
                assert(actions_model(acts@) =~= Seq::<ActionModel>::empty());
            }
        }
        acts
    }
}

} // verus!

//! Global guarantees of the aggregator's transition function, proved once
//! over every possible message sequence.

use vstd::prelude::*;

use crate::action::{ActionModel, GATHER_TIMEOUT_MS};
use crate::aggregator::{complete_step, finalized_body, step, PhaseModel};
use crate::error::ExchangeError;
use crate::exchange::{is_success_status, outcome_result, ExchangeOutcome};
use crate::message::{message_session, MessageModel};
use crate::sentinel::is_sentinel;

verus! {

/// How many exchanges for session `id` a sequence of actions asks for.
pub open spec fn exchange_count(acts: Seq<ActionModel>, id: Seq<char>) -> nat
    decreases acts.len(),
{
    if acts.len() == 0 {
        0
    } else {
        (match acts.first() {
            ActionModel::Exchange { id: aid, .. } => if aid == id {
                1nat
            } else {
                0nat
            },
            _ => 0nat,
        }) + exchange_count(acts.drop_first(), id)
    }
}

/// How many exchanges for session `id` a whole message sequence asks for,
/// starting from session table `m`.
pub open spec fn run_exchange_count(
    m: Map<Seq<char>, PhaseModel>,
    msgs: Seq<MessageModel>,
    id: Seq<char>,
) -> nat
    decreases msgs.len(),
{
    if msgs.len() == 0 {
        0
    } else {
        exchange_count(step(m, msgs.first()).1, id) + run_exchange_count(
            step(m, msgs.first()).0,
            msgs.drop_first(),
            id,
        )
    }
}

/// The offer of session `id` has been handed out (or the id is finished):
/// it must never be sent again.
pub open spec fn sent_or_done(m: Map<Seq<char>, PhaseModel>, id: Seq<char>) -> bool {
    m.contains_key(id) && !(m[id] is Accumulating)
}

proof fn lemma_count_singleton(a: ActionModel, id: Seq<char>)
    ensures
        exchange_count(seq![a], id) == (match a {
            ActionModel::Exchange { id: aid, .. } => if aid == id {
                1nat
            } else {
                0nat
            },
            _ => 0nat,
        }),
{
    assert(seq![a].drop_first() =~= Seq::<ActionModel>::empty());
    assert(exchange_count(Seq::<ActionModel>::empty(), id) == 0);
}

/// One step asks for at most one exchange per session; an exchange for
/// `id` happens only on the transition that marks `id` sent; and once
/// `id` is sent or done it stays so.
pub proof fn lemma_step_exchange(
    m: Map<Seq<char>, PhaseModel>,
    msg: MessageModel,
    id: Seq<char>,
)
    ensures
        exchange_count(step(m, msg).1, id) <= 1,
        exchange_count(step(m, msg).1, id) == 1 ==> !sent_or_done(m, id) && sent_or_done(
            step(m, msg).0,
            id,
        ),
        sent_or_done(m, id) ==> sent_or_done(step(m, msg).0, id),
{
    let acts = step(m, msg).1;
    if acts.len() == 0 {
        assert(exchange_count(acts, id) == 0);
    } else {
        assert(acts =~= seq![acts.first()]);
        lemma_count_singleton(acts.first(), id);
    }
}

/// At most one exchange is ever asked for per session id, over any
/// message sequence whatsoever; none at all once the id was already sent.
pub proof fn lemma_at_most_one_exchange(
    m: Map<Seq<char>, PhaseModel>,
    msgs: Seq<MessageModel>,
    id: Seq<char>,
)
    ensures
        run_exchange_count(m, msgs, id) <= 1,
        sent_or_done(m, id) ==> run_exchange_count(m, msgs, id) == 0,
    decreases msgs.len(),
{
    if msgs.len() > 0 {
        lemma_step_exchange(m, msgs.first(), id);
        lemma_at_most_one_exchange(step(m, msgs.first()).0, msgs.drop_first(), id);
    }
}

/// Sessions are isolated: a message of one session never touches another
/// session's state and never triggers another session's exchange.
pub proof fn lemma_session_isolation(
    m: Map<Seq<char>, PhaseModel>,
    msg: MessageModel,
    other: Seq<char>,
)
    requires
        other != message_session(msg),
    ensures
        step(m, msg).0.contains_key(other) == m.contains_key(other),
        m.contains_key(other) ==> step(m, msg).0[other] == m[other],
        exchange_count(step(m, msg).1, other) == 0,
{
    let acts = step(m, msg).1;
    if acts.len() == 0 {
        assert(exchange_count(acts, other) == 0);
    } else {
        assert(acts =~= seq![acts.first()]);
        lemma_count_singleton(acts.first(), other);
    }
}

/// Accepting an offer always arms the fallback gather timer.
pub proof fn lemma_offer_arms_timer(m: Map<Seq<char>, PhaseModel>, id: Seq<char>, sdp: Seq<char>)
    requires
        !m.contains_key(id) || (m[id] is Accumulating && !m[id]->Accumulating_offer_received),
    ensures
        step(m, MessageModel::Sdp { id, sdp }).1 =~= (seq![
            ActionModel::StartTimer { id, delay_ms: GATHER_TIMEOUT_MS },
        ]),
        step(m, MessageModel::Sdp { id, sdp }).0[id] is Accumulating,
{
}

/// The fallback path always completes gathering: if the timer fires while
/// the session is still accumulating, the session is sent and exactly its
/// finalized composed text is asked to be exchanged.
pub proof fn lemma_timeout_completes(m: Map<Seq<char>, PhaseModel>, id: Seq<char>)
    requires
        m.contains_key(id),
        m[id] is Accumulating,
    ensures
        step(m, MessageModel::GatherTimeout { id }).0[id] is Sent,
        step(m, MessageModel::GatherTimeout { id }).1 =~= (seq![
            ActionModel::Exchange { id, body: finalized_body(m[id]->Accumulating_composed) },
        ]),
{
}

/// If the end-of-candidates sentinel wins the race, the exchange fires at
/// once and the later timer firing is a no-op.
pub proof fn lemma_sentinel_preempts_timer(
    m: Map<Seq<char>, PhaseModel>,
    id: Seq<char>,
    candidate: Seq<char>,
    candix: u32,
)
    requires
        is_sentinel(candidate),
        !m.contains_key(id) || m[id] is Accumulating,
    ensures
        ({
            let m1 = step(m, MessageModel::Ice { id, candidate, candix }).0;
            let acts1 = step(m, MessageModel::Ice { id, candidate, candix }).1;
            &&& m1[id] is Sent
            &&& exchange_count(acts1, id) == 1
            &&& step(m1, MessageModel::GatherTimeout { id }).0 == m1
            &&& step(m1, MessageModel::GatherTimeout { id }).1 =~= Seq::<ActionModel>::empty()
        }),
{
    let acts1 = step(m, MessageModel::Ice { id, candidate, candix }).1;
    assert(acts1 =~= seq![acts1.first()]);
    lemma_count_singleton(acts1.first(), id);
}

/// Round trip: a successful exchange outcome for a sent session delivers
/// exactly the answered body back, tagged with the same session id, and
/// finishes the session.
pub proof fn lemma_answer_round_trip(
    m: Map<Seq<char>, PhaseModel>,
    id: Seq<char>,
    answer: Seq<char>,
)
    requires
        m.contains_key(id),
        m[id] is Sent,
    ensures
        complete_step(m, id, Ok(answer)).1 =~= (seq![ActionModel::DeliverAnswer { id, answer }]),
        complete_step(m, id, Ok(answer)).0[id] is Done,
{
}

/// A non-success HTTP status is reported as exactly one rejection carrying
/// that status, and nothing is retried.
pub proof fn lemma_rejection_reported(
    m: Map<Seq<char>, PhaseModel>,
    id: Seq<char>,
    status: u16,
    body: String,
)
    requires
        m.contains_key(id),
        m[id] is Sent,
        !is_success_status(status),
    ensures
        ({
            let r = outcome_result(ExchangeOutcome::Response { status, body });
            &&& r == Err::<Seq<char>, ExchangeError>(ExchangeError::Rejected(status))
            &&& complete_step(m, id, r).1 =~= (seq![
                ActionModel::ReportError { id, error: ExchangeError::Rejected(status) },
            ])
            &&& complete_step(m, id, r).0[id] is Done
        }),
{
}

} // verus!

//! The signalling facade: the surface the owning media element drives.
//!
//! `start` connects (mailbox plus aggregator, with a settings snapshot),
//! the `handle_*` operations enqueue fragments, `process_next` is one turn
//! of the sender loop, and `stop` closes the mailbox, drains every queued
//! message and disconnects, so that no message is ever processed after
//! `stop` returns. All outward effects come back as [`Action`]s for the
//! caller to perform.

use vstd::prelude::*;
use vstd::string::*;

use crate::action::{actions_model, Action, ActionModel};
use crate::aggregator::{complete_step, run, run_actions, step, Aggregator, PhaseModel};
use crate::error::DeliveryError;
use crate::exchange::{outcome_result, ExchangeOutcome};
use crate::mailbox::Mailbox;
use crate::message::{MessageModel, WhipMessage};

verus! {

/// The bound of the controller mailbox: large enough for bursty candidate
/// trickling, finite so that messages never pile up without bound.
pub const MAILBOX_CAPACITY: usize = 1000;

/// The configuration surface consumed (not owned) by the controller.
pub struct Settings {
    /// The signalling endpoint address.
    pub address: Option<String>,
    /// Path to a certificate file to trust as a TLS root, if any.
    pub cafile: Option<String>,
}

/// The value of an optional string, seen mathematically.
pub open spec fn opt_text(o: Option<String>) -> Option<Seq<char>> {
    match o {
        Some(s) => Some(s@),
        None => None,
    }
}

impl Default for Settings {
    /// The default address; no trusted certificate file.
    fn default() -> (r: Settings)
        ensures
            opt_text(r.address) == Some("ws://127.0.0.1:8443"@),
            r.cafile is None,
    {
        Settings { address: Some("ws://127.0.0.1:8443".to_owned()), cafile: None }
    }
}

/// Everything owned only while connected: the mailbox, the session table,
/// and the settings snapshot taken at connect time.
struct Connection {
    mailbox: Mailbox,
    aggregator: Aggregator,
    endpoint: Option<String>,
}

/// One signaller instance: settings plus the optional connection.
pub struct Signaller {
    settings: Settings,
    conn: Option<Connection>,
}

impl Default for Signaller {
    /// A disconnected signaller with the default settings.
    fn default() -> (r: Signaller)
        ensures
            r.wf(),
            !r.is_connected(),
            r.address_setting() == Some("ws://127.0.0.1:8443"@),
            r.cafile_setting() is None,
    {
        Signaller { settings: Settings::default(), conn: None }
    }
}

impl Signaller {
    /// Whether `start` has connected and `stop` has not yet torn down.
    pub closed spec fn is_connected(&self) -> bool {
        self.conn is Some
    }

    /// The queued, not yet processed messages, oldest first.
    pub closed spec fn queued(&self) -> Seq<MessageModel> {
        match self.conn {
            Some(c) => c.mailbox.contents(),
            None => Seq::<MessageModel>::empty(),
        }
    }

    /// The session table of the connected aggregator.
    pub closed spec fn sessions(&self) -> Map<Seq<char>, PhaseModel> {
        match self.conn {
            Some(c) => c.aggregator@,
            None => Map::<Seq<char>, PhaseModel>::empty(),
        }
    }

    /// Whether an enqueue would be accepted as far as the mailbox state
    /// (not its fill) is concerned.
    pub closed spec fn mailbox_open(&self) -> bool {
        match self.conn {
            Some(c) => !c.mailbox.is_closed(),
            None => false,
        }
    }

    /// The mailbox bound.
    pub closed spec fn queue_capacity(&self) -> usize {
        match self.conn {
            Some(c) => c.mailbox.capacity(),
            None => 0,
        }
    }

    /// The endpoint address snapshot taken when the connection was made;
    /// later settings changes do not affect it.
    pub closed spec fn endpoint(&self) -> Option<Seq<char>> {
        match self.conn {
            Some(c) => opt_text(c.endpoint),
            None => None,
        }
    }

    /// The currently configured endpoint address.
    pub closed spec fn address_setting(&self) -> Option<Seq<char>> {
        opt_text(self.settings.address)
    }

    /// The currently configured certificate file path.
    pub closed spec fn cafile_setting(&self) -> Option<Seq<char>> {
        opt_text(self.settings.cafile)
    }

    /// Internal consistency of the connected state.
    pub closed spec fn wf(&self) -> bool {
        match self.conn {
            Some(c) => c.aggregator.wf(),
            None => true,
        }
    }

    /// The settings are as they were.
    pub open spec fn settings_unchanged(pre: &Signaller, post: &Signaller) -> bool {
        post.address_setting() == pre.address_setting() && post.cafile_setting()
            == pre.cafile_setting()
    }

    /// The connection (mailbox, sessions, snapshot) is as it was.
    pub open spec fn connection_unchanged(pre: &Signaller, post: &Signaller) -> bool {
        &&& post.is_connected() == pre.is_connected()
        &&& post.queued() == pre.queued()
        &&& post.sessions() == pre.sessions()
        &&& post.mailbox_open() == pre.mailbox_open()
        &&& post.queue_capacity() == pre.queue_capacity()
        &&& post.endpoint() == pre.endpoint()
    }

    /// Configure the endpoint address; an absent address is refused and
    /// changes nothing.
    pub fn set_address(&mut self, address: Option<String>) -> (accepted: bool)
        ensures
            final(self).wf() == old(self).wf(),
            Signaller::connection_unchanged(old(self), final(self)),
            final(self).cafile_setting() == old(self).cafile_setting(),
            match address {
                Some(a) => accepted && final(self).address_setting() == Some(a@),
                None => !accepted && final(self).address_setting() == old(
                    self,
                ).address_setting(),
            },
    {
        match address {
            Some(a) => {
                self.settings.address = Some(a);
                true
            },
            None => false,
        }
    }

    /// Configure the certificate file path.
    pub fn set_cafile(&mut self, cafile: String)
        ensures
            final(self).wf() == old(self).wf(),
            Signaller::connection_unchanged(old(self), final(self)),
            final(self).address_setting() == old(self).address_setting(),
            final(self).cafile_setting() == Some(cafile@),
    {
        self.settings.cafile = Some(cafile);
    }

    /// Read the configured endpoint address.
    pub fn address(&self) -> (r: Option<String>)
        ensures
            opt_text(r) == self.address_setting(),
    {
        match &self.settings.address {
            Some(a) => Some(a.clone()),
            None => None,
        }
    }

    /// Read the configured certificate file path.
    pub fn cafile(&self) -> (r: Option<String>)
        ensures
            opt_text(r) == self.cafile_setting(),
    {
        match &self.settings.cafile {
            Some(a) => Some(a.clone()),
            None => None,
        }
    }

    /// Read the endpoint address snapshot of the current connection.
    pub fn endpoint_address(&self) -> (r: Option<String>)
        ensures
            opt_text(r) == self.endpoint(),
    {
        match &self.conn {
            Some(c) => match &c.endpoint {
                Some(e) => Some(e.clone()),
                None => None,
            },
            None => None,
        }
    }

    /// Connect: create the bounded mailbox and the empty session table,
    /// snapshot the settings, and announce the consumer. Idempotent: a
    /// second `start` changes nothing and asks for nothing.
    pub fn start(&mut self) -> (acts: Vec<Action>)
        requires
            old(self).wf(),
        ensures
            final(self).wf(),
            Signaller::settings_unchanged(old(self), final(self)),
            old(self).is_connected() ==> Signaller::connection_unchanged(old(self), final(self))
                && acts@.len() == 0,
            !old(self).is_connected() ==> {
                &&& final(self).is_connected()
                &&& final(self).queued() == Seq::<MessageModel>::empty()
                &&& final(self).sessions() == Map::<Seq<char>, PhaseModel>::empty()
                &&& final(self).mailbox_open()
                &&& final(self).queue_capacity() == MAILBOX_CAPACITY
                &&& final(self).endpoint() == old(self).address_setting()
                &&& actions_model(acts@) =~= (seq![ActionModel::AddConsumer { id: "xid"@ }])
            },
    {
        if self.conn.is_some() {
            return Vec::new();
        }
        let endpoint = match &self.settings.address {
            Some(a) => Some(a.clone()),
            None => None,
        };
        self.conn = Some(
            Connection {
                mailbox: Mailbox::new(MAILBOX_CAPACITY),
                aggregator: Aggregator::new(),
                endpoint,
            },
        );
        let mut acts: Vec<Action> = Vec::new();
        acts.push(Action::AddConsumer { id: "xid".to_owned() });
        proof {
            assert(actions_model(acts@) =~= seq![ActionModel::AddConsumer { id: "xid"@ }]);
        }
        acts
    }

    /// The full behaviour of enqueueing `msg`: everything but the queue
    /// is untouched, and the message is appended exactly when the mailbox
    /// is open and below its bound, otherwise refused with the reason.
    pub open spec fn enqueued(
        pre: Signaller,
        post: Signaller,
        msg: MessageModel,
        r: Result<(), DeliveryError>,
    ) -> bool {
        &&& Signaller::settings_unchanged(&pre, &post)
        &&& post.is_connected() == pre.is_connected()
        &&& post.sessions() == pre.sessions()
        &&& post.mailbox_open() == pre.mailbox_open()
        &&& post.queue_capacity() == pre.queue_capacity()
        &&& post.endpoint() == pre.endpoint()
        &&& !pre.mailbox_open() ==> r == Err::<(), DeliveryError>(DeliveryError::Closed)
            && post.queued() == pre.queued()
        &&& pre.mailbox_open() && pre.queued().len() >= pre.queue_capacity() ==> r == Err::<
            (),
            DeliveryError,
        >(DeliveryError::Full) && post.queued() == pre.queued()
        &&& pre.mailbox_open() && pre.queued().len() < pre.queue_capacity() ==> r == Ok::<
            (),
            DeliveryError,
        >(()) && post.queued() == pre.queued().push(msg)
    }

    /// Enqueue one message: accepted exactly when connected, open and
    /// below the bound; otherwise refused with the reason.
    fn enqueue(&mut self, msg: WhipMessage) -> (r: Result<(), DeliveryError>)
        requires
            old(self).wf(),
        ensures
            final(self).wf(),
            Signaller::enqueued(*old(self), *final(self), msg@, r),
    {
        match &mut self.conn {
            None => Err(DeliveryError::Closed),
            Some(c) => c.mailbox.send(msg),
        }
    }

    /// Enqueue the local SDP offer of session `peer_id`.
    pub fn handle_sdp(&mut self, peer_id: &str, sdp: &str) -> (r: Result<(), DeliveryError>)
        requires
            old(self).wf(),
        ensures
            final(self).wf(),
            Signaller::enqueued(
                *old(self),
                *final(self),
                (MessageModel::Sdp { id: peer_id@, sdp: sdp@ }),
                r,
            ),
    {
        self.enqueue(WhipMessage::Sdp { id: peer_id.to_owned(), sdp: sdp.to_owned() })
    }

    /// Enqueue one trickled ICE candidate of session `peer_id`. The media
    /// line index must be present; its absence is a caller error, not a
    /// recoverable signalling condition.
    pub fn handle_ice(
        &mut self,
        peer_id: &str,
        candidate: &str,
        sdp_m_line_index: Option<u32>,
        _sdp_mid: Option<String>,
    ) -> (r: Result<(), DeliveryError>)
        requires
            old(self).wf(),
            sdp_m_line_index is Some,
        ensures
            final(self).wf(),
            Signaller::enqueued(
                *old(self),
                *final(self),
                (MessageModel::Ice {
                    id: peer_id@,
                    candidate: candidate@,
                    candix: sdp_m_line_index->0,
                }),
                r,
            ),
    {
        self.enqueue(
            WhipMessage::Ice {
                id: peer_id.to_owned(),
                candidate: candidate.to_owned(),
                candix: sdp_m_line_index.unwrap(),
            },
        )
    }

    /// Enqueue the teardown notice of session `peer_id`.
    pub fn consumer_removed(&mut self, peer_id: &str) -> (r: Result<(), DeliveryError>)
        requires
            old(self).wf(),
        ensures
            final(self).wf(),
            Signaller::enqueued(
                *old(self),
                *final(self),
                (MessageModel::ConsumerRemoved { id: peer_id@ }),
                r,
            ),
    {
        self.enqueue(WhipMessage::ConsumerRemoved { id: peer_id.to_owned() })
    }

    /// Enqueue the synthetic gather-timeout event of session `peer_id`;
    /// called by the timer the caller armed for a `StartTimer` action.
    pub fn gather_timeout(&mut self, peer_id: &str) -> (r: Result<(), DeliveryError>)
        requires
            old(self).wf(),
        ensures
            final(self).wf(),
            Signaller::enqueued(
                *old(self),
                *final(self),
                (MessageModel::GatherTimeout { id: peer_id@ }),
                r,
            ),
    {
        self.enqueue(WhipMessage::GatherTimeout { id: peer_id.to_owned() })
    }

    /// One turn of the sender loop: dequeue the oldest message and fold it
    /// into the session table; `None` when there is nothing to do.
    pub fn process_next(&mut self) -> (r: Option<Vec<Action>>)
        requires
            old(self).wf(),
        ensures
            final(self).wf(),
            Signaller::settings_unchanged(old(self), final(self)),
            final(self).is_connected() == old(self).is_connected(),
            final(self).mailbox_open() == old(self).mailbox_open(),
            final(self).queue_capacity() == old(self).queue_capacity(),
            final(self).endpoint() == old(self).endpoint(),
            old(self).queued().len() == 0 ==> r is None && final(self).queued() == old(
                self,
            ).queued() && final(self).sessions() == old(self).sessions(),
            old(self).queued().len() > 0 ==> r is Some && final(self).queued() =~= old(
                self,
            ).queued().drop_first() && final(self).sessions() == step(
                old(self).sessions(),
                old(self).queued().first(),
            ).0 && actions_model(r->0@) == step(old(self).sessions(), old(self).queued().first()).1,
    {
        match &mut self.conn {
            None => None,
            Some(c) => {
                match c.mailbox.pop_front() {
                    None => None,
                    Some(msg) => Some(c.aggregator.dispatch(msg)),
                }
            },
        }
    }

    /// Correlate one exchange outcome back to its session.
    pub fn handle_exchange_result(&mut self, peer_id: &str, outcome: ExchangeOutcome) -> (acts:
        Vec<Action>)
        requires
            old(self).wf(),
        ensures
            final(self).wf(),
            Signaller::settings_unchanged(old(self), final(self)),
            final(self).is_connected() == old(self).is_connected(),
            final(self).queued() == old(self).queued(),
            final(self).mailbox_open() == old(self).mailbox_open(),
            final(self).queue_capacity() == old(self).queue_capacity(),
            final(self).endpoint() == old(self).endpoint(),
            !old(self).is_connected() ==> acts@.len() == 0 && final(self).sessions() == old(
                self,
            ).sessions(),
            old(self).is_connected() ==> final(self).sessions() == complete_step(
                old(self).sessions(),
                peer_id@,
                outcome_result(outcome),
            ).0 && actions_model(acts@) == complete_step(
                old(self).sessions(),
                peer_id@,
                outcome_result(outcome),
            ).1,
    {
        match &mut self.conn {
            None => Vec::new(),
            Some(c) => {
                let id = peer_id.to_owned();
                c.aggregator.complete_exchange(&id, outcome)
            },
        }
    }

    /// Shut down: close the mailbox, drain and process every message that
    /// was already queued, and disconnect. After `stop` returns, nothing
    /// is connected and no message will ever be processed again.
    pub fn stop(&mut self) -> (acts: Vec<Action>)
        requires
            old(self).wf(),
        ensures
            final(self).wf(),
            Signaller::settings_unchanged(old(self), final(self)),
            !final(self).is_connected(),
            !old(self).is_connected() ==> acts@.len() == 0,
            old(self).is_connected() ==> actions_model(acts@) == run_actions(
                old(self).sessions(),
                old(self).queued(),
            ),
    {
        let taken = self.conn.take();
        match taken {
            None => Vec::new(),
            Some(mut conn) => {
                conn.mailbox.close();
                let ghost m0 = conn.aggregator@;
                let ghost q0 = conn.mailbox.contents();
                let mut acts: Vec<Action> = Vec::new();
                proof {
                    assert(actions_model(acts@) =~= Seq::<ActionModel>::empty());
                }
                while conn.mailbox.len() > 0
                    invariant
                        conn.aggregator.wf(),
                        run(conn.aggregator@, conn.mailbox.contents()) == run(m0, q0),
                        actions_model(acts@) + run_actions(conn.aggregator@, conn.mailbox.contents())
                            == run_actions(m0, q0),
                    decreases conn.mailbox.contents().len(),
                {
                    let ghost acts_pre = actions_model(acts@);
                    let ghost m_pre = conn.aggregator@;
                    let ghost q_pre = conn.mailbox.contents();
                    let msg = conn.mailbox.pop_front().unwrap();
                    let mut step_acts = conn.aggregator.dispatch(msg);
                    let ghost step_models = actions_model(step_acts@);
                    acts.append(&mut step_acts);
                    proof {
                        assert(actions_model(acts@) =~= acts_pre + step_models);
                        assert(run_actions(m_pre, q_pre) == step(m_pre, q_pre.first()).1
                            + run_actions(
                            step(m_pre, q_pre.first()).0,
                            q_pre.drop_first(),
                        ));
                    }
                }
                acts
            },
        }
    }
}

} // verus!

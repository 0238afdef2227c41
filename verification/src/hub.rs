//! The session hub: the registry of connected game sessions, the
//! current-user singleton, and the rules that decide what every inbound
//! message or frame does to them.
//!
//! Each session owns an outbox, the ordered sequence of messages the
//! launcher has decided to send it; the embedding application drains an
//! outbox and writes its content to the session's socket. Because every
//! session has its own outbox, a slow or dead session never holds up
//! delivery to the others.

use vstd::prelude::*;
use vstd::string::StringExecFns;
use crate::errors::LauncherError;
use crate::protocol::{FrameAction, InboundFrame, MessageView, WebSocketMessage};
use crate::user::{UserInfo, UserInfoView};

verus! {

/// One live connection from a game process: its generated id and the
/// messages decided for it but not yet written to its socket.
pub struct Session {
    pub id: String,
    pub outbox: Vec<WebSocketMessage>,
}

impl Session {
    /// The outbox as a sequence of message values.
    pub open spec fn outbox_view(&self) -> Seq<MessageView> {
        self.outbox@.map_values(|m: WebSocketMessage| m@)
    }
}

/// The messages a session receives the moment it is registered: first its
/// own id, then the current user if one is set.
pub open spec fn welcome_messages(id: Seq<char>, user: Option<UserInfoView>) -> Seq<MessageView> {
    match user {
        Some(u) => seq![
            MessageView::ConnectionEstablished { session_id: id },
            MessageView::UserInfo(u),
        ],
        None => seq![MessageView::ConnectionEstablished { session_id: id }],
    }
}

/// The replies an inbound message earns: the current user (or an error)
/// for `GetUserInfo`, a pong for a ping, and nothing for any kind that
/// only ever travels towards the game.
pub open spec fn replies_to(msg: MessageView, user: Option<UserInfoView>) -> Seq<MessageView> {
    match msg {
        MessageView::GetUserInfo => match user {
            Some(u) => seq![MessageView::UserInfo(u)],
            None => seq![MessageView::Error { message: "User not logged in"@ }],
        },
        MessageView::Ping => seq![MessageView::Pong],
        _ => Seq::empty(),
    }
}

/// Relates two registry states in which the session named `id` had `msgs`
/// appended to its outbox and every other session stayed as it was.
pub open spec fn appends_to_session(
    pre: Seq<Session>,
    post: Seq<Session>,
    id: Seq<char>,
    msgs: Seq<MessageView>,
) -> bool {
    &&& post.len() == pre.len()
    &&& forall|i: int| 0 <= i < pre.len() ==> #[trigger] post[i].id@ == pre[i].id@
    &&& forall|i: int|
        0 <= i < pre.len() && pre[i].id@ == id ==> #[trigger] post[i].outbox_view() == pre[
            i
        ].outbox_view() + msgs
    &&& forall|i: int|
        0 <= i < pre.len() && pre[i].id@ != id ==> #[trigger] post[i].outbox_view() == pre[
            i
        ].outbox_view()
}

/// Relates two registry states in which every session had `msg` appended
/// to its outbox.
pub open spec fn broadcasts_to_all(pre: Seq<Session>, post: Seq<Session>, msg: MessageView) -> bool {
    &&& post.len() == pre.len()
    &&& forall|i: int| 0 <= i < pre.len() ==> #[trigger] post[i].id@ == pre[i].id@
    &&& forall|i: int|
        0 <= i < pre.len() ==> #[trigger] post[i].outbox_view() == pre[i].outbox_view().push(msg)
}

/// The pub/sub hub behind the local socket server. It owns the session
/// registry and the current-user singleton; every change to either goes
/// through the operations below.
pub struct SessionHub {
    pub sessions: Vec<Session>,
    pub user_info: Option<UserInfo>,
}

impl SessionHub {
    /// Session ids never repeat in the registry.
    pub open spec fn wf(&self) -> bool {
        forall|i: int, j: int|
            0 <= i < j < self.sessions@.len() ==> self.sessions@[i].id@ != self.sessions@[j].id@
    }

    /// Whether a session with this id is registered.
    pub open spec fn contains_session(&self, id: Seq<char>) -> bool {
        exists|i: int| 0 <= i < self.sessions@.len() && self.sessions@[i].id@ == id
    }

    /// The current-user singleton as a value.
    pub open spec fn user_view(&self) -> Option<UserInfoView> {
        match self.user_info {
            Some(u) => Some(u@),
            None => None,
        }
    }

    /// A hub with no sessions and no user set.
    pub fn new() -> (r: Self)
        ensures
            r.wf(),
            r.sessions@.len() == 0,
            r.user_view() is None,
    {
        SessionHub { sessions: Vec::new(), user_info: None }
    }

    /// The position of the session with this id, if any.
    fn find_session(&self, id: &String) -> (r: Option<usize>)
        ensures
            match r {
                Some(i) => i < self.sessions@.len() && self.sessions@[i as int].id@ == id@,
                None => !self.contains_session(id@),
            },
    {
        let n = self.sessions.len();
        let mut k: usize = 0;
        while k < n
            invariant
                k <= n,
                n == self.sessions@.len(),
                forall|j: int| 0 <= j < k ==> self.sessions@[j].id@ != id@,
            decreases n - k,
        {
            if self.sessions[k].id == *id {
                return Some(k);
            }
            k += 1;
        }
        None
    }

    /// Registers a session under a caller-supplied id and queues its
    /// welcome messages: `ConnectionEstablished` first, then the current
    /// user if one is set.
    pub fn register_session(&mut self, session_id: String) -> (r: Result<(), LauncherError>)
        requires
            old(self).wf(),
        ensures
            final(self).wf(),
            final(self).user_view() == old(self).user_view(),
            match r {
                Ok(()) => {
                    &&& !old(self).contains_session(session_id@)
                    &&& final(self).sessions@.len() == old(self).sessions@.len() + 1
                    &&& forall|i: int|
                        0 <= i < old(self).sessions@.len() ==> final(self).sessions@[i] == old(self).sessions@[i]
                    &&& final(self).sessions@.last().id@ == session_id@
                    &&& final(self).sessions@.last().outbox_view() == welcome_messages(
                        session_id@,
                        old(self).user_view(),
                    )
                },
                Err(e) => {
                    &&& e is AlreadyRegistered
                    &&& old(self).contains_session(session_id@)
                    &&& *final(self) == *old(self)
                },
            },
    {
        match self.find_session(&session_id) {
            Some(i) => {
                proof {
                    assert(self.sessions@[i as int].id@ == session_id@);
                }
                Err(LauncherError::AlreadyRegistered)
            },
            None => {
                let mut outbox: Vec<WebSocketMessage> = Vec::new();
                outbox.push(
                    WebSocketMessage::ConnectionEstablished { session_id: session_id.clone() },
                );
                match &self.user_info {
                    Some(u) => {
                        outbox.push(WebSocketMessage::UserInfo(u.clone()));
                    },
                    None => {},
                }
                let session = Session { id: session_id, outbox };
                proof {
                    assert(session.outbox_view() =~= welcome_messages(
                        session.id@,
                        self.user_view(),
                    ));
                }
                self.sessions.push(session);
                Ok(())
            },
        }
    }

    /// Registers a session under a freshly generated id and returns the
    /// id. The id generator gives no guarantee of uniqueness, so a clash
    /// with a registered session surfaces as the same failure a known id
    /// would; on an empty registry no drawn id can clash, so the first
    /// connection always succeeds.
    pub fn connect(&mut self) -> (r: Result<String, LauncherError>)
        requires
            old(self).wf(),
        ensures
            final(self).wf(),
            final(self).user_view() == old(self).user_view(),
            match r {
                Ok(id) => {
                    &&& !old(self).contains_session(id@)
                    &&& final(self).sessions@.len() == old(self).sessions@.len() + 1
                    &&& forall|i: int|
                        0 <= i < old(self).sessions@.len() ==> final(self).sessions@[i] == old(self).sessions@[i]
                    &&& final(self).sessions@.last().id@ == id@
                    &&& final(self).sessions@.last().outbox_view() == welcome_messages(
                        id@,
                        old(self).user_view(),
                    )
                },
                Err(e) => {
                    &&& e is AlreadyRegistered
                    &&& *final(self) == *old(self)
                    &&& old(self).sessions@.len() > 0
                },
            },
    {
        let id = fresh_session_id();
        let copy = id.clone();
        match self.register_session(copy) {
            Ok(()) => Ok(id),
            Err(e) => Err(e),
        }
    }

    /// Removes a session from the registry. Disconnecting an unknown id
    /// is no failure: the registry is simply unchanged.
    pub fn disconnect(&mut self, session_id: &String) -> (r: bool)
        requires
            old(self).wf(),
        ensures
            final(self).wf(),
            final(self).user_view() == old(self).user_view(),
            r == old(self).contains_session(session_id@),
            !final(self).contains_session(session_id@),
            r ==> exists|i: int|
                0 <= i < old(self).sessions@.len() && old(self).sessions@[i].id@ == session_id@
                    && final(self).sessions@ == old(self).sessions@.remove(i),
            !r ==> *final(self) == *old(self),
    {
        match self.find_session(session_id) {
            Some(i) => {
                self.sessions.remove(i);
                proof {
                    let pre = old(self).sessions@;
                    assert(pre.remove(i as int) =~= pre.subrange(0, i as int) + pre.subrange(
                        i as int + 1,
                        pre.len() as int,
                    ));
                    assert forall|j: int|
                        0 <= j < self.sessions@.len() implies self.sessions@[j].id@
                        != session_id@ by {
                        if j < i {
                            assert(self.sessions@[j] == pre[j]);
                        } else {
                            assert(self.sessions@[j] == pre[j + 1]);
                        }
                    }
                    assert(pre[i as int].id@ == session_id@ && self.sessions@ == pre.remove(
                        i as int,
                    ));
                }
                true
            },
            None => false,
        }
    }

    /// The replies [`replies_to`] prescribes for one inbound message,
    /// built as concrete messages.
    fn replies_for(&self, message: &WebSocketMessage) -> (r: Vec<WebSocketMessage>)
        ensures
            r@.map_values(|m: WebSocketMessage| m@) == replies_to(message@, self.user_view()),
    {
        let mut replies: Vec<WebSocketMessage> = Vec::new();
        match message {
            WebSocketMessage::GetUserInfo => {
                match &self.user_info {
                    Some(u) => {
                        replies.push(WebSocketMessage::UserInfo(u.clone()));
                    },
                    None => {
                        replies.push(
                            WebSocketMessage::Error {
                                message: String::from_str("User not logged in"),
                            },
                        );
                    },
                }
            },
            WebSocketMessage::Ping => {
                replies.push(WebSocketMessage::Pong);
            },
            _ => {},
        }
        proof {
            assert(replies@.map_values(|m: WebSocketMessage| m@) =~= replies_to(
                message@,
                self.user_view(),
            ));
        }
        replies
    }

    /// Appends `msgs` to the outbox of the session at position `i`.
    fn append_at(&mut self, i: usize, msgs: Vec<WebSocketMessage>)
        requires
            i < old(self).sessions@.len(),
        ensures
            final(self).user_info == old(self).user_info,
            final(self).sessions@.len() == old(self).sessions@.len(),
            forall|j: int|
                0 <= j < old(self).sessions@.len() && j != i ==> final(self).sessions@[j] == old(self).sessions@[j],
            final(self).sessions@[i as int].id@ == old(self).sessions@[i as int].id@,
            final(self).sessions@[i as int].outbox_view() == old(self).sessions@[i as int].outbox_view() + msgs@.map_values(|m: WebSocketMessage| m@),
    {
        let ghost pre = self.sessions@;
        let mut session = self.sessions.remove(i);
        let ghost before = session.outbox_view();
        let incoming = msgs;
        let n = incoming.len();
        let ghost add = incoming@.map_values(|m: WebSocketMessage| m@);
        let mut k: usize = 0;
        while k < n
            invariant
                k <= n,
                n == incoming@.len(),
                (i as int) < pre.len(),
                incoming@.map_values(|m: WebSocketMessage| m@) == add,
                session.id@ == pre[i as int].id@,
                session.outbox_view() =~= before + add.take(k as int),
            decreases n - k,
        {
            let ghost prev_map = session.outbox_view();
            let m = incoming[k].clone();
            session.outbox.push(m);
            proof {
                assert(m@ == add[k as int]);
                assert(session.outbox_view() =~= prev_map.push(m@));
                assert(add.take(k as int + 1) =~= add.take(k as int).push(add[k as int]));
                assert(session.outbox_view() =~= before + add.take(k as int + 1));
            }
            k += 1;
        }
        proof {
            assert(session.outbox_view() =~= before + add);
        }
        let ghost updated = session;
        self.sessions.insert(i, session);
        proof {
            assert(self.sessions@ =~= pre.update(i as int, updated));
        }
    }

    /// Dispatches one decoded inbound message from the session named
    /// `session_id`: the replies it earns are appended to that session's
    /// outbox; message kinds that only ever travel towards the game are
    /// ignored. Fails exactly when the session is not registered.
    pub fn handle_message(&mut self, session_id: &String, message: &WebSocketMessage) -> (r: Result<
        (),
        LauncherError,
    >)
        requires
            old(self).wf(),
        ensures
            final(self).wf(),
            final(self).user_view() == old(self).user_view(),
            match r {
                Ok(()) => {
                    &&& old(self).contains_session(session_id@)
                    &&& appends_to_session(
                        old(self).sessions@,
                        final(self).sessions@,
                        session_id@,
                        replies_to(message@, old(self).user_view()),
                    )
                },
                Err(e) => {
                    &&& e is NotFound
                    &&& !old(self).contains_session(session_id@)
                    &&& *final(self) == *old(self)
                },
            },
    {
        let i = match self.find_session(session_id) {
            Some(i) => i,
            None => {
                return Err(LauncherError::NotFound);
            },
        };
        proof {
            assert(self.sessions@[i as int].id@ == session_id@);
        }
        let replies = self.replies_for(message);
        self.append_at(i, replies);
        proof {
            let pre = old(self).sessions@;
            let post = self.sessions@;
            let msgs = replies_to(message@, old(self).user_view());
            assert forall|j: int|
                0 <= j < pre.len() && pre[j].id@ == session_id@ implies #[trigger] post[
                j
            ].outbox_view() == pre[j].outbox_view() + msgs by {
                if j != i {
                    assert(pre[j].id@ == pre[i as int].id@);
                    assert(false);
                }
            }
            assert forall|j: int|
                0 <= j < pre.len() && pre[j].id@ != session_id@ implies #[trigger] post[
                j
            ].outbox_view() == pre[j].outbox_view() by {
                assert(j != i);
            }
        }
        Ok(())
    }

    /// Stores `user_info` as the new current user and queues a
    /// `UserUpdated` event for every registered session.
    pub fn update_user_info(&mut self, user_info: UserInfo)
        requires
            old(self).wf(),
        ensures
            final(self).wf(),
            final(self).user_view() == Some(user_info@),
            broadcasts_to_all(
                old(self).sessions@,
                final(self).sessions@,
                MessageView::UserUpdated(user_info@),
            ),
    {
        let n = self.sessions.len();
        let mut k: usize = 0;
        while k < n
            invariant
                k <= n,
                n == self.sessions@.len(),
                self.sessions@.len() == old(self).sessions@.len(),
                self.user_info == old(self).user_info,
                forall|j: int| k <= j < n ==> self.sessions@[j] == old(self).sessions@[j],
                forall|j: int|
                    0 <= j < k ==> #[trigger] self.sessions@[j].id@ == old(self).sessions@[j].id@,
                forall|j: int|
                    0 <= j < k ==> #[trigger] self.sessions@[j].outbox_view() == old(self).sessions@[j].outbox_view().push(MessageView::UserUpdated(user_info@)),
            decreases n - k,
        {
            let ghost pre = self.sessions@;
            let mut session = self.sessions.remove(k);
            let ghost before = session.outbox_view();
            session.outbox.push(WebSocketMessage::UserUpdated(user_info.clone()));
            proof {
                assert(session.outbox_view() =~= before.push(MessageView::UserUpdated(user_info@)));
            }
            let ghost updated = session;
            self.sessions.insert(k, session);
            proof {
                assert(self.sessions@ =~= pre.update(k as int, updated));
            }
            k += 1;
        }
        self.user_info = Some(user_info);
        proof {
            assert forall|i: int, j: int|
                0 <= i < j < self.sessions@.len() implies self.sessions@[i].id@
                != self.sessions@[j].id@ by {
                assert(self.sessions@[i].id@ == old(self).sessions@[i].id@);
                assert(self.sessions@[j].id@ == old(self).sessions@[j].id@);
            }
        }
    }

    /// Clears the current-user singleton; the registry is untouched and
    /// nothing is broadcast.
    pub fn clear_user_info(&mut self)
        requires
            old(self).wf(),
        ensures
            final(self).wf(),
            final(self).user_view() is None,
            final(self).sessions@ == old(self).sessions@,
    {
        self.user_info = None;
    }

    /// A snapshot of the registered session ids, in registration order.
    pub fn get_connected_sessions(&self) -> (r: Vec<String>)
        ensures
            r@.len() == self.sessions@.len(),
            forall|i: int| 0 <= i < r@.len() ==> #[trigger] r@[i]@ == self.sessions@[i].id@,
    {
        let n = self.sessions.len();
        let mut out: Vec<String> = Vec::new();
        let mut k: usize = 0;
        while k < n
            invariant
                k <= n,
                n == self.sessions@.len(),
                out@.len() == k,
                forall|i: int| 0 <= i < k ==> #[trigger] out@[i]@ == self.sessions@[i].id@,
            decreases n - k,
        {
            out.push(self.sessions[k].id.clone());
            k += 1;
        }
        out
    }

    /// Takes every message queued for the session named `session_id`,
    /// leaving its outbox empty; `None` exactly when the session is not
    /// registered. The embedding application writes the returned messages
    /// to the session's socket in order.
    pub fn drain_outbox(&mut self, session_id: &String) -> (r: Option<Vec<WebSocketMessage>>)
        requires
            old(self).wf(),
        ensures
            final(self).wf(),
            final(self).user_view() == old(self).user_view(),
            match r {
                Some(msgs) => {
                    &&& old(self).contains_session(session_id@)
                    &&& final(self).sessions@.len() == old(self).sessions@.len()
                    &&& forall|i: int|
                        0 <= i < old(self).sessions@.len() ==> #[trigger] final(self).sessions@[i].id@ == old(self).sessions@[i].id@
                    &&& forall|i: int|
                        0 <= i < old(self).sessions@.len() && old(self).sessions@[i].id@
                            != session_id@ ==> final(self).sessions@[i] == old(self).sessions@[i]
                    &&& forall|i: int|
                        0 <= i < old(self).sessions@.len() && old(self).sessions@[i].id@
                            == session_id@ ==> #[trigger] final(self).sessions@[i].outbox_view()
                            == Seq::<MessageView>::empty() && msgs@.map_values(
                            |m: WebSocketMessage| m@,
                        ) == old(self).sessions@[i].outbox_view()
                },
                None => {
                    &&& !old(self).contains_session(session_id@)
                    &&& *final(self) == *old(self)
                },
            },
    {
        let i = match self.find_session(session_id) {
            Some(i) => i,
            None => {
                return None;
            },
        };
        proof {
            assert(self.sessions@[i as int].id@ == session_id@);
        }
        let ghost pre = self.sessions@;
        let mut session = self.sessions.remove(i);
        let mut out: Vec<WebSocketMessage> = Vec::new();
        core::mem::swap(&mut out, &mut session.outbox);
        let ghost restored = session;
        self.sessions.insert(i, session);
        proof {
            assert(self.sessions@ =~= pre.update(i as int, restored));
            assert(restored.outbox_view() =~= Seq::<MessageView>::empty());
            assert forall|j: int|
                0 <= j < pre.len() && pre[j].id@ == session_id@ implies #[trigger] self.sessions@[
                j
            ].outbox_view() == Seq::<MessageView>::empty() && out@.map_values(
                |m: WebSocketMessage| m@,
            ) == pre[j].outbox_view() by {
                if j != i {
                    assert(pre[j].id@ == pre[i as int].id@);
                    assert(false);
                }
            }
        }
        Some(out)
    }

    /// Reacts to one transport frame from the session named `session_id`:
    /// decoded messages are dispatched (an unknown session closes the
    /// connection, as its replies have nowhere to go), undecodable text is
    /// dropped, transport pings are answered in kind, pongs and binary
    /// frames are ignored, and a close frame or a transport error ends the
    /// session. The caller tears the session down on `CloseSession` by
    /// calling [`Self::disconnect`].
    pub fn on_frame(&mut self, session_id: &String, frame: InboundFrame) -> (r: FrameAction)
        requires
            old(self).wf(),
        ensures
            final(self).wf(),
            final(self).user_view() == old(self).user_view(),
            match frame {
                InboundFrame::Message(m) => {
                    if old(self).contains_session(session_id@) {
                        &&& r is Dispatched
                        &&& appends_to_session(
                            old(self).sessions@,
                            final(self).sessions@,
                            session_id@,
                            replies_to(m@, old(self).user_view()),
                        )
                    } else {
                        r is CloseSession && *final(self) == *old(self)
                    }
                },
                InboundFrame::TransportPing(data) => {
                    &&& r matches FrameAction::ReplyTransportPong(d) && d@ == data@
                    &&& *final(self) == *old(self)
                },
                InboundFrame::Malformed => r is Ignored && *final(self) == *old(self),
                InboundFrame::TransportPong(_) => r is Ignored && *final(self) == *old(self),
                InboundFrame::Binary(_) => r is Ignored && *final(self) == *old(self),
                InboundFrame::CloseRequested => r is CloseSession && *final(self) == *old(self),
                InboundFrame::TransportError => r is CloseSession && *final(self) == *old(self),
            },
    {
        match frame {
            InboundFrame::Message(m) => {
                match self.handle_message(session_id, &m) {
                    Ok(()) => FrameAction::Dispatched,
                    Err(_) => FrameAction::CloseSession,
                }
            },
            InboundFrame::Malformed => FrameAction::Ignored,
            InboundFrame::TransportPing(data) => FrameAction::ReplyTransportPong(data),
            InboundFrame::TransportPong(_) => FrameAction::Ignored,
            InboundFrame::Binary(_) => FrameAction::Ignored,
            InboundFrame::CloseRequested => FrameAction::CloseSession,
            InboundFrame::TransportError => FrameAction::CloseSession,
        }
    }
}

/// Relies on `uuid::Uuid::new_v4` and its `Display` impl: a fresh random
/// identifier, rendered in the hyphenated form, which is 36 characters
/// long. Nothing relates two results of this call.
#[verifier::external_body]
fn fresh_session_id() -> (r: String)
    ensures
        r@.len() == 36,
{
    uuid::Uuid::new_v4().to_string()
}

/// How many times a given `UserUpdated` event occurs in an outbox.
pub open spec fn count_user_updated(s: Seq<MessageView>, u: UserInfoView) -> nat
    decreases s.len(),
{
    if s.len() == 0 {
        0
    } else {
        count_user_updated(s.drop_last(), u) + if s.last() == MessageView::UserUpdated(u) {
            1nat
        } else {
            0nat
        }
    }
}

/// Law: a user update reaches every registered session exactly once.
/// After [`SessionHub::update_user_info`] ran, each session's outbox holds
/// exactly one more `UserUpdated` event carrying the new user than before;
/// sessions that left the registry before the update no longer appear in
/// it, so delivery to them is never waited on.
pub proof fn lemma_broadcast_exactly_once(pre: Seq<Session>, post: Seq<Session>, u: UserInfoView)
    requires
        broadcasts_to_all(pre, post, MessageView::UserUpdated(u)),
    ensures
        forall|i: int|
            0 <= i < pre.len() ==> count_user_updated(#[trigger] post[i].outbox_view(), u)
                == count_user_updated(pre[i].outbox_view(), u) + 1,
{
    assert forall|i: int|
        0 <= i < pre.len() implies count_user_updated(#[trigger] post[i].outbox_view(), u)
        == count_user_updated(pre[i].outbox_view(), u) + 1 by {
        let b = pre[i].outbox_view();
        let a = post[i].outbox_view();
        assert(a == b.push(MessageView::UserUpdated(u)));
        assert(a.drop_last() =~= b);
        assert(a.last() == MessageView::UserUpdated(u));
        assert(a.len() == b.len() + 1);
    }
}

/// Law: a session that connects while a user is set is greeted, in order,
/// by `ConnectionEstablished` with its id and then `UserInfo` with that
/// user; one that connects while no user is set is greeted by
/// `ConnectionEstablished` alone. This is the exact outbox that
/// [`SessionHub::register_session`] leaves a new session with.
pub proof fn lemma_new_session_bootstrap(id: Seq<char>, user: Option<UserInfoView>)
    ensures
        welcome_messages(id, user).len() == if user is Some {
            2int
        } else {
            1int
        },
        welcome_messages(id, user)[0] == (MessageView::ConnectionEstablished { session_id: id }),
        user matches Some(u) ==> welcome_messages(id, user)[1] == MessageView::UserInfo(u),
{
}

} // verus!

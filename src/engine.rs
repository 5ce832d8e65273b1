//! The negotiation engine: decides, from operations of the user and events of
//! the browser's peer connection, what the connection state becomes, what the
//! peer connection must do next, and what the user interface is told.
use vstd::prelude::*;
use crate::b64::{base64_of, has_foreign_char};
use crate::codec::{decode, decode_error_of, encode, package_bytes, package_of_text, BlobError, SignalingPackage};
use crate::state::{ChannelPhase, ConnectionState, GatheringPhase, Message, MessageSender, Role};

verus! {

/// The attempt in progress, if any.
#[derive(Clone, Copy, Debug, PartialEq, Eq, Structural)]
pub enum Session {
    Idle,
    AsInitiator(ConnectionState),
    AsResponder(ConnectionState),
}

impl Session {
    pub open spec fn conn(self) -> Option<ConnectionState> {
        match self {
            Session::Idle => None,
            Session::AsInitiator(c) => Some(c),
            Session::AsResponder(c) => Some(c),
        }
    }

    pub open spec fn role(self) -> Option<Role> {
        match self {
            Session::Idle => None,
            Session::AsInitiator(_) => Some(Role::Initiator),
            Session::AsResponder(_) => Some(Role::Responder),
        }
    }

    /// The same role with the connection state `c`.
    pub open spec fn with_conn(self, c: ConnectionState) -> Session {
        match self {
            Session::Idle => Session::Idle,
            Session::AsInitiator(_) => Session::AsInitiator(c),
            Session::AsResponder(_) => Session::AsResponder(c),
        }
    }
}

/// Builds the session of `role` around `c`.
pub open spec fn session_of(role: Role, c: ConnectionState) -> Session {
    match role {
        Role::Initiator => Session::AsInitiator(c),
        Role::Responder => Session::AsResponder(c),
    }
}

/// What can go wrong in negotiation.
#[derive(Clone, Copy, Debug, PartialEq, Eq, Structural)]
pub enum NegotiationError {
    /// The pasted blob could not be read.
    Decode(BlobError),
    /// The peer connection refused the remote description.
    RemoteDescriptionRejected,
    /// The peer connection refused a remote candidate.
    CandidateRejected,
    /// A message was to be sent while the channel is not open.
    SendPrecondition,
    /// No attempt is in progress.
    NoSession,
    /// This attempt has already taken a readable remote blob, and the peer
    /// connection has rejected nothing of it since.
    AlreadyAccepted,
}

/// Work for the browser's peer connection.
#[derive(Clone, Debug)]
pub enum Command {
    /// Close the data channel and the peer connection of the previous attempt.
    ClosePeer,
    /// Create a fresh peer connection whose events are tagged with `session`;
    /// the initiator's also opens the data channel.
    OpenPeer { session: u64, role: Role },
    /// Create the offer, set it as local description, and start gathering.
    CreateOffer,
    /// Set the remote description, then add each remote candidate.
    ApplyRemote { description: String, candidates: Vec<String> },
    /// Create the answer, set it as local description, and start gathering.
    CreateAnswer,
    /// Write the text on the data channel.
    SendText(String),
}

/// What the user interface is told.
#[derive(Clone, Debug)]
pub enum Notice {
    StateChanged(Session),
    /// The local blob for the user to copy.
    PackageReady(String),
    MessageReceived(Message),
    Failed(NegotiationError),
}

#[derive(Clone, Debug)]
pub enum Output {
    Do(Command),
    Tell(Notice),
}

/// What the browser's peer connection reports for one attempt.
#[derive(Clone, Debug)]
pub enum PeerEvent {
    /// The local description (offer or answer) was created and set.
    LocalDescription(String),
    /// A local candidate was found.
    CandidateFound(String),
    /// Candidate gathering has finished.
    GatheringComplete,
    /// The remote description was set.
    RemoteDescriptionApplied,
    RemoteDescriptionRejected,
    CandidateRejected,
    /// The data channel changed state. A connection that fails after the
    /// channel opened shows as the channel closing: the attempt then ends in
    /// `Closed` and a new one must be started.
    Channel(ChannelPhase),
    /// Text arrived on the data channel.
    MessageArrived(String),
}

fn copy_strings(v: &Vec<String>) -> (r: Vec<String>)
    ensures
        r@ == v@,
{
    let mut r: Vec<String> = Vec::new();
    let mut i: usize = 0;
    while i < v.len()
        invariant
            i <= v@.len(),
            r@ == v@.take(i as int),
        decreases v@.len() - i,
    {
        r.push(v[i].clone());
        i = i + 1;
        assert(r@ =~= v@.take(i as int));
    }
    assert(v@.take(i as int) =~= v@);
    r
}

/// Starting a fresh attempt in `role` from `pre`: the attempt in progress, if
/// any, is closed first; `post` holds a brand-new connection state under the
/// next attempt number.
pub open spec fn start_outcome(pre: WebRTCManager, post: WebRTCManager, role: Role, r: Seq<Output>) -> bool {
    &&& (post.wf())
    &&& (post.session_id == pre.session_id + 1)
    &&& (post.candidates@.len() == 0)
    &&& (post.local_description is None)
    &&& (!post.remote_sent)
    &&& (!post.remote_applied)
    &&& (post.session == session_of(
                    role,
                    ConnectionState {
                        ice_gathering_state: if role == Role::Initiator {
                            Some(GatheringPhase::Gathering)
                        } else {
                            None
                        },
                        data_channel_state: None,
                    }))
    &&& (r =~= {
                    let closing: Seq<Output> = if pre.session is Idle {
                        seq![]
                    } else {
                        seq![Output::Do(Command::ClosePeer)]
                    };
                    let fresh = session_of(role, ConnectionState { ice_gathering_state: None, data_channel_state: None });
                    let opening = closing + seq![
                        Output::Do(Command::OpenPeer { session: post.session_id, role }),
                        Output::Tell(Notice::StateChanged(fresh)),
                    ];
                    if role == Role::Initiator {
                        opening + seq![
                            Output::Do(Command::CreateOffer),
                            Output::Tell(Notice::StateChanged(post.session)),
                        ]
                    } else {
                        opening
                    }
    })
}

/// Ending the attempt of `pre`: `post` is idle under the next attempt number,
/// and the old peer connection is closed if there was one.
pub open spec fn reset_outcome(pre: WebRTCManager, post: WebRTCManager, r: Seq<Output>) -> bool {
    &&& post.wf()
    &&& post.session == Session::Idle
    &&& post.session_id == pre.session_id + 1
    &&& post.local_description is None
    &&& post.candidates@.len() == 0
    &&& !post.remote_sent
    &&& !post.remote_applied
    &&& r =~= (if pre.session is Idle {
        seq![Output::Tell(Notice::StateChanged(Session::Idle))]
    } else {
        seq![Output::Do(Command::ClosePeer), Output::Tell(Notice::StateChanged(Session::Idle))]
    })
}

/// Why `m` refuses the blob `t`, if it does: no attempt; then a blob that
/// does not read, whatever was taken before; then a readable blob while the
/// one already handed over stands (none was rejected since).
pub open spec fn accept_error(m: WebRTCManager, t: Seq<char>) -> Option<NegotiationError> {
    if m.session is Idle {
        Some(NegotiationError::NoSession)
    } else if package_of_text(t) is None {
        Some(NegotiationError::Decode(decode_error_of(t)->0))
    } else if m.remote_sent {
        Some(NegotiationError::AlreadyAccepted)
    } else {
        None
    }
}

/// Taking the blob `t` made `pre` into `post` and emitted `r`: the decoded
/// description and candidates go to the peer connection, nothing else changes
/// but the mark that a blob was handed over.
pub open spec fn accepted(pre: WebRTCManager, post: WebRTCManager, t: Seq<char>, r: Seq<Output>) -> bool {
    &&& package_of_text(t) is Some
    &&& r.len() == 1
    &&& r[0] is Do && r[0]->Do_0 is ApplyRemote
    &&& r[0]->Do_0->ApplyRemote_description@ == (package_of_text(t)->0).0
    &&& r[0]->Do_0->ApplyRemote_candidates@.map_values(|c: String| c@) == (package_of_text(t)->0).1
    &&& post.session == pre.session
    &&& post.session_id == pre.session_id
    &&& post.local_description == pre.local_description
    &&& post.candidates == pre.candidates
    &&& post.remote_sent
    &&& post.remote_applied == pre.remote_applied
}

/// Why `m` cannot send now, if it cannot: only an open channel takes text.
pub open spec fn send_error(m: WebRTCManager) -> Option<NegotiationError> {
    match m.session.conn() {
        Some(c) if c.data_channel_state == Some(ChannelPhase::Open) => None,
        _ => Some(NegotiationError::SendPrecondition),
    }
}

/// The local description and the gathered candidates are as they were.
pub open spec fn same_gathered(pre: WebRTCManager, post: WebRTCManager) -> bool {
    post.local_description == pre.local_description && post.candidates == pre.candidates
}

/// The marks of the remote blob are as they were.
pub open spec fn same_remote(pre: WebRTCManager, post: WebRTCManager) -> bool {
    post.remote_sent == pre.remote_sent && post.remote_applied == pre.remote_applied
}

/// What taking event `ev` of attempt `session` does: `pre` becomes `post` and
/// `r` is emitted.
pub open spec fn event_outcome(pre: WebRTCManager, post: WebRTCManager, session: u64, ev: PeerEvent, r: Seq<Output>) -> bool {
    &&& (session == pre.session_id && pre.session.conn() is Some ==> match ev {
        PeerEvent::LocalDescription(_) => post.candidates == pre.candidates && same_remote(pre, post),
        PeerEvent::CandidateFound(_) => post.local_description == pre.local_description && same_remote(pre, post),
        PeerEvent::RemoteDescriptionApplied => same_gathered(pre, post) && post.remote_sent == pre.remote_sent,
        PeerEvent::RemoteDescriptionRejected | PeerEvent::CandidateRejected => {
            &&& same_gathered(pre, post)
            &&& post.remote_applied == pre.remote_applied
            &&& !post.remote_sent
        },
        _ => same_gathered(pre, post) && same_remote(pre, post),
    })
    &&& (post.wf())
    &&& (post.session_id == pre.session_id)
    &&& (post.session.role() == pre.session.role())
    &&& (session != pre.session_id || pre.session is Idle ==> post == pre
                    && r.len() == 0)
    &&& (pre.session.conn() matches Some(c) ==> c.advances_to(post.session.conn()->0))
    &&& (session == pre.session_id && pre.session.conn() is Some ==> {
                    let c = pre.session.conn()->0;
                    let n = post.session.conn()->0;
                    match ev {
                        PeerEvent::LocalDescription(d) => n == c && r.len() == 0
                            && post.local_description is Some && post.local_description->0@ == d@,
                        PeerEvent::CandidateFound(x) => n == c && r.len() == 0 && post.candidates@.map_values(|s: String| s@)
                            == (if c.ice_gathering_state == Some(GatheringPhase::Gathering) {
                                pre.candidates@.map_values(|s: String| s@).push(x@)
                            } else {
                                pre.candidates@.map_values(|s: String| s@)
                            }),
                        PeerEvent::GatheringComplete => if c.ice_gathering_state == Some(GatheringPhase::Gathering)
                            && pre.local_description is Some {
                            &&& n == c.complete_gathering_spec()
                            &&& r.len() == 2
                            &&& r[0] == Output::Tell(Notice::StateChanged(post.session))
                            &&& r[1] is Tell && r[1]->Tell_0 is PackageReady
                            &&& r[1]->Tell_0->PackageReady_0@.len() > 0
                            &&& r[1]->Tell_0->PackageReady_0@ == base64_of(package_bytes((
                            pre.local_description->0@,
                            pre.candidates@.map_values(|s: String| s@),
                        )))
                        &&& package_of_text(r[1]->Tell_0->PackageReady_0@) == Some((
                                pre.local_description->0@,
                                pre.candidates@.map_values(|s: String| s@),
                            ))
                        } else {
                            n == c && r.len() == 0
                        },
                        PeerEvent::RemoteDescriptionApplied => if pre.remote_sent && !pre.remote_applied {
                            &&& post.remote_applied
                            &&& if pre.session.role() == Some(Role::Responder) && c.ice_gathering_state is None {
                                &&& n.ice_gathering_state == Some(GatheringPhase::Gathering)
                                &&& n.data_channel_state == c.data_channel_state
                                &&& r =~= seq![Output::Do(Command::CreateAnswer), Output::Tell(Notice::StateChanged(post.session))]
                            } else {
                                n == c && r.len() == 0
                            }
                        } else {
                            n == c && r.len() == 0 && post.remote_applied == pre.remote_applied
                        },
                        PeerEvent::RemoteDescriptionRejected => n == c
                            && r =~= seq![Output::Tell(Notice::Failed(NegotiationError::RemoteDescriptionRejected))],
                        PeerEvent::CandidateRejected => n == c
                            && r =~= seq![Output::Tell(Notice::Failed(NegotiationError::CandidateRejected))],
                        PeerEvent::Channel(p) => {
                            let m = c.channel_changed_spec(p, pre.remote_applied);
                            &&& n == m
                            &&& r =~= (if m == c { seq![] } else { seq![Output::Tell(Notice::StateChanged(post.session))] })
                        },
                        PeerEvent::MessageArrived(t) => n == c && if c.data_channel_state == Some(ChannelPhase::Open) {
                            &&& r.len() == 1
                            &&& r[0] is Tell && r[0]->Tell_0 is MessageReceived
                            &&& r[0]->Tell_0->MessageReceived_0.sender == MessageSender::Other
                            &&& r[0]->Tell_0->MessageReceived_0.content@ == t@
                        } else {
                            r.len() == 0
                        },
                    }
    })
}

/// After a fresh start, an event tagged with the number of any earlier
/// attempt changes nothing and emits nothing.
pub proof fn lemma_stale_event_dropped(
    pre: WebRTCManager,
    mid: WebRTCManager,
    post: WebRTCManager,
    role: Role,
    started: Seq<Output>,
    stale: u64,
    ev: PeerEvent,
    r: Seq<Output>,
)
    requires
        start_outcome(pre, mid, role, started),
        stale <= pre.session_id,
        event_outcome(mid, post, stale, ev, r),
    ensures
        post == mid,
        r.len() == 0,
{
}

/// The engine. Events carry the number of the attempt they belong to; those
/// of an attempt that has been replaced are dropped.
pub struct WebRTCManager {
    pub session: Session,
    pub session_id: u64,
    pub local_description: Option<String>,
    pub candidates: Vec<String>,
    /// A remote blob was handed to the peer connection and not rejected since.
    pub remote_sent: bool,
    /// The peer connection accepted the remote description.
    pub remote_applied: bool,
}

impl WebRTCManager {
    pub open spec fn wf(&self) -> bool {
        match self.session.conn() {
            None => !self.remote_sent && !self.remote_applied,
            Some(c) => {
                &&& c.wf()
                &&& c.data_channel_state == Some(ChannelPhase::Open) ==> self.remote_applied
            },
        }
    }

    pub fn create_default() -> (r: WebRTCManager)
        ensures
            r.wf(),
            r.session == Session::Idle,
            r.session_id == 0,
            r.local_description is None,
            r.candidates@.len() == 0,
            !r.remote_sent,
            !r.remote_applied,
    {
        WebRTCManager {
            session: Session::Idle,
            session_id: 0,
            local_description: None,
            candidates: Vec::new(),
            remote_sent: false,
            remote_applied: false,
        }
    }

    pub fn get_state(&self) -> (r: Session)
        ensures
            r == self.session,
    {
        self.session
    }

    fn conn_of(&self) -> (r: Option<ConnectionState>)
        ensures
            r == self.session.conn(),
    {
        match self.session {
            Session::Idle => None,
            Session::AsInitiator(c) => Some(c),
            Session::AsResponder(c) => Some(c),
        }
    }

    fn set_conn(&mut self, c: ConnectionState)
        ensures
            final(self).session == old(self).session.with_conn(c),
            final(self).session_id == old(self).session_id,
            final(self).local_description == old(self).local_description,
            final(self).candidates == old(self).candidates,
            final(self).remote_sent == old(self).remote_sent,
            final(self).remote_applied == old(self).remote_applied,
    {
        self.session = match self.session {
            Session::Idle => Session::Idle,
            Session::AsInitiator(_) => Session::AsInitiator(c),
            Session::AsResponder(_) => Session::AsResponder(c),
        };
    }

    /// Drops the attempt in progress, if any, and starts a fresh one in `role`.
    /// Events of the dropped attempt are ignored from now on. The initiator
    /// begins gathering at once.
    pub fn start(&mut self, role: Role) -> (r: Vec<Output>)
        requires
            old(self).wf(),
            old(self).session_id < u64::MAX,
        ensures
            start_outcome(*old(self), *final(self), role, r@),

    {
        let mut out: Vec<Output> = Vec::new();
        match self.session {
            Session::Idle => {},
            _ => out.push(Output::Do(Command::ClosePeer)),
        }
        self.session_id = self.session_id + 1;
        self.local_description = None;
        self.candidates = Vec::new();
        self.remote_sent = false;
        self.remote_applied = false;
        let fresh = ConnectionState::new();
        self.session = match role {
            Role::Initiator => Session::AsInitiator(fresh),
            Role::Responder => Session::AsResponder(fresh),
        };
        out.push(Output::Do(Command::OpenPeer { session: self.session_id, role }));
        out.push(Output::Tell(Notice::StateChanged(self.session)));
        match role {
            Role::Initiator => {
                self.set_conn(fresh.begin_gathering());
                out.push(Output::Do(Command::CreateOffer));
                out.push(Output::Tell(Notice::StateChanged(self.session)));
            },
            Role::Responder => {},
        }
        out
    }

    /// Ends the attempt in progress; events of it are ignored from now on.
    pub fn reset(&mut self) -> (r: Vec<Output>)
        requires
            old(self).session_id < u64::MAX,
        ensures
            reset_outcome(*old(self), *final(self), r@),

    {
        let mut out: Vec<Output> = Vec::new();
        match self.session {
            Session::Idle => {},
            _ => out.push(Output::Do(Command::ClosePeer)),
        }
        self.session_id = self.session_id + 1;
        self.session = Session::Idle;
        self.local_description = None;
        self.candidates = Vec::new();
        self.remote_sent = false;
        self.remote_applied = false;
        out.push(Output::Tell(Notice::StateChanged(Session::Idle)));
        out
    }

    /// Takes the blob pasted by the user. On success the remote description and
    /// candidates go to the peer connection. On any error nothing changes.
    pub fn accept_remote_package(&mut self, text: &str) -> (r: Result<Vec<Output>, NegotiationError>)
        requires
            old(self).wf(),
        ensures
            final(self).wf(),
            accept_error(*old(self), text@) matches Some(err) ==> r == Err::<Vec<Output>, NegotiationError>(err)
                && *final(self) == *old(self),
            accept_error(*old(self), text@) is None ==> r is Ok && accepted(*old(self), *final(self), text@, r->Ok_0@),
            !(old(self).session is Idle) && has_foreign_char(text@) ==> r == Err::<Vec<Output>, NegotiationError>(
                NegotiationError::Decode(BlobError::Transport),
            ),

    {
        if self.conn_of().is_none() {
            return Err(NegotiationError::NoSession);
        }
        match decode(text) {
            Err(e) => Err(NegotiationError::Decode(e)),
            Ok(p) => {
                if self.remote_sent {
                    return Err(NegotiationError::AlreadyAccepted);
                }
                let SignalingPackage { sdp, candidates } = p;
                self.remote_sent = true;
                let mut out: Vec<Output> = Vec::new();
                out.push(Output::Do(Command::ApplyRemote { description: sdp, candidates }));
                Ok(out)
            },
        }
    }

    /// Hands `content` to the open data channel; fails, sending nothing, when
    /// the channel is not open.
    pub fn send_message(&self, content: String) -> (r: Result<Output, NegotiationError>)
        ensures
            send_error(*self) matches Some(err) ==> r == Err::<Output, NegotiationError>(err),
            send_error(*self) is None ==> r is Ok && r->Ok_0 is Do && r->Ok_0->Do_0 is SendText
                && r->Ok_0->Do_0->SendText_0@ == content@,

    {
        match self.conn_of() {
            Some(c) => {
                if c.is_open() {
                    Ok(Output::Do(Command::SendText(content)))
                } else {
                    Err(NegotiationError::SendPrecondition)
                }
            },
            None => Err(NegotiationError::SendPrecondition),
        }
    }

    /// Takes one event of attempt `session`. Events of another attempt, or
    /// with no attempt in progress, change nothing and produce nothing.
    pub fn handle_event(&mut self, session: u64, ev: PeerEvent) -> (r: Vec<Output>)
        requires
            old(self).wf(),
        ensures
            event_outcome(*old(self), *final(self), session, ev, r@),

    {
        let c = match self.conn_of() {
            None => {
                return Vec::new();
            },
            Some(c) => c,
        };
        if session != self.session_id {
            return Vec::new();
        }
        let mut out: Vec<Output> = Vec::new();
        match ev {
            PeerEvent::LocalDescription(d) => {
                self.local_description = Some(d);
            },
            PeerEvent::CandidateFound(x) => {
                match c.ice_gathering_state {
                    Some(GatheringPhase::Gathering) => {
                        let ghost before = self.candidates@;
                        self.candidates.push(x);
                        assert(self.candidates@.map_values(|s: String| s@) =~= before.map_values(
                            |s: String| s@,
                        ).push(self.candidates@.last()@));
                    },
                    _ => {},
                }
            },
            PeerEvent::GatheringComplete => {
                let gathering = match c.ice_gathering_state {
                    Some(GatheringPhase::Gathering) => true,
                    _ => false,
                };
                if gathering {
                    match &self.local_description {
                        Some(d) => {
                            let p = SignalingPackage { sdp: d.clone(), candidates: copy_strings(&self.candidates) };
                            assert(p.contents().1 =~= self.candidates@.map_values(|s: String| s@));
                            let blob = encode(&p);
                            self.set_conn(c.complete_gathering());
                            out.push(Output::Tell(Notice::StateChanged(self.session)));
                            out.push(Output::Tell(Notice::PackageReady(blob)));
                        },
                        None => {},
                    }
                }
            },
            PeerEvent::RemoteDescriptionApplied => {
                if self.remote_sent && !self.remote_applied {
                    self.remote_applied = true;
                    let responder = match self.session {
                        Session::AsResponder(_) => true,
                        _ => false,
                    };
                    if responder && c.ice_gathering_state.is_none() {
                        self.set_conn(c.begin_gathering());
                        out.push(Output::Do(Command::CreateAnswer));
                        out.push(Output::Tell(Notice::StateChanged(self.session)));
                    }
                }
            },
            PeerEvent::RemoteDescriptionRejected => {
                self.remote_sent = false;
                out.push(Output::Tell(Notice::Failed(NegotiationError::RemoteDescriptionRejected)));
            },
            PeerEvent::CandidateRejected => {
                self.remote_sent = false;
                out.push(Output::Tell(Notice::Failed(NegotiationError::CandidateRejected)));
            },
            PeerEvent::Channel(p) => {
                let m = c.channel_changed(p, self.remote_applied);
                if m != c {
                    self.set_conn(m);
                    out.push(Output::Tell(Notice::StateChanged(self.session)));
                }
            },
            PeerEvent::MessageArrived(t) => {
                if c.is_open() {
                    out.push(Output::Tell(Notice::MessageReceived(Message::new(t, MessageSender::Other))));
                }
            },
        }
        out
    }
}

} // verus!

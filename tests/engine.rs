use rtc_chat::codec::BlobError;
use rtc_chat::engine::{Command, NegotiationError, Notice, Output, PeerEvent, Session, WebRTCManager};
use rtc_chat::state::{ChannelPhase, ConnectionState, GatheringPhase, MessageSender, Role};

fn conn(m: &WebRTCManager) -> ConnectionState {
    match m.get_state() {
        Session::AsInitiator(c) | Session::AsResponder(c) => c,
        Session::Idle => panic!("no session"),
    }
}

fn package_of(out: &[Output]) -> String {
    for o in out {
        if let Output::Tell(Notice::PackageReady(b)) = o {
            return b.clone();
        }
    }
    panic!("no package in {:?}", out);
}

fn gather(m: &mut WebRTCManager, sdp: &str, cand: &str) -> String {
    let id = m.session_id;
    assert!(m.handle_event(id, PeerEvent::LocalDescription(sdp.to_string())).is_empty());
    assert!(m.handle_event(id, PeerEvent::CandidateFound(cand.to_string())).is_empty());
    let out = m.handle_event(id, PeerEvent::GatheringComplete);
    assert_eq!(out.len(), 2);
    assert!(matches!(out[0], Output::Tell(Notice::StateChanged(_))));
    package_of(&out)
}

#[test]
fn end_to_end_exchange() {
    let mut a = WebRTCManager::create_default();
    let out = a.start(Role::Initiator);
    assert_eq!(out.len(), 4);
    assert!(matches!(out[0], Output::Do(Command::OpenPeer { session: 1, role: Role::Initiator })));
    assert!(matches!(out[2], Output::Do(Command::CreateOffer)));
    match &out[3] {
        Output::Tell(Notice::StateChanged(Session::AsInitiator(c))) => {
            assert_eq!(c.ice_gathering_state, Some(GatheringPhase::Gathering))
        }
        o => panic!("unexpected {:?}", o),
    }
    let b1 = gather(&mut a, "offer-sdp", "cand-a");
    assert!(!b1.is_empty());
    assert_eq!(conn(&a).ice_gathering_state, Some(GatheringPhase::Complete));

    let mut b = WebRTCManager::create_default();
    let out = b.start(Role::Responder);
    assert_eq!(out.len(), 2);
    assert_eq!(conn(&b).ice_gathering_state, None);
    let out = b.accept_remote_package(&b1).unwrap();
    match &out[..] {
        [Output::Do(Command::ApplyRemote { description, candidates })] => {
            assert_eq!(description, "offer-sdp");
            assert_eq!(candidates, &vec!["cand-a".to_string()]);
        }
        o => panic!("unexpected {:?}", o),
    }
    let bid = b.session_id;
    let out = b.handle_event(bid, PeerEvent::RemoteDescriptionApplied);
    assert!(matches!(out[0], Output::Do(Command::CreateAnswer)));
    assert_eq!(conn(&b).ice_gathering_state, Some(GatheringPhase::Gathering));
    let b2 = gather(&mut b, "answer-sdp", "cand-b");

    let out = a.accept_remote_package(&b2).unwrap();
    assert_eq!(out.len(), 1);
    let aid = a.session_id;
    assert!(a.handle_event(aid, PeerEvent::RemoteDescriptionApplied).is_empty());
    assert_eq!(a.handle_event(aid, PeerEvent::Channel(ChannelPhase::Connecting)).len(), 1);
    assert_eq!(a.handle_event(aid, PeerEvent::Channel(ChannelPhase::Open)).len(), 1);
    assert_eq!(b.handle_event(bid, PeerEvent::Channel(ChannelPhase::Open)).len(), 1);
    assert_eq!(conn(&a).data_channel_state, Some(ChannelPhase::Open));
    assert_eq!(conn(&b).data_channel_state, Some(ChannelPhase::Open));

    let sent = a.send_message("hi".to_string()).unwrap();
    let text = match sent {
        Output::Do(Command::SendText(t)) => t,
        o => panic!("unexpected {:?}", o),
    };
    let out = b.handle_event(bid, PeerEvent::MessageArrived(text));
    match &out[..] {
        [Output::Tell(Notice::MessageReceived(m))] => {
            assert_eq!(m.sender, MessageSender::Other);
            assert_eq!(m.content, "hi");
        }
        o => panic!("unexpected {:?}", o),
    }
}

#[test]
fn malformed_blob_leaves_state_unchanged() {
    let mut m = WebRTCManager::create_default();
    m.start(Role::Responder);
    let before = m.get_state();
    let r = m.accept_remote_package("not-base64!!");
    assert_eq!(r.unwrap_err(), NegotiationError::Decode(BlobError::Transport));
    assert_eq!(m.get_state(), before);
    assert!(!m.remote_sent);
}

#[test]
fn accept_without_session_fails() {
    let mut m = WebRTCManager::create_default();
    let r = m.accept_remote_package("eyJzZHAiOiJ4IiwiY2FuZGlkYXRlcyI6W119");
    assert_eq!(r.unwrap_err(), NegotiationError::NoSession);
}

#[test]
fn second_blob_is_refused() {
    let mut m = WebRTCManager::create_default();
    m.start(Role::Responder);
    assert!(m.accept_remote_package("eyJzZHAiOiJ4IiwiY2FuZGlkYXRlcyI6W119").is_ok());
    let r = m.accept_remote_package("eyJzZHAiOiJ4IiwiY2FuZGlkYXRlcyI6W119");
    assert_eq!(r.unwrap_err(), NegotiationError::AlreadyAccepted);
}

#[test]
fn rejected_description_allows_retry() {
    let mut m = WebRTCManager::create_default();
    m.start(Role::Responder);
    assert!(m.accept_remote_package("eyJzZHAiOiJ4IiwiY2FuZGlkYXRlcyI6W119").is_ok());
    let id = m.session_id;
    let out = m.handle_event(id, PeerEvent::RemoteDescriptionRejected);
    assert!(matches!(
        out[..],
        [Output::Tell(Notice::Failed(NegotiationError::RemoteDescriptionRejected))]
    ));
    assert!(m.accept_remote_package("eyJzZHAiOiJ4IiwiY2FuZGlkYXRlcyI6W119").is_ok());
    let out = m.handle_event(id, PeerEvent::CandidateRejected);
    assert!(matches!(out[..], [Output::Tell(Notice::Failed(NegotiationError::CandidateRejected))]));
}

#[test]
fn send_requires_open_channel() {
    let m = WebRTCManager::create_default();
    assert_eq!(
        m.send_message("x".to_string()).unwrap_err(),
        NegotiationError::SendPrecondition
    );
    let mut m = WebRTCManager::create_default();
    m.start(Role::Initiator);
    assert_eq!(
        m.send_message("x".to_string()).unwrap_err(),
        NegotiationError::SendPrecondition
    );
}

#[test]
fn restart_drops_events_of_previous_attempt() {
    let mut m = WebRTCManager::create_default();
    m.start(Role::Initiator);
    let old_id = m.session_id;
    let out = m.start(Role::Initiator);
    assert!(matches!(out[0], Output::Do(Command::ClosePeer)));
    assert_eq!(m.session_id, old_id + 1);
    assert!(m.handle_event(old_id, PeerEvent::LocalDescription("stale".to_string())).is_empty());
    assert!(m.handle_event(old_id, PeerEvent::GatheringComplete).is_empty());
    assert!(m.local_description.is_none());
    assert_eq!(conn(&m).ice_gathering_state, Some(GatheringPhase::Gathering));
}

#[test]
fn reset_returns_to_idle() {
    let mut m = WebRTCManager::create_default();
    let out = m.reset();
    assert_eq!(out.len(), 1);
    m.start(Role::Responder);
    let id = m.session_id;
    let out = m.reset();
    assert_eq!(out.len(), 2);
    assert!(matches!(out[0], Output::Do(Command::ClosePeer)));
    assert_eq!(m.get_state(), Session::Idle);
    assert!(m.handle_event(id, PeerEvent::Channel(ChannelPhase::Open)).is_empty());
}

#[test]
fn gathering_never_goes_back() {
    let mut m = WebRTCManager::create_default();
    m.start(Role::Initiator);
    let id = m.session_id;
    gather(&mut m, "sdp", "c");
    assert!(m.handle_event(id, PeerEvent::GatheringComplete).is_empty());
    assert!(m.handle_event(id, PeerEvent::CandidateFound("late".to_string())).is_empty());
    assert_eq!(m.candidates.len(), 1);
    assert_eq!(conn(&m).ice_gathering_state, Some(GatheringPhase::Complete));
}

#[test]
fn channel_does_not_open_before_exchange() {
    let mut m = WebRTCManager::create_default();
    m.start(Role::Initiator);
    let id = m.session_id;
    assert!(m.handle_event(id, PeerEvent::Channel(ChannelPhase::Open)).is_empty());
    assert_eq!(conn(&m).data_channel_state, None);
    gather(&mut m, "sdp", "c");
    // gathering is complete, but no remote description yet
    assert!(m.handle_event(id, PeerEvent::Channel(ChannelPhase::Open)).is_empty());
    assert_eq!(conn(&m).data_channel_state, None);
    assert_eq!(m.handle_event(id, PeerEvent::Channel(ChannelPhase::Connecting)).len(), 1);
    assert_eq!(conn(&m).data_channel_state, Some(ChannelPhase::Connecting));
}

#[test]
fn closed_is_terminal() {
    let mut m = WebRTCManager::create_default();
    m.start(Role::Initiator);
    let id = m.session_id;
    gather(&mut m, "sdp", "c");
    assert_eq!(m.handle_event(id, PeerEvent::Channel(ChannelPhase::Closed)).len(), 1);
    assert!(m.handle_event(id, PeerEvent::Channel(ChannelPhase::Connecting)).is_empty());
    assert!(m.handle_event(id, PeerEvent::Channel(ChannelPhase::Closed)).is_empty());
    assert_eq!(conn(&m).data_channel_state, Some(ChannelPhase::Closed));
}

#[test]
fn message_before_open_is_dropped() {
    let mut m = WebRTCManager::create_default();
    m.start(Role::Responder);
    let id = m.session_id;
    assert!(m.handle_event(id, PeerEvent::MessageArrived("early".to_string())).is_empty());
}

#[test]
fn malformed_blob_after_accept_is_a_decode_error() {
    let mut m = WebRTCManager::create_default();
    m.start(Role::Responder);
    assert!(m.accept_remote_package("eyJzZHAiOiJ4IiwiY2FuZGlkYXRlcyI6W119").is_ok());
    let before = m.get_state();
    assert_eq!(
        m.accept_remote_package("not-base64!!").unwrap_err(),
        NegotiationError::Decode(BlobError::Transport)
    );
    assert_eq!(
        m.accept_remote_package("eyJjYW5kaWRhdGVzIjpbXX0=").unwrap_err(),
        NegotiationError::Decode(BlobError::Structure)
    );
    assert_eq!(m.get_state(), before);
    assert!(m.remote_sent);
}

#[test]
fn rejected_candidate_allows_retry() {
    let mut m = WebRTCManager::create_default();
    m.start(Role::Responder);
    assert!(m.accept_remote_package("eyJzZHAiOiJ4IiwiY2FuZGlkYXRlcyI6W119").is_ok());
    let id = m.session_id;
    assert!(m.handle_event(id, PeerEvent::RemoteDescriptionApplied).len() == 2);
    m.handle_event(id, PeerEvent::CandidateRejected);
    assert!(!m.remote_sent);
    assert!(m.remote_applied);
    assert!(m.accept_remote_package("eyJzZHAiOiJ4IiwiY2FuZGlkYXRlcyI6W119").is_ok());
    assert!(m.remote_applied);
}

#[test]
fn candidates_keep_local_description() {
    let mut m = WebRTCManager::create_default();
    m.start(Role::Initiator);
    let id = m.session_id;
    m.handle_event(id, PeerEvent::LocalDescription("sdp".to_string()));
    m.handle_event(id, PeerEvent::CandidateFound("c1".to_string()));
    m.handle_event(id, PeerEvent::CandidateFound("c2".to_string()));
    assert_eq!(m.local_description.as_deref(), Some("sdp"));
    assert_eq!(m.candidates, vec!["c1".to_string(), "c2".to_string()]);
}

use rtc_chat::chat::{ChatModel, Msg};
use rtc_chat::engine::{Command, NegotiationError, Notice, Output, Session};
use rtc_chat::state::{Message, MessageSender};

#[test]
fn message_new_keeps_fields() {
    let m = Message::new("hello".to_string(), MessageSender::Me);
    assert_eq!(m.content, "hello");
    assert_eq!(m.sender, MessageSender::Me);
}

#[test]
fn chat_inputs_and_log() {
    let mut c = ChatModel::create();
    assert!(c.update(Msg::UpdateInputValue("blob".to_string())).is_empty());
    assert_eq!(c.value, "blob");
    assert!(c.update(Msg::UpdateInputChatValue("hey".to_string())).is_empty());
    assert_eq!(c.chat_value, "hey");
    c.update(Msg::NewMessage(Message::new("yo".to_string(), MessageSender::Other)));
    assert_eq!(c.messages.len(), 1);
}

#[test]
fn chat_send_when_closed_logs_nothing() {
    let mut c = ChatModel::create();
    c.update(Msg::StartAsServer);
    c.update(Msg::UpdateInputChatValue("hey".to_string()));
    let out = c.update(Msg::Send);
    assert!(matches!(out[..], [Output::Tell(Notice::Failed(NegotiationError::SendPrecondition))]));
    assert!(c.messages.is_empty());
    assert_eq!(c.chat_value, "hey");
}

#[test]
fn chat_validate_bad_offer_reports_failure() {
    let mut c = ChatModel::create();
    c.update(Msg::ConnectToServer);
    c.update(Msg::UpdateInputValue("not-base64!!".to_string()));
    let out = c.update(Msg::ValidateOffer);
    assert!(matches!(out[..], [Output::Tell(Notice::Failed(NegotiationError::Decode(_)))]));
}

#[test]
fn chat_disconnect_clears() {
    let mut c = ChatModel::create();
    c.update(Msg::StartAsServer);
    c.update(Msg::NewMessage(Message::new("yo".to_string(), MessageSender::Other)));
    c.update(Msg::UpdateInputValue("v".to_string()));
    let out = c.update(Msg::Disconnect);
    assert!(matches!(out[0], Output::Do(Command::ClosePeer)));
    assert!(c.messages.is_empty());
    assert!(c.value.is_empty());
    assert_eq!(c.web_rtc_manager.get_state(), Session::Idle);
}

#[test]
fn chat_validate_offer_hands_over_the_package() {
    let p = rtc_chat::codec::SignalingPackage {
        sdp: "offer".to_string(),
        candidates: vec!["c1".to_string(), "c2".to_string()],
    };
    let mut c = ChatModel::create();
    c.update(Msg::ConnectToServer);
    c.update(Msg::UpdateInputValue(rtc_chat::codec::encode(&p)));
    let out = c.update(Msg::ValidateOffer);
    match &out[..] {
        [Output::Do(Command::ApplyRemote { description, candidates })] => {
            assert_eq!(description, "offer");
            assert_eq!(candidates, &p.candidates);
        }
        o => panic!("unexpected {:?}", o),
    }
    assert!(c.web_rtc_manager.remote_sent);
    let again = c.update(Msg::ValidateOffer);
    assert!(matches!(again[..], [Output::Tell(Notice::Failed(NegotiationError::AlreadyAccepted))]));
}

#[test]
fn chat_failed_send_keeps_manager() {
    let mut c = ChatModel::create();
    c.update(Msg::StartAsServer);
    let id = c.web_rtc_manager.session_id;
    let state = c.web_rtc_manager.get_state();
    c.update(Msg::Send);
    assert_eq!(c.web_rtc_manager.session_id, id);
    assert_eq!(c.web_rtc_manager.get_state(), state);
}

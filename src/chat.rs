//! The chat model behind the page: the engine, the message log and the two
//! input fields, updated message by message.
use vstd::prelude::*;
use crate::b64::has_foreign_char;
use crate::codec::BlobError;
use crate::engine::{
    NegotiationError,
    accept_error, accepted, event_outcome, reset_outcome, send_error, start_outcome, Notice, Output,
    PeerEvent, WebRTCManager,
};
use crate::state::{Message, MessageSender, Role};

verus! {

/// What the page asks of the model.
#[derive(Clone, Debug)]
pub enum Msg {
    /// Start as the side that writes the offer.
    StartAsServer,
    /// Start as the side that answers a friend's offer.
    ConnectToServer,
    ResetWebRTC,
    Disconnect,
    UpdateInputValue(String),
    UpdateInputChatValue(String),
    /// Hand the pasted blob to the engine.
    ValidateOffer,
    NewMessage(Message),
    /// Send the chat input.
    Send,
    /// An event of the peer connection, with the number of its attempt.
    Peer(u64, PeerEvent),
}

pub struct ChatModel {
    pub web_rtc_manager: WebRTCManager,
    pub messages: Vec<Message>,
    /// The blob input.
    pub value: String,
    /// The chat input.
    pub chat_value: String,
}

impl ChatModel {
    pub open spec fn wf(&self) -> bool {
        self.web_rtc_manager.wf()
    }

    pub fn create() -> (r: ChatModel)
        ensures
            r.wf(),
            r.web_rtc_manager.session == crate::engine::Session::Idle,
            r.web_rtc_manager.session_id == 0,
            r.messages@.len() == 0,
            r.value@.len() == 0,
            r.chat_value@.len() == 0,
    {
        ChatModel {
            web_rtc_manager: WebRTCManager::create_default(),
            messages: Vec::new(),
            value: String::new(),
            chat_value: String::new(),
        }
    }

    fn clear(&mut self)
        ensures
            final(self).web_rtc_manager == old(self).web_rtc_manager,
            final(self).messages@.len() == 0,
            final(self).value@.len() == 0,
            final(self).chat_value@.len() == 0,
    {
        self.messages = Vec::new();
        self.value = String::new();
        self.chat_value = String::new();
    }

    /// Applies `msg`; the result is the work for the peer connection and the
    /// notices for the page, in order.
    pub fn update(&mut self, msg: Msg) -> (r: Vec<Output>)
        requires
            old(self).wf(),
            old(self).web_rtc_manager.session_id < u64::MAX,
        ensures
            final(self).wf(),
            match msg {
                Msg::StartAsServer => {
                    &&& start_outcome(old(self).web_rtc_manager, final(self).web_rtc_manager, Role::Initiator, r@)
                    &&& final(self).messages == old(self).messages
                    &&& final(self).value == old(self).value
                    &&& final(self).chat_value == old(self).chat_value
                },
                Msg::ConnectToServer => {
                    &&& start_outcome(old(self).web_rtc_manager, final(self).web_rtc_manager, Role::Responder, r@)
                    &&& final(self).messages == old(self).messages
                    &&& final(self).value == old(self).value
                    &&& final(self).chat_value == old(self).chat_value
                },
                Msg::ResetWebRTC | Msg::Disconnect => {
                    &&& reset_outcome(old(self).web_rtc_manager, final(self).web_rtc_manager, r@)
                    &&& final(self).messages@.len() == 0
                    &&& final(self).value@.len() == 0
                    &&& final(self).chat_value@.len() == 0
                },
                Msg::UpdateInputValue(v) => {
                    &&& final(self).value@ == v@
                    &&& final(self).chat_value == old(self).chat_value
                    &&& final(self).web_rtc_manager == old(self).web_rtc_manager
                    &&& final(self).messages == old(self).messages
                    &&& r@.len() == 0
                },
                Msg::UpdateInputChatValue(v) => {
                    &&& final(self).chat_value@ == v@
                    &&& final(self).value == old(self).value
                    &&& final(self).web_rtc_manager == old(self).web_rtc_manager
                    &&& final(self).messages == old(self).messages
                    &&& r@.len() == 0
                },
                Msg::ValidateOffer => {
                    &&& final(self).messages == old(self).messages
                    &&& final(self).value == old(self).value
                    &&& final(self).chat_value == old(self).chat_value
                    &&& (!(old(self).web_rtc_manager.session is Idle) && has_foreign_char(old(self).value@)
                        ==> r@ =~= seq![Output::Tell(Notice::Failed(NegotiationError::Decode(BlobError::Transport)))])
                    &&& match accept_error(old(self).web_rtc_manager, old(self).value@) {
                        Some(e) => {
                            &&& r@ =~= seq![Output::Tell(Notice::Failed(e))]
                            &&& final(self).web_rtc_manager == old(self).web_rtc_manager
                        },
                        None => accepted(old(self).web_rtc_manager, final(self).web_rtc_manager, old(self).value@, r@),
                    }
                },
                Msg::NewMessage(m) => {
                    &&& final(self).messages@ == old(self).messages@.push(m)
                    &&& final(self).web_rtc_manager == old(self).web_rtc_manager
                    &&& final(self).value == old(self).value
                    &&& final(self).chat_value == old(self).chat_value
                    &&& r@.len() == 0
                },
                Msg::Send => {
                    &&& final(self).web_rtc_manager == old(self).web_rtc_manager
                    &&& final(self).value == old(self).value
                    &&& match send_error(old(self).web_rtc_manager) {
                        Some(e) => {
                            &&& r@ =~= seq![Output::Tell(Notice::Failed(e))]
                            &&& final(self).messages == old(self).messages
                            &&& final(self).chat_value == old(self).chat_value
                        },
                        None => {
                            &&& r@.len() == 1
                            &&& r@[0] is Do && r@[0]->Do_0 is SendText
                            &&& r@[0]->Do_0->SendText_0@ == old(self).chat_value@
                            &&& final(self).messages@.len() == old(self).messages@.len() + 1
                            &&& final(self).messages@.drop_last() == old(self).messages@
                            &&& final(self).messages@.last().sender == MessageSender::Me
                            &&& final(self).messages@.last().content@ == old(self).chat_value@
                            &&& final(self).chat_value@.len() == 0
                        },
                    }
                },
                Msg::Peer(id, ev) => {
                    &&& event_outcome(old(self).web_rtc_manager, final(self).web_rtc_manager, id, ev, r@)
                    &&& final(self).messages == old(self).messages
                    &&& final(self).value == old(self).value
                    &&& final(self).chat_value == old(self).chat_value
                },
            },
    {
        match msg {
            Msg::StartAsServer => self.web_rtc_manager.start(Role::Initiator),
            Msg::ConnectToServer => self.web_rtc_manager.start(Role::Responder),
            Msg::ResetWebRTC | Msg::Disconnect => {
                let out = self.web_rtc_manager.reset();
                self.clear();
                out
            },
            Msg::UpdateInputValue(v) => {
                self.value = v;
                Vec::new()
            },
            Msg::UpdateInputChatValue(v) => {
                self.chat_value = v;
                Vec::new()
            },
            Msg::ValidateOffer => {
                let mut out: Vec<Output> = Vec::new();
                match self.web_rtc_manager.accept_remote_package(self.value.as_str()) {
                    Ok(o) => {
                        out = o;
                    },
                    Err(e) => {
                        out.push(Output::Tell(Notice::Failed(e)));
                    },
                }
                out
            },
            Msg::NewMessage(m) => {
                self.messages.push(m);
                Vec::new()
            },
            Msg::Send => {
                let content = self.chat_value.clone();
                let mut out: Vec<Output> = Vec::new();
                match self.web_rtc_manager.send_message(content.clone()) {
                    Ok(o) => {
                        self.messages.push(Message::new(content, MessageSender::Me));
                        self.chat_value = String::new();
                        out.push(o);
                    },
                    Err(e) => {
                        out.push(Output::Tell(Notice::Failed(e)));
                    },
                }
                out
            },
            Msg::Peer(id, ev) => self.web_rtc_manager.handle_event(id, ev),
        }
    }
}

} // verus!

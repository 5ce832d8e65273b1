use vstd::prelude::*;

verus! {

/// Progress of local network-candidate gathering.
#[derive(Clone, Copy, Debug, PartialEq, Eq, Structural)]
pub enum GatheringPhase {
    Gathering,
    Complete,
}

/// Life cycle of the data channel.
#[derive(Clone, Copy, Debug, PartialEq, Eq, Structural)]
pub enum ChannelPhase {
    Connecting,
    Open,
    Closing,
    Closed,
}

/// Which side of the exchange this peer plays.
#[derive(Clone, Copy, Debug, PartialEq, Eq, Structural)]
pub enum Role {
    /// Creates the offer.
    Initiator,
    /// Answers an offer.
    Responder,
}

/// Rank of a gathering phase; it never decreases for one connection state.
pub open spec fn gathering_rank(g: Option<GatheringPhase>) -> nat {
    match g {
        None => 0,
        Some(GatheringPhase::Gathering) => 1,
        Some(GatheringPhase::Complete) => 2,
    }
}

/// Rank of a channel phase; it never decreases for one connection state.
pub open spec fn channel_rank(c: Option<ChannelPhase>) -> nat {
    match c {
        None => 0,
        Some(ChannelPhase::Connecting) => 1,
        Some(ChannelPhase::Open) => 2,
        Some(ChannelPhase::Closing) => 3,
        Some(ChannelPhase::Closed) => 4,
    }
}

/// Snapshot of how far one connection attempt has come.
#[derive(Clone, Copy, Debug, PartialEq, Eq, Structural)]
pub struct ConnectionState {
    pub ice_gathering_state: Option<GatheringPhase>,
    pub data_channel_state: Option<ChannelPhase>,
}

impl ConnectionState {
    /// The channel exists only once gathering has completed.
    pub open spec fn wf(&self) -> bool {
        self.data_channel_state is Some ==> self.ice_gathering_state == Some(GatheringPhase::Complete)
    }

    /// `next` is reachable from `self` along the phase order: no phase goes back,
    /// and nothing leaves `Closed`.
    pub open spec fn advances_to(&self, next: ConnectionState) -> bool {
        &&& gathering_rank(self.ice_gathering_state) <= gathering_rank(next.ice_gathering_state)
        &&& channel_rank(self.data_channel_state) <= channel_rank(next.data_channel_state)
        &&& self.data_channel_state == Some(ChannelPhase::Closed) ==> next == *self
    }

    pub open spec fn begin_gathering_spec(&self) -> ConnectionState {
        if self.ice_gathering_state is None {
            ConnectionState {
                ice_gathering_state: Some(GatheringPhase::Gathering),
                data_channel_state: self.data_channel_state,
            }
        } else {
            *self
        }
    }

    pub open spec fn complete_gathering_spec(&self) -> ConnectionState {
        ConnectionState {
            ice_gathering_state: Some(GatheringPhase::Complete),
            data_channel_state: self.data_channel_state,
        }
    }

    /// The channel reports `phase`. It is recorded only when gathering has
    /// completed, `Open` only once the remote description is in place, and
    /// never when it would move the channel backwards or out of `Closed`;
    /// otherwise the snapshot is kept as it is.
    pub open spec fn channel_changed_spec(&self, phase: ChannelPhase, remote_applied: bool) -> ConnectionState {
        if self.ice_gathering_state == Some(GatheringPhase::Complete)
            && (phase == ChannelPhase::Open ==> remote_applied)
            && channel_rank(self.data_channel_state) <= channel_rank(Some(phase))
            && self.data_channel_state != Some(ChannelPhase::Closed) {
            ConnectionState { ice_gathering_state: self.ice_gathering_state, data_channel_state: Some(phase) }
        } else {
            *self
        }
    }

    /// A fresh snapshot: nothing gathered, no channel.
    pub fn new() -> (r: ConnectionState)
        ensures
            r.ice_gathering_state is None,
            r.data_channel_state is None,
            r.wf(),
    {
        ConnectionState { ice_gathering_state: None, data_channel_state: None }
    }

    pub fn is_open(&self) -> (r: bool)
        ensures
            r == (self.data_channel_state == Some(ChannelPhase::Open)),
    {
        match self.data_channel_state {
            Some(ChannelPhase::Open) => true,
            _ => false,
        }
    }

    /// Gathering has begun; a phase already reached is kept.
    pub fn begin_gathering(&self) -> (r: ConnectionState)
        requires
            self.wf(),
        ensures
            r.wf(),
            self.advances_to(r),
            r == self.begin_gathering_spec(),
    {
        match self.ice_gathering_state {
            None => ConnectionState {
                ice_gathering_state: Some(GatheringPhase::Gathering),
                data_channel_state: self.data_channel_state,
            },
            Some(_) => *self,
        }
    }

    /// Gathering has finished.
    pub fn complete_gathering(&self) -> (r: ConnectionState)
        requires
            self.wf(),
        ensures
            r.wf(),
            self.advances_to(r),
            r == self.complete_gathering_spec(),
    {
        ConnectionState {
            ice_gathering_state: Some(GatheringPhase::Complete),
            data_channel_state: self.data_channel_state,
        }
    }

    /// The channel reports `phase`.
    pub fn channel_changed(&self, phase: ChannelPhase, remote_applied: bool) -> (r: ConnectionState)
        requires
            self.wf(),
        ensures
            r.wf(),
            self.advances_to(r),
            r == self.channel_changed_spec(phase, remote_applied),
    {
        let complete = match self.ice_gathering_state {
            Some(GatheringPhase::Complete) => true,
            _ => false,
        };
        let open_ok = match phase {
            ChannelPhase::Open => remote_applied,
            _ => true,
        };
        let old_rank: u8 = match self.data_channel_state {
            None => 0,
            Some(ChannelPhase::Connecting) => 1,
            Some(ChannelPhase::Open) => 2,
            Some(ChannelPhase::Closing) => 3,
            Some(ChannelPhase::Closed) => 4,
        };
        let new_rank: u8 = match phase {
            ChannelPhase::Connecting => 1,
            ChannelPhase::Open => 2,
            ChannelPhase::Closing => 3,
            ChannelPhase::Closed => 4,
        };
        if complete && open_ok && old_rank <= new_rank && old_rank != 4 {
            ConnectionState {
                ice_gathering_state: self.ice_gathering_state,
                data_channel_state: Some(phase),
            }
        } else {
            *self
        }
    }
}

/// Steps that each keep the phase order keep it together: along any run of
/// transitions gathering never goes back, the channel never goes back, and
/// nothing leaves `Closed`.
pub proof fn lemma_advances_transitive(a: ConnectionState, b: ConnectionState, c: ConnectionState)
    requires
        a.advances_to(b),
        b.advances_to(c),
    ensures
        a.advances_to(c),
{
}

/// Who wrote a chat message.
#[derive(Clone, Copy, Debug, PartialEq, Eq, Structural)]
pub enum MessageSender {
    Me,
    Other,
}

/// One entry of the chat log.
#[derive(Clone, Debug)]
pub struct Message {
    pub sender: MessageSender,
    pub content: String,
}

impl Message {
    pub fn new(content: String, sender: MessageSender) -> (r: Message)
        ensures
            r.content@ == content@,
            r.sender == sender,
    {
        Message { content, sender }
    }
}

} // verus!

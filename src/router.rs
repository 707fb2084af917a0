use vstd::prelude::*;

use crate::archive::{appended, Archive, ChatMessage, MessageModel};
use crate::live::{LiveChannel, NewMessage, Push, UpdateModel};

verus! {

/// The router's whole state: the local identity, the archive and the live
/// channel slot.
pub struct RouterModel {
    pub local: Seq<char>,
    pub archive: Map<Seq<char>, Seq<MessageModel>>,
    pub live: Option<u32>,
}

/// The other party of a conversation: the sender when the message is addressed
/// to this node, the target otherwise.
pub open spec fn counterparty_of(local: Seq<char>, source: Seq<char>, target: Seq<char>) -> Seq<
    char,
> {
    if target == local {
        source
    } else {
        target
    }
}

/// Who wrote a message: the sender when it is addressed to this node, this
/// node otherwise.
pub open spec fn author_of(local: Seq<char>, source: Seq<char>, target: Seq<char>) -> Seq<char> {
    if target == local {
        source
    } else {
        local
    }
}

/// The message archived for a send.
pub open spec fn archived_message(
    local: Seq<char>,
    source: Seq<char>,
    target: Seq<char>,
    message: Seq<char>,
) -> MessageModel {
    MessageModel { author: author_of(local, source, target), content: message }
}

/// The event shown to a live viewer for a send.
pub open spec fn update_for(
    local: Seq<char>,
    source: Seq<char>,
    target: Seq<char>,
    message: Seq<char>,
) -> UpdateModel {
    UpdateModel {
        chat: counterparty_of(local, source, target),
        author: author_of(local, source, target),
        content: message,
    }
}

/// The state after a send: the message is appended under its counterparty,
/// whatever became of its delivery.
pub open spec fn after_send(
    state: RouterModel,
    source: Seq<char>,
    target: Seq<char>,
    message: Seq<char>,
) -> RouterModel {
    RouterModel {
        archive: appended(
            state.archive,
            counterparty_of(state.local, source, target),
            archived_message(state.local, source, target, message),
        ),
        ..state
    }
}

/// What a send asks of the outside world.
pub struct SendOutcome {
    /// The node the command must be forwarded to; none where it is addressed
    /// to this node.
    pub forward_to: Option<String>,
    /// Whether the sending peer is owed a protocol acknowledgement.
    pub acknowledge: bool,
    /// The event for the live viewer, where one is attached.
    pub push: Option<Push>,
}

/// Routes chat commands for one node and owns its archive and live channel.
pub struct Router {
    local: String,
    archive: Archive,
    live: LiveChannel,
}

impl View for Router {
    type V = RouterModel;

    closed spec fn view(&self) -> RouterModel {
        RouterModel { local: self.local@, archive: self.archive@, live: self.live@ }
    }
}

impl Router {
    /// The archive's invariant holds.
    pub closed spec fn wf(&self) -> bool {
        self.archive.wf()
    }

    /// A router for the node `local`, with an empty archive and no viewer.
    pub fn new(local: String) -> (r: Router)
        ensures
            r.wf(),
            r@ == (RouterModel { local: local@, archive: Map::empty(), live: None }),
    {
        Router { local, archive: Archive::new(), live: LiveChannel::new() }
    }

    pub fn local(&self) -> (r: &String)
        ensures
            r@ == self@.local,
    {
        &self.local
    }

    pub fn archive(&self) -> (r: &Archive)
        ensures
            r.wf() <== self.wf(),
            r@ == self@.archive,
    {
        &self.archive
    }

    pub fn live_channel(&self) -> (r: Option<u32>)
        ensures
            r == self@.live,
    {
        self.live.current()
    }

    /// Registers a newly opened live channel; it replaces any earlier one.
    pub fn attach_viewer(&mut self, channel: u32)
        requires
            old(self).wf(),
        ensures
            final(self).wf(),
            final(self)@ == (RouterModel { live: Some(channel), ..old(self)@ }),
    {
        self.live.attach(channel);
    }

    /// Handles a send of `message` to `target`, issued by `source`.
    /// `is_local_call` tells a command of a local client from one of a remote
    /// peer. The message is archived under its counterparty; the outcome says
    /// where the command is forwarded, whether the peer is acknowledged and
    /// what the live viewer is shown.
    pub fn handle_send(
        &mut self,
        source: &String,
        target: &String,
        message: &String,
        is_local_call: bool,
    ) -> (r: SendOutcome)
        requires
            old(self).wf(),
        ensures
            final(self).wf(),
            final(self)@ == after_send(old(self)@, source@, target@, message@),
            match r.forward_to {
                Some(t) => target@ != old(self)@.local && t@ == target@,
                None => target@ == old(self)@.local,
            },
            r.acknowledge == !is_local_call,
            match old(self)@.live {
                Some(c) => r.push is Some && r.push->0@ == (
                c,
                update_for(old(self)@.local, source@, target@, message@),
                ),
                None => r.push is None,
            },
    {
        let inbound = *target == self.local;
        let counterparty = if inbound {
            source.clone()
        } else {
            target.clone()
        };
        let author = if inbound {
            source.clone()
        } else {
            self.local.clone()
        };
        let forward_to = if inbound {
            None
        } else {
            Some(target.clone())
        };
        let update = NewMessage {
            chat: counterparty.clone(),
            author: author.clone(),
            content: message.clone(),
        };
        self.archive.append(&counterparty, ChatMessage::new(author, message.clone()));
        let push = self.live.notify(update);
        SendOutcome { forward_to, acknowledge: !is_local_call, push }
    }

    /// A full copy of the archive, every conversation in append order.
    pub fn handle_history(&self) -> (r: Archive)
        requires
            self.wf(),
        ensures
            r.wf(),
            r@ == self@.archive,
    {
        self.archive.snapshot()
    }
}

} // verus!

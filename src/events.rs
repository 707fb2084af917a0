use vstd::prelude::*;

use crate::archive::{Archive, MessageModel};
use crate::live::{Push, UpdateModel};
use crate::router::{after_send, update_for, Router, RouterModel};

verus! {

/// A decoded chat command, as carried by peer requests, HTTP POST bodies and
/// WebSocket frames.
pub enum ChatCommand {
    Send { target: String, message: String },
    History,
}

pub enum HttpMethod {
    Get,
    Post,
    Other,
}

/// One inbound event, decoded at the transport boundary. A command whose
/// bytes did not decode is `None`.
pub enum Inbound {
    /// A request of a remote peer.
    Peer { source: String, command: Option<ChatCommand> },
    /// A viewer opened a live channel.
    SocketOpened { channel: u32 },
    /// A live channel was closed.
    SocketClosed { channel: u32 },
    /// A frame that a local viewer sent over its live channel.
    SocketFrame { command: Option<ChatCommand> },
    /// A request of a local client on the HTTP surface.
    Http { method: HttpMethod, body: Option<ChatCommand> },
    /// Bytes that decode as nothing this node handles.
    Unrecognised,
}

/// What the router asks the transport to do.
pub enum Action {
    /// Forward the command's bytes to `target` and wait a bounded time for
    /// its acknowledgement; a failure there changes nothing here.
    Forward { target: String },
    /// Answer the requesting peer with an acknowledgement.
    Acknowledge,
    /// Answer the requesting peer with the whole archive.
    ReplyHistory { archive: Archive },
    /// Answer the HTTP request with the whole archive.
    HttpHistory { archive: Archive },
    /// Answer the HTTP request as created, with an empty body.
    HttpCreated,
    /// Answer the HTTP request as method not allowed.
    HttpMethodNotAllowed,
    /// Push a new-message event to the live viewer.
    Push { push: Push },
}

pub enum ActionModel {
    Forward(Seq<char>),
    Acknowledge,
    ReplyHistory(Map<Seq<char>, Seq<MessageModel>>),
    HttpHistory(Map<Seq<char>, Seq<MessageModel>>),
    HttpCreated,
    HttpMethodNotAllowed,
    Push(u32, UpdateModel),
}

impl View for Action {
    type V = ActionModel;

    open spec fn view(&self) -> ActionModel {
        match self {
            Action::Forward { target } => ActionModel::Forward(target@),
            Action::Acknowledge => ActionModel::Acknowledge,
            Action::ReplyHistory { archive } => ActionModel::ReplyHistory(archive@),
            Action::HttpHistory { archive } => ActionModel::HttpHistory(archive@),
            Action::HttpCreated => ActionModel::HttpCreated,
            Action::HttpMethodNotAllowed => ActionModel::HttpMethodNotAllowed,
            Action::Push { push } => ActionModel::Push(push.channel, push.update@),
        }
    }
}

/// What a send asks for, in order: the forward (for a command addressed to
/// another node), the acknowledgement (for a remote peer) and the push (where
/// a viewer is attached).
pub open spec fn send_actions(
    state: RouterModel,
    source: Seq<char>,
    target: Seq<char>,
    message: Seq<char>,
    is_local_call: bool,
) -> Seq<ActionModel> {
    let forward = if target != state.local {
        seq![ActionModel::Forward(target)]
    } else {
        Seq::empty()
    };
    let ack = if !is_local_call {
        seq![ActionModel::Acknowledge]
    } else {
        Seq::empty()
    };
    let push = match state.live {
        Some(c) => seq![ActionModel::Push(c, update_for(state.local, source, target, message))],
        None => Seq::empty(),
    };
    forward + ack + push
}

/// The state and the actions after one inbound event.
pub open spec fn step(state: RouterModel, event: Inbound) -> (RouterModel, Seq<ActionModel>) {
    match event {
        Inbound::Peer { source, command } => match command {
            Some(ChatCommand::Send { target, message }) => (
                after_send(state, source@, target@, message@),
                send_actions(state, source@, target@, message@, false),
            ),
            Some(ChatCommand::History) => (state, seq![ActionModel::ReplyHistory(state.archive)]),
            None => (state, Seq::empty()),
        },
        Inbound::SocketOpened { channel } => (
            RouterModel { live: Some(channel), ..state },
            Seq::empty(),
        ),
        Inbound::SocketClosed { .. } => (state, Seq::empty()),
        Inbound::SocketFrame { command } => match command {
            Some(ChatCommand::Send { target, message }) => (
                after_send(state, state.local, target@, message@),
                send_actions(state, state.local, target@, message@, true),
            ),
            Some(ChatCommand::History) => (state, seq![ActionModel::ReplyHistory(state.archive)]),
            None => (state, Seq::empty()),
        },
        Inbound::Http { method, body } => match method {
            HttpMethod::Get => (state, seq![ActionModel::HttpHistory(state.archive)]),
            HttpMethod::Post => match body {
                Some(ChatCommand::Send { target, message }) => (
                    after_send(state, state.local, target@, message@),
                    send_actions(state, state.local, target@, message@, true).push(
                        ActionModel::HttpCreated,
                    ),
                ),
                Some(ChatCommand::History) => (
                    state,
                    seq![ActionModel::HttpHistory(state.archive)],
                ),
                None => (state, Seq::empty()),
            },
            HttpMethod::Other => (state, seq![ActionModel::HttpMethodNotAllowed]),
        },
        Inbound::Unrecognised => (state, Seq::empty()),
    }
}

impl Router {
    /// Performs a send and lists what it asks of the transport.
    fn perform_send(
        &mut self,
        source: &String,
        target: &String,
        message: &String,
        is_local_call: bool,
    ) -> (r: Vec<Action>)
        requires
            old(self).wf(),
        ensures
            final(self).wf(),
            final(self)@ == after_send(old(self)@, source@, target@, message@),
            r@.map_values(|a: Action| a@) == send_actions(
                old(self)@,
                source@,
                target@,
                message@,
                is_local_call,
            ),
    {
        let ghost state = self@;
        let outcome = self.handle_send(source, target, message, is_local_call);
        let mut actions: Vec<Action> = Vec::new();
        match outcome.forward_to {
            Some(t) => actions.push(Action::Forward { target: t }),
            None => {},
        }
        if outcome.acknowledge {
            actions.push(Action::Acknowledge);
        }
        match outcome.push {
            Some(push) => actions.push(Action::Push { push }),
            None => {},
        }
        assert(actions@.map_values(|a: Action| a@) =~= send_actions(
            state,
            source@,
            target@,
            message@,
            is_local_call,
        ));
        actions
    }

    /// Handles one inbound event: updates the state and lists the actions
    /// for the transport, in the order they are to be performed. An event
    /// whose command did not decode changes nothing and asks for nothing.
    pub fn handle_event(&mut self, event: Inbound) -> (r: Vec<Action>)
        requires
            old(self).wf(),
        ensures
            final(self).wf(),
            (final(self)@, r@.map_values(|a: Action| a@)) == step(old(self)@, event),
    {
        let ghost state = self@;
        let mut actions: Vec<Action> = Vec::new();
        match event {
            Inbound::Peer { source, command } => match command {
                Some(ChatCommand::Send { target, message }) => {
                    actions = self.perform_send(&source, &target, &message, false);
                },
                Some(ChatCommand::History) => {
                    actions.push(Action::ReplyHistory { archive: self.handle_history() });
                },
                None => {},
            },
            Inbound::SocketOpened { channel } => {
                self.attach_viewer(channel);
            },
            Inbound::SocketClosed { .. } => {},
            Inbound::SocketFrame { command } => match command {
                Some(ChatCommand::Send { target, message }) => {
                    let local = self.local().clone();
                    actions = self.perform_send(&local, &target, &message, true);
                },
                Some(ChatCommand::History) => {
                    actions.push(Action::ReplyHistory { archive: self.handle_history() });
                },
                None => {},
            },
            Inbound::Http { method, body } => match method {
                HttpMethod::Get => {
                    actions.push(Action::HttpHistory { archive: self.handle_history() });
                },
                HttpMethod::Post => match body {
                    Some(ChatCommand::Send { target, message }) => {
                        let local = self.local().clone();
                        actions = self.perform_send(&local, &target, &message, true);
                        actions.push(Action::HttpCreated);
                    },
                    Some(ChatCommand::History) => {
                        actions.push(Action::HttpHistory { archive: self.handle_history() });
                    },
                    None => {},
                },
                HttpMethod::Other => {
                    actions.push(Action::HttpMethodNotAllowed);
                },
            },
            Inbound::Unrecognised => {},
        }
        assert(actions@.map_values(|a: Action| a@) =~= step(state, event).1);
        actions
    }
}

} // verus!

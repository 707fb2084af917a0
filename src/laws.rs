use vstd::prelude::*;

use crate::archive::{appended, history_of, MessageModel};
use crate::events::{step, ActionModel, ChatCommand, HttpMethod, Inbound};
use crate::router::{after_send, archived_message, counterparty_of, update_for, RouterModel};

verus! {

/// One send as the router sees it: who issued it, where it goes, what it says.
pub struct SendModel {
    pub source: Seq<char>,
    pub target: Seq<char>,
    pub message: Seq<char>,
}

/// The state after the sends in `sends`, handled in order.
pub open spec fn run_sends(state: RouterModel, sends: Seq<SendModel>) -> RouterModel
    decreases sends.len(),
{
    if sends.len() == 0 {
        state
    } else {
        let s = sends.last();
        after_send(run_sends(state, sends.drop_last()), s.source, s.target, s.message)
    }
}

/// The counterparties of the sends in `sends`.
pub open spec fn counterparties(local: Seq<char>, sends: Seq<SendModel>) -> Set<Seq<char>>
    decreases sends.len(),
{
    if sends.len() == 0 {
        Set::empty()
    } else {
        let s = sends.last();
        counterparties(local, sends.drop_last()).insert(counterparty_of(local, s.source, s.target))
    }
}

/// Sends leave the local identity and the live channel as they were.
pub proof fn lemma_run_sends_keeps_identity(state: RouterModel, sends: Seq<SendModel>)
    ensures
        run_sends(state, sends).local == state.local,
        run_sends(state, sends).live == state.live,
    decreases sends.len(),
{
    if sends.len() > 0 {
        lemma_run_sends_keeps_identity(state, sends.drop_last());
    }
}

/// Sends that all share one counterparty extend its conversation by exactly
/// their messages, in the order they were handled.
pub proof fn lemma_sends_to_one_counterparty(
    state: RouterModel,
    sends: Seq<SendModel>,
    c: Seq<char>,
)
    requires
        forall|i: int|
            0 <= i < sends.len() ==> counterparty_of(
                state.local,
                #[trigger] sends[i].source,
                sends[i].target,
            ) == c,
    ensures
        history_of(run_sends(state, sends).archive, c) == history_of(state.archive, c)
            + sends.map_values(
            |s: SendModel| archived_message(state.local, s.source, s.target, s.message),
        ),
    decreases sends.len(),
{
    let f = |s: SendModel| archived_message(state.local, s.source, s.target, s.message);
    if sends.len() == 0 {
        assert(history_of(state.archive, c) + sends.map_values(f) =~= history_of(state.archive, c));
    } else {
        let rest = sends.drop_last();
        let s = sends.last();
        assert forall|i: int| 0 <= i < rest.len() implies counterparty_of(
            state.local,
            #[trigger] rest[i].source,
            rest[i].target,
        ) == c by {
            assert(rest[i] == sends[i]);
        }
        lemma_sends_to_one_counterparty(state, rest, c);
        lemma_run_sends_keeps_identity(state, rest);
        let n = sends.len() - 1;
        assert(counterparty_of(state.local, sends[n].source, sends[n].target) == c);
        assert(sends.map_values(f) =~= rest.map_values(f).push(f(s)));
        assert(history_of(run_sends(state, sends).archive, c) =~= history_of(state.archive, c)
            + sends.map_values(f));
    }
}

/// After a run of sends the archive holds exactly the conversations it held
/// before and those with the counterparties of the sends.
pub proof fn lemma_history_keys(state: RouterModel, sends: Seq<SendModel>)
    ensures
        run_sends(state, sends).archive.dom() == state.archive.dom().union(
            counterparties(state.local, sends),
        ),
    decreases sends.len(),
{
    if sends.len() > 0 {
        lemma_history_keys(state, sends.drop_last());
        lemma_run_sends_keeps_identity(state, sends.drop_last());
    }
    assert(run_sends(state, sends).archive.dom() =~= state.archive.dom().union(
        counterparties(state.local, sends),
    ));
}

/// A history request changes nothing, so asking twice in a row gives the same
/// answer both times.
pub proof fn lemma_history_repeatable(state: RouterModel, event: Inbound)
    requires
        match event {
            Inbound::Peer { command, .. } => command == Some(ChatCommand::History),
            Inbound::SocketFrame { command } => command == Some(ChatCommand::History),
            Inbound::Http { method, body } => method == HttpMethod::Get || (method
                == HttpMethod::Post && body == Some(ChatCommand::History)),
            _ => false,
        },
    ensures
        step(state, event).0 == state,
        step(step(state, event).0, event) == step(state, event),
{
}

/// Input that did not decode, on any surface, changes nothing and asks for
/// nothing.
pub proof fn lemma_undecodable_input_ignored(state: RouterModel, event: Inbound)
    requires
        match event {
            Inbound::Peer { command, .. } => command is None,
            Inbound::SocketFrame { command } => command is None,
            Inbound::Http { method, body } => method == HttpMethod::Post && body is None,
            Inbound::Unrecognised => true,
            _ => false,
        },
    ensures
        step(state, event) == (state, Seq::<ActionModel>::empty()),
{
}

/// Every decoded send, on any surface, pushes exactly one matching event to an
/// attached viewer, and none where no viewer is attached.
pub proof fn lemma_one_push_per_send(state: RouterModel, event: Inbound)
    requires
        match event {
            Inbound::Peer { command, .. } => command matches Some(ChatCommand::Send { .. }),
            Inbound::SocketFrame { command } => command matches Some(ChatCommand::Send { .. }),
            Inbound::Http { method, body } => method == HttpMethod::Post && body matches Some(
                ChatCommand::Send { .. },
            ),
            _ => false,
        },
    ensures
        ({
            let actions = step(state, event).1;
            let (source, target, message) = match event {
                Inbound::Peer { source, command: Some(ChatCommand::Send { target, message }) } => (
                    source@,
                    target@,
                    message@,
                ),
                Inbound::SocketFrame { command: Some(ChatCommand::Send { target, message }) } => (
                    state.local,
                    target@,
                    message@,
                ),
                Inbound::Http { body: Some(ChatCommand::Send { target, message }), .. } => (
                    state.local,
                    target@,
                    message@,
                ),
                _ => (state.local, state.local, state.local),
            };
            &&& forall|i: int, j: int|
                0 <= i < actions.len() && 0 <= j < actions.len() && actions[i] is Push
                    && actions[j] is Push ==> i == j
            &&& match state.live {
                Some(c) => exists|i: int|
                    0 <= i < actions.len() && actions[i] == ActionModel::Push(
                        c,
                        update_for(state.local, source, target, message),
                    ),
                None => forall|i: int| 0 <= i < actions.len() ==> !(actions[i] is Push),
            }
        }),
{
    let actions = step(state, event).1;
    match state.live {
        Some(c) => {
            let i = actions.len() - 1;
            match event {
                Inbound::Http { .. } => {
                    assert(actions[i - 1] is Push);
                },
                _ => {
                    assert(actions[i] is Push);
                },
            }
        },
        None => {},
    }
}

/// A send to another node is archived under that node whatever becomes of
/// its delivery: the delivery's outcome is no input of the router's step.
pub proof fn lemma_send_archived_without_delivery(
    state: RouterModel,
    target: Seq<char>,
    message: Seq<char>,
)
    requires
        target != state.local,
    ensures
        after_send(state, state.local, target, message).archive.contains_key(target),
        after_send(state, state.local, target, message).archive[target].last() == (MessageModel {
            author: state.local,
            content: message,
        }),
        after_send(state, state.local, target, message).archive[target].drop_last()
            == history_of(state.archive, target),
{
    assert(appended(
        state.archive,
        target,
        MessageModel { author: state.local, content: message },
    )[target].drop_last() =~= history_of(state.archive, target));
}

} // verus!

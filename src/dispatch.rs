//! Routing of client events: which persistence step each event needs, and
//! what is fanned out and acknowledged once its result is known.
//!
//! The host runs the steps: it performs each [`Query`], hands the result back
//! as a [`Reply`] to [`resume`], and delivers the final [`Outcome`].

use crate::protocol::{
    direct_failure_ack, direct_failure_text, group_failure_ack, group_failure_text, group_line,
    group_line_text, sent_ack, sent_group_ack, sent_group_text, sent_text, WsMessage,
};
use vstd::prelude::*;

verus! {

/// A persistence call the dispatcher needs answered before it can go on.
#[derive(Debug)]
pub enum Query {
    /// Store a direct message; the conversation is found from the pair of users.
    SaveDirect { sender: i32, recipient: i32, content: String },
    /// Store a group message; fails unless the sender is a member.
    SaveGroup { sender: i32, group_id: i32, content: String },
    /// The ids of the members of a group.
    GroupMembers { group_id: i32 },
    /// The other participant of a conversation.
    ConversationPartner { conversation_id: i32, requester: i32 },
    /// Mark a message read; yields its sender only if it was unread.
    MarkRead { message_id: i32, reader: i32 },
}

/// What a [`Query`] came back with.
#[derive(Debug)]
pub enum Reply {
    /// The message was stored.
    Saved,
    /// The call failed.
    Failed { error: String },
    /// The members of the group.
    Members { user_ids: Vec<i32> },
    /// The other participant, if the requester is in the conversation.
    Partner { user_id: Option<i32> },
    /// The sender of the message, if this call made it read.
    MarkedRead { sender: Option<i32> },
}

/// What the dispatcher keeps while a [`Query`] is outstanding.
#[derive(Debug)]
pub enum Pending {
    DirectSave { recipient: i32, content: String },
    GroupSave { group_id: i32, content: String },
    GroupFanout { group_id: i32, content: String },
    GroupTyping { group_id: i32, is_typing: bool },
    PartnerTyping { conversation_id: i32, is_typing: bool },
    ReadMark { message_id: i32 },
}

/// Who is to receive an outbound event.
#[derive(Debug)]
pub enum Fanout {
    Nobody,
    /// One user, if online.
    One { user_id: i32, message: WsMessage },
    /// Each listed user that is online, independently.
    Many { user_ids: Vec<i32>, message: WsMessage },
}

/// The end of one event's handling.
#[derive(Debug)]
pub struct Outcome {
    pub fanout: Fanout,
    /// The text sent back to the sender, if any.
    pub ack: Option<String>,
}

/// The next thing to do for an event.
#[derive(Debug)]
pub enum Step {
    Ask { query: Query, pending: Pending },
    Finish { outcome: Outcome },
}

/// `user_ids` without `sender`, in order.
pub open spec fn others(user_ids: Seq<i32>, sender: i32) -> Seq<i32>
    decreases user_ids.len(),
{
    if user_ids.len() == 0 {
        Seq::empty()
    } else {
        let rest = others(user_ids.drop_last(), sender);
        if user_ids.last() != sender {
            rest.push(user_ids.last())
        } else {
            rest
        }
    }
}

/// The step finishes with nothing sent to anyone.
pub open spec fn finishes_silently(r: Step) -> bool {
    r matches Step::Finish { outcome } && outcome.fanout is Nobody && outcome.ack is None
}

/// The step finishes with only `ack` sent back to the sender.
pub open spec fn finishes_with_ack(r: Step, ack: Seq<char>) -> bool {
    &&& r matches Step::Finish { outcome }
    &&& outcome.fanout is Nobody
    &&& outcome.ack matches Some(a)
    &&& a@ == ack
}

/// The sender is not a target of the step's fan-out.
pub open spec fn spares(r: Step, sender: i32) -> bool {
    match r {
        Step::Finish { outcome } => match outcome.fanout {
            Fanout::Nobody => true,
            Fanout::One { user_id, .. } => user_id != sender,
            Fanout::Many { user_ids, .. } => !user_ids@.contains(sender),
        },
        Step::Ask { .. } => true,
    }
}

/// Every member of a group but the sender is targeted, and the sender never is.
pub proof fn lemma_others_exclude_sender(user_ids: Seq<i32>, sender: i32)
    ensures
        !others(user_ids, sender).contains(sender),
        forall|u: i32| user_ids.contains(u) && u != sender ==> others(user_ids, sender).contains(u),
    decreases user_ids.len(),
{
    if user_ids.len() > 0 {
        let init = user_ids.drop_last();
        lemma_others_exclude_sender(init, sender);
        let rest = others(init, sender);
        if user_ids.last() != sender {
            assert(!rest.push(user_ids.last()).contains(sender)) by {
                if rest.push(user_ids.last()).contains(sender) {
                    let i = choose|i: int|
                        0 <= i < rest.len() + 1 && rest.push(user_ids.last())[i] == sender;
                    assert(rest.push(user_ids.last())[i] == rest[i]);
                }
            }
        }
        assert forall|u: i32| user_ids.contains(u) && u != sender implies others(
            user_ids,
            sender,
        ).contains(u) by {
            let i = choose|i: int| 0 <= i < user_ids.len() && user_ids[i] == u;
            if i < user_ids.len() - 1 {
                assert(init[i] == u);
                assert(init.contains(u));
                assert(rest.contains(u));
                let j = choose|j: int| 0 <= j < rest.len() && rest[j] == u;
                if user_ids.last() != sender {
                    assert(rest.push(user_ids.last())[j] == u);
                }
            } else {
                assert(rest.push(user_ids.last())[rest.len() as int] == u);
            }
        }
    }
}

/// The ids of `user_ids` other than `sender`, in order.
pub fn without_sender(user_ids: &Vec<i32>, sender: i32) -> (r: Vec<i32>)
    ensures
        r@ == others(user_ids@, sender),
{
    let mut out: Vec<i32> = Vec::new();
    let mut i: usize = 0;
    while i < user_ids.len()
        invariant
            i <= user_ids@.len(),
            out@ == others(user_ids@.subrange(0, i as int), sender),
        decreases user_ids.len() - i,
    {
        proof {
            assert(user_ids@.subrange(0, i + 1).drop_last() =~= user_ids@.subrange(0, i as int));
        }
        if user_ids[i] != sender {
            out.push(user_ids[i]);
        }
        i = i + 1;
    }
    proof {
        assert(user_ids@.subrange(0, user_ids@.len() as int) =~= user_ids@);
    }
    out
}

fn nothing() -> (r: Step)
    ensures
        finishes_silently(r),
{
    Step::Finish { outcome: Outcome { fanout: Fanout::Nobody, ack: None } }
}

fn only_ack(ack: String) -> (r: Step)
    ensures
        finishes_with_ack(r, ack@),
{
    Step::Finish { outcome: Outcome { fanout: Fanout::Nobody, ack: Some(ack) } }
}

/// The first step for an event that `sender` sent.
pub fn dispatch(sender: i32, message: WsMessage) -> (r: Step)
    ensures
        match message {
            WsMessage::TextMessage { to_user_id, content } => r matches Step::Ask {
                query: Query::SaveDirect { sender: s, recipient, content: c },
                pending: Pending::DirectSave { recipient: pr, content: pc },
            } && s == sender && recipient == to_user_id && c@ == content@ && pr == to_user_id
                && pc@ == content@,
            WsMessage::GroupMessage { group_id, content } => r matches Step::Ask {
                query: Query::SaveGroup { sender: s, group_id: g, content: c },
                pending: Pending::GroupSave { group_id: pg, content: pc },
            } && s == sender && g == group_id && c@ == content@ && pg == group_id && pc@
                == content@,
            WsMessage::Typing { conversation_id, group_id, is_typing } => match group_id {
                Some(g) => r matches Step::Ask {
                    query: Query::GroupMembers { group_id: qg },
                    pending: Pending::GroupTyping { group_id: pg, is_typing: t },
                } && qg == g && pg == g && t == is_typing,
                None => match conversation_id {
                    Some(c) => r matches Step::Ask {
                        query: Query::ConversationPartner { conversation_id: qc, requester },
                        pending: Pending::PartnerTyping { conversation_id: pc, is_typing: t },
                    } && qc == c && requester == sender && pc == c && t == is_typing,
                    None => finishes_silently(r),
                },
            },
            WsMessage::MessageRead { message_id } => r matches Step::Ask {
                query: Query::MarkRead { message_id: qm, reader },
                pending: Pending::ReadMark { message_id: pm },
            } && qm == message_id && reader == sender && pm == message_id,
            WsMessage::UserStatus { .. } => finishes_silently(r),
        },
{
    match message {
        WsMessage::TextMessage { to_user_id, content } => {
            let kept = content.clone();
            Step::Ask {
                query: Query::SaveDirect { sender, recipient: to_user_id, content },
                pending: Pending::DirectSave { recipient: to_user_id, content: kept },
            }
        },
        WsMessage::GroupMessage { group_id, content } => {
            let kept = content.clone();
            Step::Ask {
                query: Query::SaveGroup { sender, group_id, content },
                pending: Pending::GroupSave { group_id, content: kept },
            }
        },
        WsMessage::Typing { conversation_id, group_id, is_typing } => match group_id {
            Some(g) => Step::Ask {
                query: Query::GroupMembers { group_id: g },
                pending: Pending::GroupTyping { group_id: g, is_typing },
            },
            None => match conversation_id {
                Some(c) => Step::Ask {
                    query: Query::ConversationPartner { conversation_id: c, requester: sender },
                    pending: Pending::PartnerTyping { conversation_id: c, is_typing },
                },
                None => nothing(),
            },
        },
        WsMessage::MessageRead { message_id } => Step::Ask {
            query: Query::MarkRead { message_id, reader: sender },
            pending: Pending::ReadMark { message_id },
        },
        WsMessage::UserStatus { .. } => nothing(),
    }
}

/// The step after `pending`'s query came back with `reply`.
///
/// A reply of the wrong kind for the pending query ends the event silently.
pub fn resume(sender: i32, pending: Pending, reply: Reply) -> (r: Step)
    ensures
        (pending is GroupFanout || pending is GroupTyping || pending is PartnerTyping) ==> spares(
            r,
            sender,
        ),
        match (pending, reply) {
            (Pending::DirectSave { recipient, content }, Reply::Saved) => r matches Step::Finish {
                outcome: Outcome {
                    fanout: Fanout::One {
                        user_id,
                        message: WsMessage::TextMessage { to_user_id, content: c },
                    },
                    ack: Some(a),
                },
            } && user_id == recipient && to_user_id == sender && c@ == content@ && a@
                == sent_ack(content@),
            (Pending::DirectSave { recipient, .. }, Reply::Failed { .. }) => finishes_with_ack(
                r,
                direct_failure_ack(),
            ),
            (Pending::GroupSave { group_id, content }, Reply::Saved) => r matches Step::Ask {
                query: Query::GroupMembers { group_id: qg },
                pending: Pending::GroupFanout { group_id: pg, content: pc },
            } && qg == group_id && pg == group_id && pc@ == content@,
            (Pending::GroupSave { .. }, Reply::Failed { error }) => finishes_with_ack(
                r,
                group_failure_ack(error@),
            ),
            (Pending::GroupFanout { group_id, content }, Reply::Members { user_ids }) => r matches Step::Finish {
                outcome: Outcome {
                    fanout: Fanout::Many {
                        user_ids: targets,
                        message: WsMessage::GroupMessage { group_id: g, content: c },
                    },
                    ack: Some(a),
                },
            } && targets@ == others(user_ids@, sender) && g == group_id && c@ == group_line(
                sender as int,
                content@,
            ) && a@ == sent_group_ack(content@),
            (Pending::GroupTyping { group_id, is_typing }, Reply::Members { user_ids }) => r matches Step::Finish {
                outcome: Outcome {
                    fanout: Fanout::Many {
                        user_ids: targets,
                        message: WsMessage::Typing {
                            conversation_id: None,
                            group_id: Some(g),
                            is_typing: t,
                        },
                    },
                    ack: None,
                },
            } && targets@ == others(user_ids@, sender) && g == group_id && t == is_typing,
            (
                Pending::PartnerTyping { conversation_id, is_typing },
                Reply::Partner { user_id: Some(p) },
            ) => if p == sender {
                finishes_silently(r)
            } else {
                r matches Step::Finish {
                    outcome: Outcome {
                        fanout: Fanout::One {
                            user_id,
                            message: WsMessage::Typing {
                                conversation_id: Some(c),
                                group_id: None,
                                is_typing: t,
                            },
                        },
                        ack: None,
                    },
                } && user_id == p && c == conversation_id && t == is_typing
            },
            (Pending::ReadMark { message_id }, Reply::MarkedRead { sender: Some(s) }) => r matches Step::Finish {
                outcome: Outcome {
                    fanout: Fanout::One { user_id, message: WsMessage::MessageRead { message_id: m } },
                    ack: None,
                },
            } && user_id == s && m == message_id,
            _ => finishes_silently(r),
        },
{
    match (pending, reply) {
        (Pending::DirectSave { recipient, content }, Reply::Saved) => {
            let ack = sent_text(content.as_str());
            Step::Finish {
                outcome: Outcome {
                    fanout: Fanout::One {
                        user_id: recipient,
                        message: WsMessage::TextMessage { to_user_id: sender, content },
                    },
                    ack: Some(ack),
                },
            }
        },
        (Pending::DirectSave { .. }, Reply::Failed { .. }) => only_ack(direct_failure_text()),
        (Pending::GroupSave { group_id, content }, Reply::Saved) => Step::Ask {
            query: Query::GroupMembers { group_id },
            pending: Pending::GroupFanout { group_id, content },
        },
        (Pending::GroupSave { .. }, Reply::Failed { error }) => only_ack(
            group_failure_text(error.as_str()),
        ),
        (Pending::GroupFanout { group_id, content }, Reply::Members { user_ids }) => {
            let targets = without_sender(&user_ids, sender);
            proof {
                lemma_others_exclude_sender(user_ids@, sender);
            }
            let line = group_line_text(sender, content.as_str());
            let ack = sent_group_text(content.as_str());
            Step::Finish {
                outcome: Outcome {
                    fanout: Fanout::Many {
                        user_ids: targets,
                        message: WsMessage::GroupMessage { group_id, content: line },
                    },
                    ack: Some(ack),
                },
            }
        },
        (Pending::GroupTyping { group_id, is_typing }, Reply::Members { user_ids }) => {
            let targets = without_sender(&user_ids, sender);
            proof {
                lemma_others_exclude_sender(user_ids@, sender);
            }
            Step::Finish {
                outcome: Outcome {
                    fanout: Fanout::Many {
                        user_ids: targets,
                        message: WsMessage::Typing {
                            conversation_id: None,
                            group_id: Some(group_id),
                            is_typing,
                        },
                    },
                    ack: None,
                },
            }
        },
        (
            Pending::PartnerTyping { conversation_id, is_typing },
            Reply::Partner { user_id: Some(p) },
        ) => {
            if p == sender {
                nothing()
            } else {
                Step::Finish {
                    outcome: Outcome {
                        fanout: Fanout::One {
                            user_id: p,
                            message: WsMessage::Typing {
                                conversation_id: Some(conversation_id),
                                group_id: None,
                                is_typing,
                            },
                        },
                        ack: None,
                    },
                }
            }
        },
        (Pending::ReadMark { message_id }, Reply::MarkedRead { sender: Some(s) }) => {
            Step::Finish {
                outcome: Outcome {
                    fanout: Fanout::One {
                        user_id: s,
                        message: WsMessage::MessageRead { message_id },
                    },
                    ack: None,
                },
            }
        },
        _ => nothing(),
    }
}

} // verus!

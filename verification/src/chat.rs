//! The free-form chat session: a growing message sequence seeded once with
//! a fixed system message, and the reconstruction of a session from stored
//! turns.
//!
//! A session loops through: seed the system message (first turn only),
//! append the user's turn, obtain the assistant's reply from the transport,
//! append it. Storage hands history back newest-first; the assembler
//! rebuilds it oldest-first before the new user turn goes on the end.

use vstd::prelude::*;

use crate::message::Message;
use crate::message::Role;
use crate::models::ChatMessage;

verus! {

/// How many stored turns a rebuilt session loads, at most.
pub const HISTORY_LIMIT: usize = 10;

/// The fixed system instruction seeding an interactive chat session.
pub open spec fn spec_chat_system_prompt() -> Seq<char> {
    "You are a helpful personal assistant. Help the user with productivity, task management, and financial advice. Be concise and friendly."@
}

/// The fixed system instruction of a rebuilt server-side chat session.
pub open spec fn spec_server_chat_system_prompt() -> Seq<char> {
    "You are a helpful SaaS personal assistant."@
}

/// A well-seeded conversation: if it has any message at all, the one at
/// position zero is the only system-role message.
pub open spec fn spec_seeded(conversation: Seq<Message>) -> bool {
    conversation.len() > 0 ==> (conversation[0].role == Role::System && forall|i: int|
        1 <= i < conversation.len() ==> conversation[i].role != Role::System)
}

/// Advance a session by one user turn: the first turn of a fresh session
/// places exactly one system message at position zero before the user's
/// message; every later turn appends the user's message alone and never
/// re-inserts a system message.
pub fn chat_prepare(conv: &mut Vec<Message>, user_input: &str)
    ensures
        old(conv)@.len() == 0 ==> (final(conv)@.len() == 2 && final(conv)@[0].role == Role::System && final(conv)@[0].content@
            == spec_chat_system_prompt()),
        old(conv)@.len() > 0 ==> final(conv)@.len() == old(conv)@.len()
            + 1,
        forall|i: int| 0 <= i < old(conv)@.len() ==> final(conv)@[i] == old(conv)@[i],
        final(conv)@.last().role == Role::User,
        final(conv)@.last().content@ == user_input@,
        spec_seeded(old(conv)@) ==> spec_seeded(final(conv)@),
{
    if conv.len() == 0 {
        conv.push(
            Message::system(
                "You are a helpful personal assistant. Help the user with productivity, task management, and financial advice. Be concise and friendly.",
            ),
        );
    }
    conv.push(Message::user(user_input));
}

/// Record the assistant's reply as the session's newest turn; the seeding
/// invariant is preserved.
pub fn chat_commit(conv: &mut Vec<Message>, reply: &str)
    ensures
        final(conv)@.len() == old(conv)@.len() + 1,
        forall|i: int| 0 <= i < old(conv)@.len() ==> final(conv)@[i] == old(conv)@[i],
        final(conv)@.last().role == Role::Assistant,
        final(conv)@.last().content@ == reply@,
        old(conv)@.len() > 0 && spec_seeded(old(conv)@) ==> spec_seeded(final(conv)@),
{
    conv.push(Message::assistant(reply));
}

/// Rebuild a session's prompt from stored turns fetched newest-first: the
/// fixed system message, then the stored turns oldest first (the storage
/// order reversed), then the new user message.
pub fn chat_messages_from_history(history: &Vec<ChatMessage>, new_user: &str) -> (msgs: Vec<
    Message,
>)
    ensures
        msgs@.len() == history@.len() + 2,
        msgs@[0].role == Role::System,
        msgs@[0].content@ == spec_server_chat_system_prompt(),
        forall|j: int|
            1 <= j <= history@.len() ==> ((#[trigger] msgs@[j]).role == history@[history@.len()
                - j].role && msgs@[j].content@ == history@[history@.len() - j].content@),
        msgs@.last().role == Role::User,
        msgs@.last().content@ == new_user@,
{
    let mut msgs: Vec<Message> = Vec::new();
    msgs.push(Message::system("You are a helpful SaaS personal assistant."));
    let mut i: usize = 0;
    while i < history.len()
        invariant
            0 <= i <= history@.len(),
            msgs@.len() == i + 1,
            msgs@[0].role == Role::System,
            msgs@[0].content@ == spec_server_chat_system_prompt(),
            forall|j: int|
                1 <= j <= i ==> ((#[trigger] msgs@[j]).role == history@[history@.len() - j].role
                    && msgs@[j].content@ == history@[history@.len() - j].content@),
        decreases history@.len() - i,
    {
        let idx = history.len() - 1 - i;
        let turn = &history[idx];
        msgs.push(Message { role: turn.role, content: turn.content.clone() });
        i += 1;
    }
    msgs.push(Message::user(new_user));
    msgs
}

/// The stored turns in the order the assembler replays them: storage hands
/// them over newest first, the assembler walks them back to front, so the
/// replay order is the storage order reversed. [`chat_messages_from_history`]
/// places the turn at replay position `j` at message position `j + 1`.
pub open spec fn spec_replay_order(history: Seq<ChatMessage>) -> Seq<ChatMessage> {
    Seq::new(history.len(), |i: int| history[history.len() - 1 - i])
}

/// When the stored turns are ordered newest first, the order the assembler
/// replays them in is chronological: between the system message and the new
/// user turn, no rebuilt turn postdates a later one.
pub proof fn lemma_replay_order_chronological(history: Seq<ChatMessage>)
    requires
        forall|i: int, j: int|
            0 <= i <= j < history.len() ==> history[i].created_at >= history[j].created_at,
    ensures
        forall|i: int, j: int|
            0 <= i <= j < history.len() ==> (#[trigger] spec_replay_order(history)[i]).created_at
                <= (#[trigger] spec_replay_order(history)[j]).created_at,
{
    assert forall|i: int, j: int| 0 <= i <= j < history.len() implies (#[trigger] spec_replay_order(
        history,
    )[i]).created_at <= (#[trigger] spec_replay_order(history)[j]).created_at by {
        assert(spec_replay_order(history)[i] == history[history.len() - 1 - i]);
        assert(spec_replay_order(history)[j] == history[history.len() - 1 - j]);
        assert(history[history.len() - 1 - j].created_at >= history[history.len() - 1
            - i].created_at);
    }
}

} // verus!

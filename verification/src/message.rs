//! Role-tagged chat messages.
//!
//! A message carries one of three closed roles. The role is kept as a
//! variant here; it is rendered to the provider's literal strings
//! ("system", "user", "assistant") only at the transport boundary.

use vstd::prelude::*;

verus! {

/// The closed set of roles a conversation turn may carry.
#[derive(Clone, Copy, PartialEq, Eq, Structural, Debug)]
pub enum Role {
    System,
    User,
    Assistant,
}

/// One role-tagged message of a prompt sequence or a stored conversation.
#[derive(Clone, Debug)]
pub struct Message {
    pub role: Role,
    pub content: String,
}

impl Message {
    /// A user-role message with the given content.
    pub fn user(content: &str) -> (m: Message)
        ensures
            m.role == Role::User,
            m.content@ == content@,
    {
        Message { role: Role::User, content: content.to_owned() }
    }

    /// An assistant-role message with the given content.
    pub fn assistant(content: &str) -> (m: Message)
        ensures
            m.role == Role::Assistant,
            m.content@ == content@,
    {
        Message { role: Role::Assistant, content: content.to_owned() }
    }

    /// A system-role message with the given content.
    pub fn system(content: &str) -> (m: Message)
        ensures
            m.role == Role::System,
            m.content@ == content@,
    {
        Message { role: Role::System, content: content.to_owned() }
    }

    /// The provider-side literal for this message's role.
    pub fn role_label(&self) -> (s: &'static str)
        ensures
            s@ == spec_role_label(self.role),
    {
        match self.role {
            Role::System => "system",
            Role::User => "user",
            Role::Assistant => "assistant",
        }
    }
}

/// The literal string a role is serialized to at the transport boundary.
pub open spec fn spec_role_label(r: Role) -> Seq<char> {
    match r {
        Role::System => "system"@,
        Role::User => "user"@,
        Role::Assistant => "assistant"@,
    }
}

} // verus!

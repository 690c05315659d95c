//! Domain records, modeled as plain values.
//!
//! The record store owns these rows; this core only reads them. Timestamps
//! are seconds since the epoch, and money is in integer cents: the store
//! boundary converts to and from its own date and decimal types.

use vstd::prelude::*;

verus! {

/// A registered account: unique id, unique email, salted password hash.
#[derive(Clone, Debug)]
pub struct User {
    pub id: String,
    pub email: String,
    pub password_hash: String,
    pub created_at: u64,
}

/// A task owned by one identity.
#[derive(Clone, Debug)]
pub struct Task {
    pub id: String,
    pub user_id: String,
    pub title: String,
    pub completed: bool,
    pub created_at: u64,
}

/// An expense owned by one identity; the amount is in cents.
#[derive(Clone, Debug)]
pub struct Expense {
    pub id: String,
    pub user_id: String,
    pub category: String,
    pub amount_cents: u64,
    pub created_at: u64,
}

/// One persisted conversation turn of an identity's chat history.
#[derive(Clone, Debug)]
pub struct ChatMessage {
    pub id: String,
    pub user_id: String,
    pub role: crate::message::Role,
    pub content: String,
    pub created_at: u64,
}

/// Spending total and per-category breakdown, all in cents.
#[derive(Clone, Debug)]
pub struct BudgetSummary {
    pub total_cents: u64,
    pub categories: Vec<(String, u64)>,
}

/// A task-creation submission: only the title; the id, owner and
/// timestamp are supplied server-side.
#[derive(Clone, Debug)]
pub struct CreateTaskRequest {
    pub title: String,
}

/// A partial task update: a field left absent stays as it is.
#[derive(Clone, Debug)]
pub struct UpdateTaskRequest {
    pub completed: Option<bool>,
    pub title: Option<String>,
}

impl Task {
    /// Apply a partial update: exactly the fields the request names change,
    /// everything else — identity, owner, timestamp — stays as it is.
    pub fn apply_update(&self, req: &UpdateTaskRequest) -> (t: Task)
        ensures
            t.id == self.id,
            t.user_id == self.user_id,
            t.created_at == self.created_at,
            req.completed matches Some(c) ==> t.completed == c,
            req.completed is None ==> t.completed == self.completed,
            req.title matches Some(s) ==> t.title == s,
            req.title is None ==> t.title == self.title,
    {
        Task {
            id: self.id.clone(),
            user_id: self.user_id.clone(),
            title: match &req.title {
                Some(s) => s.clone(),
                None => self.title.clone(),
            },
            completed: match req.completed {
                Some(c) => c,
                None => self.completed,
            },
            created_at: self.created_at,
        }
    }
}

/// A registration submission.
#[derive(Clone, Debug)]
pub struct RegisterRequest {
    pub email: String,
    pub password: String,
}

/// A login submission.
#[derive(Clone, Debug)]
pub struct LoginRequest {
    pub email: String,
    pub password: String,
}

} // verus!

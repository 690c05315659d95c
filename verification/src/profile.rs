//! A lightweight in-memory profile of one user's recent activity, fed to
//! the context assembler. Money is in integer cents.

use vstd::prelude::*;
use vstd::string::*;

verus! {

/// How many recent task titles the history keeps.
pub const TASK_HISTORY_LIMIT: usize = 20;

/// Recent tasks and spending of one user.
pub struct UserProfile {
    /// The most recently added task title, if any.
    pub frequent_task: Option<String>,
    /// Total recorded spending, in cents.
    pub total_cents: u64,
    /// The most recent task titles, oldest first, at most twenty.
    pub task_history: Vec<String>,
    /// Every recorded expense as a category name and an amount in cents.
    pub spending_categories: Vec<(String, u64)>,
}

impl UserProfile {
    /// An empty profile: no tasks seen, nothing spent.
    pub fn new() -> (p: UserProfile)
        ensures
            p.frequent_task is None,
            p.total_cents == 0,
            p.task_history@ == Seq::<String>::empty(),
            p.spending_categories@ == Seq::<(String, u64)>::empty(),
    {
        UserProfile {
            frequent_task: None,
            total_cents: 0,
            task_history: Vec::new(),
            spending_categories: Vec::new(),
        }
    }

    /// Record a task title: append it to the history, dropping the oldest
    /// entry once the history is full, and remember it as the most recent.
    pub fn add_task_to_history(&mut self, task: &str)
        ensures
            final(self).frequent_task matches Some(t) && t@ == task@,
            old(self).task_history@.len() < TASK_HISTORY_LIMIT ==> final(self).task_history@.len()
                == old(self).task_history@.len() + 1,
            old(self).task_history@.len() >= TASK_HISTORY_LIMIT ==> final(self).task_history@.len()
                == old(self).task_history@.len(),
            final(self).task_history@ == if old(self).task_history@.len() < TASK_HISTORY_LIMIT {
                old(self).task_history@.push(final(self).task_history@.last())
            } else {
                old(self).task_history@.push(final(self).task_history@.last()).drop_first()
            },
            final(self).task_history@.last()@ == task@,
            final(self).total_cents == old(self).total_cents,
            final(self).spending_categories == old(self).spending_categories,
    {
        self.task_history.push(task.to_owned());
        if self.task_history.len() > TASK_HISTORY_LIMIT {
            self.task_history.remove(0);
            proof {
                assert(self.task_history@ =~= old(self).task_history@.push(
                    self.task_history@.last(),
                ).drop_first());
            }
        }
        self.frequent_task = Some(task.to_owned());
    }

    /// Record an expense: remember the category and amount and add the
    /// amount to the running total.
    pub fn add_spending(&mut self, category: &str, amount_cents: u64)
        requires
            old(self).total_cents + amount_cents <= u64::MAX,
        ensures
            final(self).total_cents == old(self).total_cents + amount_cents,
            final(self).spending_categories@.len() == old(self).spending_categories@.len() + 1,
            final(self).spending_categories@.drop_last() == old(self).spending_categories@,
            final(self).spending_categories@.last().0@ == category@,
            final(self).spending_categories@.last().1 == amount_cents,
            final(self).frequent_task == old(self).frequent_task,
            final(self).task_history == old(self).task_history,
    {
        self.spending_categories.push((category.to_owned(), amount_cents));
        self.total_cents = self.total_cents + amount_cents;
        proof {
            assert(self.spending_categories@.drop_last() =~= old(self).spending_categories@);
        }
    }

    /// The line the interactive assistant prints for this profile: the most
    /// recently added task if one exists, a nudge to add tasks otherwise.
    pub fn suggest_action(&self) -> (s: String)
        ensures
            match self.frequent_task {
                Some(t) => s@ == "🤖 Suggestion: You often work on '"@ + t@
                    + "'. Want to continue?"@,
                None => s@ == "🤖 No suggestions yet. Add more tasks!"@,
            },
    {
        match &self.frequent_task {
            Some(task) => {
                let mut s = "🤖 Suggestion: You often work on '".to_owned();
                s.append(task.as_str());
                s.append("'. Want to continue?");
                s
            },
            None => "🤖 No suggestions yet. Add more tasks!".to_owned(),
        }
    }
}

} // verus!

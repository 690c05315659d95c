//! Context assembly: turning stored domain state into bounded, role-tagged
//! message sequences for a chat-completion call.
//!
//! Each scenario has a fixed system instruction and a user-content template.
//! Scenarios with nothing to talk about (no expenses, no pending tasks)
//! short-circuit with a canned answer instead of a prompt, so the caller
//! makes no provider call at all for them.

use vstd::prelude::*;
use vstd::seq_lib::*;
use vstd::string::*;

use crate::message::Message;
use crate::message::Role;
use crate::models::Task;
use crate::numfmt::format_dollars;
use crate::numfmt::spec_dollars;
use crate::profile::UserProfile;

verus! {

/// What a scenario hands back: either a finished answer, with no provider
/// call owed, or the message sequence for exactly one provider call.
pub enum PromptOutcome {
    /// A canned answer; the provider is not consulted.
    Canned(String),
    /// The role-tagged messages for one chat-completion exchange.
    Call(Vec<Message>),
}

/// The views of a sequence of strings.
pub open spec fn spec_views(items: Seq<String>) -> Seq<Seq<char>> {
    items.map_values(|x: String| x@)
}

proof fn lemma_views_push(items: Seq<String>, x: String)
    ensures
        spec_views(items.push(x)) == spec_views(items).push(x@),
{
    assert(spec_views(items.push(x)) =~= spec_views(items).push(x@));
}

/// `items` interleaved with `sep`, in order.
pub open spec fn spec_joined(items: Seq<Seq<char>>, sep: Seq<char>) -> Seq<char>
    decreases items.len(),
{
    if items.len() == 0 {
        Seq::empty()
    } else if items.len() == 1 {
        items[0]
    } else {
        spec_joined(items.drop_last(), sep) + sep + items.last()
    }
}

/// Concatenate strings with a separator between neighbours.
fn join_strings(items: &Vec<String>, sep: &str) -> (s: String)
    ensures
        s@ == spec_joined(spec_views(items@), sep@),
{
    if items.len() == 0 {
        return String::new();
    }
    let mut s = items[0].clone();
    let mut i: usize = 1;
    proof {
        assert(spec_views(items@).take(1) =~= seq![items@[0]@]);
    }
    while i < items.len()
        invariant
            1 <= i <= items@.len(),
            s@ == spec_joined(spec_views(items@).take(i as int), sep@),
        decreases items@.len() - i,
    {
        s.append(sep);
        s.append(items[i].as_str());
        proof {
            let m = spec_views(items@);
            assert(m.take(i + 1).drop_last() =~= m.take(i as int));
            assert(m.take(i + 1).last() == items@[i as int]@);
        }
        i += 1;
    }
    proof {
        assert(spec_views(items@).take(items@.len() as int) =~= spec_views(items@));
    }
    s
}

/// One bullet of the suggestion scenario's task list.
pub open spec fn spec_task_line(t: Task) -> Seq<char> {
    "- "@ + t.title@ + " ("@ + (if t.completed {
        "done"@
    } else {
        "pending"@
    }) + ")"@
}

/// The suggestion scenario's bullet lines, one per task.
pub open spec fn spec_task_lines(tasks: Seq<Task>) -> Seq<Seq<char>> {
    tasks.map_values(|t: Task| spec_task_line(t))
}

proof fn lemma_task_lines_push(tasks: Seq<Task>, t: Task)
    ensures
        spec_task_lines(tasks.push(t)) == spec_task_lines(tasks).push(spec_task_line(t)),
{
    assert(spec_task_lines(tasks.push(t)) =~= spec_task_lines(tasks).push(spec_task_line(t)));
}

/// The suggestion scenario's task list: bullets joined by newlines, or a
/// fixed placeholder when there are no tasks.
pub open spec fn spec_task_list(tasks: Seq<Task>) -> Seq<char> {
    if tasks.len() == 0 {
        "No tasks yet."@
    } else {
        spec_joined(spec_task_lines(tasks), "\n"@)
    }
}

fn build_task_line(t: &Task) -> (line: String)
    ensures
        line@ == spec_task_line(*t),
{
    let mut line = "- ".to_owned();
    line.append(t.title.as_str());
    line.append(" (");
    if t.completed {
        line.append("done");
    } else {
        line.append("pending");
    }
    line.append(")");
    line
}

fn build_task_list(tasks: &Vec<Task>) -> (s: String)
    ensures
        s@ == spec_task_list(tasks@),
{
    if tasks.len() == 0 {
        return "No tasks yet.".to_owned();
    }
    let mut lines: Vec<String> = Vec::new();
    let mut i: usize = 0;
    proof {
        assert(spec_views(lines@) =~= spec_task_lines(tasks@.take(0int)));
    }
    while i < tasks.len()
        invariant
            0 <= i <= tasks@.len(),
            spec_views(lines@) == spec_task_lines(tasks@.take(i as int)),
        decreases tasks@.len() - i,
    {
        let line = build_task_line(&tasks[i]);
        let ghost pre = lines@;
        lines.push(line);
        proof {
            lemma_views_push(pre, line);
            lemma_task_lines_push(tasks@.take(i as int), tasks@[i as int]);
            assert(tasks@.take(i as int).push(tasks@[i as int]) =~= tasks@.take(i + 1));
        }
        i += 1;
    }
    proof {
        assert(tasks@.take(tasks@.len() as int) =~= tasks@);
    }
    join_strings(&lines, "\n")
}

/// One line of a per-category spending breakdown: the given bullet prefix,
/// the category name, and the amount in dollars.
pub open spec fn spec_category_line(prefix: Seq<char>, name: Seq<char>, cents: u64) -> Seq<char> {
    prefix + name + ": $"@ + spec_dollars(cents as nat)
}

/// The breakdown lines for a category list, with the given bullet prefix.
pub open spec fn spec_category_lines(prefix: Seq<char>, cats: Seq<(String, u64)>) -> Seq<
    Seq<char>,
> {
    cats.map_values(|c: (String, u64)| spec_category_line(prefix, c.0@, c.1))
}

proof fn lemma_category_lines_push(prefix: Seq<char>, cats: Seq<(String, u64)>, c: (String, u64))
    ensures
        spec_category_lines(prefix, cats.push(c)) == spec_category_lines(prefix, cats).push(
            spec_category_line(prefix, c.0@, c.1),
        ),
{
    assert(spec_category_lines(prefix, cats.push(c)) =~= spec_category_lines(prefix, cats).push(
        spec_category_line(prefix, c.0@, c.1),
    ));
}

fn build_category_lines(prefix: &str, cats: &Vec<(String, u64)>) -> (lines: Vec<String>)
    ensures
        spec_views(lines@) == spec_category_lines(prefix@, cats@),
{
    let mut lines: Vec<String> = Vec::new();
    let mut i: usize = 0;
    proof {
        assert(spec_views(lines@) =~= spec_category_lines(prefix@, cats@.take(0int)));
    }
    while i < cats.len()
        invariant
            0 <= i <= cats@.len(),
            spec_views(lines@) == spec_category_lines(prefix@, cats@.take(i as int)),
        decreases cats@.len() - i,
    {
        let mut line = prefix.to_owned();
        line.append(cats[i].0.as_str());
        line.append(": $");
        let amount = format_dollars(cats[i].1);
        line.append(amount.as_str());
        let ghost pre = lines@;
        lines.push(line);
        proof {
            lemma_views_push(pre, line);
            lemma_category_lines_push(prefix@, cats@.take(i as int), cats@[i as int]);
            assert(cats@.take(i as int).push(cats@[i as int]) =~= cats@.take(i + 1));
        }
        i += 1;
    }
    proof {
        assert(cats@.take(cats@.len() as int) =~= cats@);
    }
    lines
}

/// The suggestion scenario's spending summary: total plus breakdown, or a
/// fixed placeholder when nothing has been tracked.
pub open spec fn spec_spending_info(total_cents: u64, cats: Seq<(String, u64)>) -> Seq<char> {
    if cats.len() == 0 {
        "No expenses tracked yet."@
    } else {
        "Total: $"@ + spec_dollars(total_cents as nat) + "\nCategories:\n"@ + spec_joined(
            spec_category_lines("  - "@, cats),
            "\n"@,
        )
    }
}

fn build_spending_info(total_cents: u64, cats: &Vec<(String, u64)>) -> (s: String)
    ensures
        s@ == spec_spending_info(total_cents, cats@),
{
    if cats.len() == 0 {
        return "No expenses tracked yet.".to_owned();
    }
    let mut s = "Total: $".to_owned();
    let total = format_dollars(total_cents);
    s.append(total.as_str());
    s.append("\nCategories:\n");
    let lines = build_category_lines("  - ", cats);
    let joined = join_strings(&lines, "\n");
    s.append(joined.as_str());
    s
}

/// The suggestion scenario's fixed system instruction.
pub open spec fn spec_suggestion_system_prompt() -> Seq<char> {
    "You are a helpful personal productivity assistant. \nProvide brief, actionable suggestions based on the user's tasks and spending.\nKeep responses concise (2-3 sentences max). Use emojis sparingly.\nConsider the time of day when making suggestions."@
}

/// The suggestion scenario's user message: current time, task list, and
/// spending summary, in a fixed template.
pub open spec fn spec_suggestion_user_prompt(
    current_time: Seq<char>,
    tasks: Seq<Task>,
    total_cents: u64,
    cats: Seq<(String, u64)>,
) -> Seq<char> {
    "Current time: "@ + current_time + "\n\nMy tasks:\n"@ + spec_task_list(tasks)
        + "\n\nMy spending:\n"@ + spec_spending_info(total_cents, cats)
        + "\n\nWhat should I focus on next?"@
}

/// Assemble the single-exchange suggestion prompt: one system message, one
/// user message embedding the caller's clock reading, the task list, and
/// the profile's spending summary.
pub fn suggest_action_messages(current_time: &str, profile: &UserProfile, tasks: &Vec<Task>) -> (msgs:
    Vec<Message>)
    ensures
        msgs@.len() == 2,
        msgs@[0].role == Role::System,
        msgs@[0].content@ == spec_suggestion_system_prompt(),
        msgs@[1].role == Role::User,
        msgs@[1].content@ == spec_suggestion_user_prompt(
            current_time@,
            tasks@,
            profile.total_cents,
            profile.spending_categories@,
        ),
{
    let system = Message::system(
        "You are a helpful personal productivity assistant. \nProvide brief, actionable suggestions based on the user's tasks and spending.\nKeep responses concise (2-3 sentences max). Use emojis sparingly.\nConsider the time of day when making suggestions.",
    );
    let mut user_prompt = "Current time: ".to_owned();
    user_prompt.append(current_time);
    user_prompt.append("\n\nMy tasks:\n");
    let task_list = build_task_list(tasks);
    user_prompt.append(task_list.as_str());
    user_prompt.append("\n\nMy spending:\n");
    let spending = build_spending_info(profile.total_cents, &profile.spending_categories);
    user_prompt.append(spending.as_str());
    user_prompt.append("\n\nWhat should I focus on next?");
    let user = Message::user(user_prompt.as_str());
    let mut msgs: Vec<Message> = Vec::new();
    msgs.push(system);
    msgs.push(user);
    msgs
}

/// The budget-analysis scenario's canned answer for an empty ledger.
pub open spec fn spec_no_expenses_answer() -> Seq<char> {
    "📊 No expenses to analyze yet. Add some expenses first!"@
}

/// The budget-analysis scenario's fixed system instruction.
pub open spec fn spec_budget_system_prompt() -> Seq<char> {
    "You are a financial advisor assistant.\nAnalyze the user's spending and provide:\n1. A brief summary of their spending patterns\n2. One specific area they could reduce spending\n3. One positive observation about their finances\nKeep the response under 100 words. Use emojis for visual appeal."@
}

/// The budget-analysis scenario's user message: total and breakdown.
pub open spec fn spec_budget_user_prompt(total_cents: u64, cats: Seq<(String, u64)>) -> Seq<char> {
    "Total spending: $"@ + spec_dollars(total_cents as nat) + "\n\nBreakdown:\n"@ + spec_joined(
        spec_category_lines("- "@, cats),
        "\n"@,
    )
}

/// Assemble the budget-analysis exchange, or short-circuit: with zero
/// recorded expenses the fixed canned answer comes back and no provider
/// call is owed.
pub fn analyze_budget_messages(profile: &UserProfile) -> (r: PromptOutcome)
    ensures
        profile.spending_categories@.len() == 0 ==> (r matches PromptOutcome::Canned(s) && s@
            == spec_no_expenses_answer()),
        profile.spending_categories@.len() > 0 ==> (r matches PromptOutcome::Call(msgs)
            && msgs@.len() == 2 && msgs@[0].role == Role::System && msgs@[0].content@
            == spec_budget_system_prompt() && msgs@[1].role == Role::User && msgs@[1].content@
            == spec_budget_user_prompt(profile.total_cents, profile.spending_categories@)),
{
    if profile.spending_categories.len() == 0 {
        return PromptOutcome::Canned(
            "📊 No expenses to analyze yet. Add some expenses first!".to_owned(),
        );
    }
    let system = Message::system(
        "You are a financial advisor assistant.\nAnalyze the user's spending and provide:\n1. A brief summary of their spending patterns\n2. One specific area they could reduce spending\n3. One positive observation about their finances\nKeep the response under 100 words. Use emojis for visual appeal.",
    );
    let mut user_prompt = "Total spending: $".to_owned();
    let total = format_dollars(profile.total_cents);
    user_prompt.append(total.as_str());
    user_prompt.append("\n\nBreakdown:\n");
    let lines = build_category_lines("- ", &profile.spending_categories);
    let joined = join_strings(&lines, "\n");
    user_prompt.append(joined.as_str());
    let user = Message::user(user_prompt.as_str());
    let mut msgs: Vec<Message> = Vec::new();
    msgs.push(system);
    msgs.push(user);
    PromptOutcome::Call(msgs)
}

/// The titles of the given tasks, in order.
pub open spec fn spec_titles(tasks: Seq<Task>) -> Seq<Seq<char>> {
    tasks.map_values(|t: Task| t.title@)
}

proof fn lemma_titles_push(tasks: Seq<Task>, t: Task)
    ensures
        spec_titles(tasks.push(t)) == spec_titles(tasks).push(t.title@),
{
    assert(spec_titles(tasks.push(t)) =~= spec_titles(tasks).push(t.title@));
}

/// The quick suggestion's pending-task list: the titles joined by a comma
/// and a space, or a fixed placeholder when that comes out empty.
pub open spec fn spec_quick_task_list(tasks: Seq<Task>) -> Seq<char> {
    let joined = spec_joined(spec_titles(tasks), ", "@);
    if joined.len() == 0 {
        "None"@
    } else {
        joined
    }
}

/// The quick suggestion's single user message: the pending-task titles and
/// the spending total, in a fixed template.
pub open spec fn spec_quick_suggest_prompt(tasks: Seq<Task>, total_cents: u64) -> Seq<char> {
    "User context:\nTasks pending: "@ + spec_quick_task_list(tasks) + "\nTotal spending: $"@
        + spec_dollars(total_cents as nat)
        + "\n\nProvide a brief, motivating suggestion for what they should do next."@
}

/// Build the server-side quick suggestion's user message. The caller hands
/// in the identity's pending tasks and spending total; the result is sent
/// as a single user-role message.
pub fn quick_suggest_prompt(tasks: &Vec<Task>, total_cents: u64) -> (s: String)
    ensures
        s@ == spec_quick_suggest_prompt(tasks@, total_cents),
{
    let mut titles: Vec<String> = Vec::new();
    let mut i: usize = 0;
    proof {
        assert(spec_views(titles@) =~= spec_titles(tasks@.take(0int)));
    }
    while i < tasks.len()
        invariant
            0 <= i <= tasks@.len(),
            spec_views(titles@) == spec_titles(tasks@.take(i as int)),
        decreases tasks@.len() - i,
    {
        let title = tasks[i].title.clone();
        let ghost pre = titles@;
        titles.push(title);
        proof {
            lemma_views_push(pre, title);
            lemma_titles_push(tasks@.take(i as int), tasks@[i as int]);
            assert(tasks@.take(i as int).push(tasks@[i as int]) =~= tasks@.take(i + 1));
        }
        i += 1;
    }
    proof {
        assert(tasks@.take(tasks@.len() as int) =~= tasks@);
    }
    let joined = join_strings(&titles, ", ");
    let mut s = "User context:\nTasks pending: ".to_owned();
    if joined.as_str().is_empty() {
        s.append("None");
    } else {
        s.append(joined.as_str());
    }
    s.append("\nTotal spending: $");
    let total = format_dollars(total_cents);
    s.append(total.as_str());
    s.append("\n\nProvide a brief, motivating suggestion for what they should do next.");
    s
}

/// The tasks that still await completion, in their stored order.
pub open spec fn spec_pending(tasks: Seq<Task>) -> Seq<Task> {
    tasks.filter(|t: Task| !t.completed)
}

/// One line of the prioritization scenario's task list: id and title.
pub open spec fn spec_priority_line(t: Task) -> Seq<char> {
    t.id@ + ". "@ + t.title@
}

/// The priority lines of an already-filtered pending-task sequence.
pub open spec fn spec_priority_lines_of(pending: Seq<Task>) -> Seq<Seq<char>> {
    pending.map_values(|t: Task| spec_priority_line(t))
}

/// The prioritization scenario's lines, one per pending task.
pub open spec fn spec_priority_lines(tasks: Seq<Task>) -> Seq<Seq<char>> {
    spec_priority_lines_of(spec_pending(tasks))
}

proof fn lemma_priority_lines_push(pending: Seq<Task>, t: Task)
    ensures
        spec_priority_lines_of(pending.push(t)) == spec_priority_lines_of(pending).push(
            spec_priority_line(t),
        ),
{
    assert(spec_priority_lines_of(pending.push(t)) =~= spec_priority_lines_of(pending).push(
        spec_priority_line(t),
    ));
}

proof fn lemma_pending_take_step(tasks: Seq<Task>, i: int)
    requires
        0 <= i < tasks.len(),
    ensures
        spec_pending(tasks.take(i + 1)) == if !tasks[i].completed {
            spec_pending(tasks.take(i)).push(tasks[i])
        } else {
            spec_pending(tasks.take(i))
        },
{
    reveal(Seq::filter);
    assert(tasks.take(i + 1).drop_last() =~= tasks.take(i));
    assert(tasks.take(i + 1).last() == tasks[i]);
}

/// The prioritization scenario's canned answer when nothing is pending.
pub open spec fn spec_all_done_answer() -> Seq<char> {
    "✅ All tasks completed! Great job!"@
}

/// The prioritization scenario's fixed system instruction.
pub open spec fn spec_prioritize_system_prompt() -> Seq<char> {
    "You are a productivity expert.\nAnalyze the tasks and suggest a priority order.\nConsider the time of day and task types.\nProvide brief reasoning (1 sentence per task).\nFormat: numbered list with task name and reason."@
}

/// The prioritization scenario's user message: current time and the
/// pending tasks, in a fixed template.
pub open spec fn spec_prioritize_user_prompt(current_time: Seq<char>, tasks: Seq<Task>) -> Seq<
    char,
> {
    "Current time: "@ + current_time + "\n\nPending tasks:\n"@ + spec_joined(
        spec_priority_lines(tasks),
        "\n"@,
    ) + "\n\nSuggest priority order:"@
}

/// Assemble the task-prioritization exchange, or short-circuit: with zero
/// incomplete tasks the fixed all-done answer comes back and no provider
/// call is owed.
pub fn prioritize_tasks_messages(current_time: &str, tasks: &Vec<Task>) -> (r: PromptOutcome)
    ensures
        spec_pending(tasks@).len() == 0 ==> (r matches PromptOutcome::Canned(s) && s@
            == spec_all_done_answer()),
        spec_pending(tasks@).len() > 0 ==> (r matches PromptOutcome::Call(msgs) && msgs@.len() == 2
            && msgs@[0].role == Role::System && msgs@[0].content@
            == spec_prioritize_system_prompt() && msgs@[1].role == Role::User && msgs@[1].content@
            == spec_prioritize_user_prompt(current_time@, tasks@)),
{
    let mut lines: Vec<String> = Vec::new();
    let mut i: usize = 0;
    proof {
        reveal(Seq::filter);
        assert(tasks@.take(0int) =~= Seq::<Task>::empty());
        assert(spec_views(lines@) =~= spec_priority_lines_of(spec_pending(tasks@.take(0int))));
    }
    while i < tasks.len()
        invariant
            0 <= i <= tasks@.len(),
            spec_views(lines@) == spec_priority_lines_of(spec_pending(tasks@.take(i as int))),
        decreases tasks@.len() - i,
    {
        if !tasks[i].completed {
            let mut line = tasks[i].id.clone();
            line.append(". ");
            line.append(tasks[i].title.as_str());
            let ghost pre = lines@;
            lines.push(line);
            proof {
                lemma_views_push(pre, line);
                lemma_priority_lines_push(spec_pending(tasks@.take(i as int)), tasks@[i as int]);
            }
        }
        proof {
            lemma_pending_take_step(tasks@, i as int);
        }
        i += 1;
    }
    proof {
        assert(tasks@.take(tasks@.len() as int) =~= tasks@);
        assert(spec_pending(tasks@).len() == spec_priority_lines(tasks@).len());
    }
    if lines.len() == 0 {
        return PromptOutcome::Canned("✅ All tasks completed! Great job!".to_owned());
    }
    let system = Message::system(
        "You are a productivity expert.\nAnalyze the tasks and suggest a priority order.\nConsider the time of day and task types.\nProvide brief reasoning (1 sentence per task).\nFormat: numbered list with task name and reason.",
    );
    let mut user_prompt = "Current time: ".to_owned();
    user_prompt.append(current_time);
    user_prompt.append("\n\nPending tasks:\n");
    let joined = join_strings(&lines, "\n");
    user_prompt.append(joined.as_str());
    user_prompt.append("\n\nSuggest priority order:");
    let user = Message::user(user_prompt.as_str());
    let mut msgs: Vec<Message> = Vec::new();
    msgs.push(system);
    msgs.push(user);
    PromptOutcome::Call(msgs)
}

} // verus!

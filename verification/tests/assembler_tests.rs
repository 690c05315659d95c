use assistant_core::assembler::analyze_budget_messages;
use assistant_core::assembler::prioritize_tasks_messages;
use assistant_core::assembler::quick_suggest_prompt;
use assistant_core::assembler::suggest_action_messages;
use assistant_core::assembler::PromptOutcome;
use assistant_core::message::Role;
use assistant_core::models::Task;
use assistant_core::models::UpdateTaskRequest;
use assistant_core::numfmt::format_decimal;
use assistant_core::numfmt::format_dollars;
use assistant_core::profile::UserProfile;

fn task(id: &str, title: &str, completed: bool) -> Task {
    Task {
        id: id.to_string(),
        user_id: "u1".to_string(),
        title: title.to_string(),
        completed,
        created_at: 0,
    }
}

#[test]
fn partial_update_changes_only_named_fields() {
    let t = task("1", "Buy milk", false);
    let done = t.apply_update(&UpdateTaskRequest { completed: Some(true), title: None });
    assert_eq!(done.title, "Buy milk");
    assert!(done.completed);
    assert_eq!(done.id, "1");
    let renamed = t.apply_update(&UpdateTaskRequest {
        completed: None,
        title: Some("Buy oat milk".to_string()),
    });
    assert_eq!(renamed.title, "Buy oat milk");
    assert!(!renamed.completed);
    let unchanged = t.apply_update(&UpdateTaskRequest { completed: None, title: None });
    assert_eq!(unchanged.title, "Buy milk");
    assert!(!unchanged.completed);
}

#[test]
fn dollars_have_two_cent_digits() {
    assert_eq!(format_dollars(4250), "42.50");
    assert_eq!(format_dollars(0), "0.00");
    assert_eq!(format_dollars(5), "0.05");
    assert_eq!(format_dollars(100), "1.00");
    assert_eq!(format_dollars(123456), "1234.56");
}

#[test]
fn decimal_rendering() {
    assert_eq!(format_decimal(0), "0");
    assert_eq!(format_decimal(7), "7");
    assert_eq!(format_decimal(10), "10");
    assert_eq!(format_decimal(987654321), "987654321");
    assert_eq!(format_decimal(u64::MAX), "18446744073709551615");
}

#[test]
fn quick_suggest_embeds_task_and_total_verbatim() {
    let tasks = vec![task("1", "Buy milk", false)];
    let prompt = quick_suggest_prompt(&tasks, 4250);
    assert_eq!(
        prompt,
        "User context:\nTasks pending: Buy milk\nTotal spending: $42.50\n\nProvide a brief, motivating suggestion for what they should do next."
    );
}

#[test]
fn quick_suggest_with_no_tasks_says_none() {
    let tasks: Vec<Task> = Vec::new();
    let prompt = quick_suggest_prompt(&tasks, 0);
    assert_eq!(
        prompt,
        "User context:\nTasks pending: None\nTotal spending: $0.00\n\nProvide a brief, motivating suggestion for what they should do next."
    );
}

#[test]
fn quick_suggest_joins_titles_with_commas() {
    let tasks = vec![task("1", "Buy milk", false), task("2", "Walk dog", false)];
    let prompt = quick_suggest_prompt(&tasks, 100);
    assert!(prompt.contains("Tasks pending: Buy milk, Walk dog\n"));
}

#[test]
fn suggestion_prompt_embeds_time_tasks_and_spending() {
    let mut profile = UserProfile::new();
    profile.add_spending("groceries", 4250);
    let tasks = vec![task("1", "Buy milk", false), task("2", "Ship release", true)];
    let msgs = suggest_action_messages("14:30 on Monday, January 01", &profile, &tasks);
    assert_eq!(msgs.len(), 2);
    assert_eq!(msgs[0].role, Role::System);
    assert!(msgs[0].content.starts_with("You are a helpful personal productivity assistant. "));
    assert_eq!(msgs[1].role, Role::User);
    assert_eq!(
        msgs[1].content,
        "Current time: 14:30 on Monday, January 01\n\nMy tasks:\n- Buy milk (pending)\n- Ship release (done)\n\nMy spending:\nTotal: $42.50\nCategories:\n  - groceries: $42.50\n\nWhat should I focus on next?"
    );
}

#[test]
fn suggestion_prompt_placeholders_for_empty_state() {
    let profile = UserProfile::new();
    let tasks: Vec<Task> = Vec::new();
    let msgs = suggest_action_messages("08:00 on Tuesday, March 05", &profile, &tasks);
    assert_eq!(
        msgs[1].content,
        "Current time: 08:00 on Tuesday, March 05\n\nMy tasks:\nNo tasks yet.\n\nMy spending:\nNo expenses tracked yet.\n\nWhat should I focus on next?"
    );
}

#[test]
fn budget_analysis_short_circuits_on_zero_expenses() {
    let profile = UserProfile::new();
    match analyze_budget_messages(&profile) {
        PromptOutcome::Canned(s) => {
            assert_eq!(s, "📊 No expenses to analyze yet. Add some expenses first!");
        }
        PromptOutcome::Call(_) => panic!("no upstream call is owed for an empty ledger"),
    }
}

#[test]
fn budget_analysis_builds_breakdown() {
    let mut profile = UserProfile::new();
    profile.add_spending("food", 1099);
    profile.add_spending("fun", 250);
    match analyze_budget_messages(&profile) {
        PromptOutcome::Call(msgs) => {
            assert_eq!(msgs.len(), 2);
            assert_eq!(msgs[0].role, Role::System);
            assert!(msgs[0].content.starts_with("You are a financial advisor assistant.\n"));
            assert_eq!(msgs[1].role, Role::User);
            assert_eq!(
                msgs[1].content,
                "Total spending: $13.49\n\nBreakdown:\n- food: $10.99\n- fun: $2.50"
            );
        }
        PromptOutcome::Canned(s) => panic!("unexpected canned answer: {}", s),
    }
}

#[test]
fn prioritization_short_circuits_when_all_done() {
    let tasks = vec![task("1", "Buy milk", true), task("2", "Walk dog", true)];
    match prioritize_tasks_messages("09:00 on Friday", &tasks) {
        PromptOutcome::Canned(s) => assert_eq!(s, "✅ All tasks completed! Great job!"),
        PromptOutcome::Call(_) => panic!("no upstream call is owed when nothing is pending"),
    }
}

#[test]
fn prioritization_short_circuits_with_no_tasks_at_all() {
    let tasks: Vec<Task> = Vec::new();
    match prioritize_tasks_messages("09:00 on Friday", &tasks) {
        PromptOutcome::Canned(s) => assert_eq!(s, "✅ All tasks completed! Great job!"),
        PromptOutcome::Call(_) => panic!("no upstream call is owed when nothing is pending"),
    }
}

#[test]
fn prioritization_lists_only_pending_tasks() {
    let tasks = vec![
        task("1", "Write report", false),
        task("2", "Done already", true),
        task("3", "Pay bills", false),
    ];
    match prioritize_tasks_messages("09:00 on Friday", &tasks) {
        PromptOutcome::Call(msgs) => {
            assert_eq!(msgs.len(), 2);
            assert_eq!(msgs[0].role, Role::System);
            assert!(msgs[0].content.starts_with("You are a productivity expert.\n"));
            assert_eq!(msgs[1].role, Role::User);
            assert_eq!(
                msgs[1].content,
                "Current time: 09:00 on Friday\n\nPending tasks:\n1. Write report\n3. Pay bills\n\nSuggest priority order:"
            );
        }
        PromptOutcome::Canned(s) => panic!("unexpected canned answer: {}", s),
    }
}

use assistant_core::profile::UserProfile;
use assistant_core::profile::TASK_HISTORY_LIMIT;

#[test]
fn new_profile_is_empty() {
    let profile = UserProfile::new();
    assert!(profile.frequent_task.is_none());
    assert_eq!(profile.total_cents, 0);
    assert!(profile.task_history.is_empty());
    assert!(profile.spending_categories.is_empty());
}

#[test]
fn history_keeps_the_most_recent_twenty() {
    let mut profile = UserProfile::new();
    for k in 0..25 {
        profile.add_task_to_history(&format!("task {}", k));
    }
    assert_eq!(TASK_HISTORY_LIMIT, 20);
    assert_eq!(profile.task_history.len(), 20);
    assert_eq!(profile.task_history[0], "task 5");
    assert_eq!(profile.task_history[19], "task 24");
    assert_eq!(profile.frequent_task.as_deref(), Some("task 24"));
}

#[test]
fn spending_accumulates() {
    let mut profile = UserProfile::new();
    profile.add_spending("food", 1099);
    profile.add_spending("fun", 250);
    assert_eq!(profile.total_cents, 1349);
    assert_eq!(profile.spending_categories.len(), 2);
    assert_eq!(profile.spending_categories[0].0, "food");
    assert_eq!(profile.spending_categories[0].1, 1099);
    assert_eq!(profile.spending_categories[1].0, "fun");
    assert_eq!(profile.spending_categories[1].1, 250);
}

#[test]
fn suggestion_line_names_the_recent_task() {
    let mut profile = UserProfile::new();
    assert_eq!(profile.suggest_action(), "🤖 No suggestions yet. Add more tasks!");
    profile.add_task_to_history("Buy milk");
    assert_eq!(
        profile.suggest_action(),
        "🤖 Suggestion: You often work on 'Buy milk'. Want to continue?"
    );
}

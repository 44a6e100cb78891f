use agent_core::clock::Timestamp;
use agent_core::json::JsonValue;
use agent_core::plan::{
    PlanItemArg, PlanMessage, PlanMetadata, StepStatus, TodoItem, UpdatePlanArgs,
};

fn with_status(content: &str, status: StepStatus) -> TodoItem {
    let mut t = TodoItem::new(content);
    t.update_status(status);
    t
}

#[test]
fn two_of_three_done_is_two_thirds() {
    let plan = PlanMessage::new(vec![
        with_status("a", StepStatus::Completed),
        with_status("b", StepStatus::Completed),
        with_status("c", StepStatus::Pending),
    ]);
    let (done, all) = plan.completion_fraction();
    assert_eq!((done, all), (2, 3));
    assert_eq!(done as f32 / all as f32, 2.0f32 / 3.0f32);
}

#[test]
fn empty_plan_is_complete() {
    let plan = PlanMessage::new(vec![]);
    let (done, all) = plan.completion_fraction();
    assert_eq!((done, all), (1, 1));
    assert_eq!(done as f32 / all as f32, 1.0f32);
}

#[test]
fn nothing_done_is_zero() {
    let plan = PlanMessage::new(vec![TodoItem::new("a"), with_status("b", StepStatus::InProgress)]);
    assert_eq!(plan.completion_fraction(), (0, 2));
}

#[test]
fn todos_by_status_keep_their_order() {
    let plan = PlanMessage::new(vec![
        with_status("a", StepStatus::Completed),
        with_status("b", StepStatus::Pending),
        with_status("c", StepStatus::InProgress),
        with_status("d", StepStatus::Completed),
        with_status("e", StepStatus::Pending),
    ]);
    let names = |v: Vec<&TodoItem>| v.iter().map(|t| t.content.clone()).collect::<Vec<_>>();
    assert_eq!(names(plan.completed_todos()), vec!["a", "d"]);
    assert_eq!(names(plan.pending_todos()), vec!["b", "e"]);
    assert_eq!(names(plan.in_progress_todos()), vec!["c"]);
    assert!(plan.metadata.is_none());
}

#[test]
fn new_todo_is_pending_and_bare() {
    let t = TodoItem::new("write tests");
    assert_eq!(t.content, "write tests");
    assert_eq!(t.status, StepStatus::Pending);
    assert_eq!(t.priority, None);
    assert!(t.tags.is_empty());
    assert_eq!(t.created_at, t.updated_at);
    assert_eq!(t.due_date, None);
    assert_eq!(t.estimated_hours, None);
    assert!(t.metadata.is_empty());
    let u = TodoItem::new("write tests");
    assert_ne!(t.id, u.id);
}

#[test]
fn priority_is_clamped() {
    assert_eq!(TodoItem::new("a").with_priority(0).priority, Some(1));
    assert_eq!(TodoItem::new("a").with_priority(1).priority, Some(1));
    assert_eq!(TodoItem::new("a").with_priority(3).priority, Some(3));
    assert_eq!(TodoItem::new("a").with_priority(5).priority, Some(5));
    assert_eq!(TodoItem::new("a").with_priority(6).priority, Some(5));
    assert_eq!(TodoItem::new("a").with_priority(255).priority, Some(5));
}

#[test]
fn tags_and_due_date() {
    let t = TodoItem::new("a")
        .with_tags(vec!["x".to_string()])
        .with_tags(vec!["y".to_string(), "z".to_string()])
        .with_due_date(Timestamp::new(10, 5));
    assert_eq!(t.tags, vec!["x", "y", "z"]);
    assert_eq!(t.due_date, Some(Timestamp { secs: 10, nanos: 5 }));
    assert_eq!(t.content, "a");
}

#[test]
fn status_changes() {
    let mut t = TodoItem::new("a");
    let id = t.id;
    t.start();
    assert_eq!(t.status, StepStatus::InProgress);
    t.complete();
    assert_eq!(t.status, StepStatus::Completed);
    t.reset();
    assert_eq!(t.status, StepStatus::Pending);
    assert_eq!(t.id, id);
    assert_eq!(t.content, "a");
}

#[test]
fn overdue_at_an_instant() {
    let due = Timestamp::new(100, 500);
    let mut t = TodoItem::new("a").with_due_date(due);
    assert!(!t.is_overdue_at(&Timestamp::new(100, 500)));
    assert!(t.is_overdue_at(&Timestamp::new(100, 501)));
    assert!(t.is_overdue_at(&Timestamp::new(101, 0)));
    assert!(!t.is_overdue_at(&Timestamp::new(99, 999_999_999)));
    t.complete();
    assert!(!t.is_overdue_at(&Timestamp::new(101, 0)));
    assert!(!TodoItem::new("b").is_overdue_at(&Timestamp::new(101, 0)));
}

#[test]
fn overdue_by_the_clock() {
    assert!(!TodoItem::new("a").is_overdue());
    let past = TodoItem::new("a").with_due_date(Timestamp::new(1, 0));
    assert!(past.is_overdue());
    let mut done = TodoItem::new("a").with_due_date(Timestamp::new(1, 0));
    done.complete();
    assert!(!done.is_overdue());
    let future = TodoItem::new("a").with_due_date(Timestamp::new(i64::MAX, 0));
    assert!(!future.is_overdue());
}

#[test]
fn timestamps_are_ordered_by_seconds_then_nanos() {
    assert!(Timestamp::new(2, 0).is_after(&Timestamp::new(1, 999)));
    assert!(Timestamp::new(1, 2).is_after(&Timestamp::new(1, 1)));
    assert!(!Timestamp::new(1, 1).is_after(&Timestamp::new(1, 1)));
    assert!(!Timestamp::new(-5, 0).is_after(&Timestamp::new(-4, 0)));
}

#[test]
fn metadata_is_a_map() {
    let mut t = TodoItem::new("a");
    t.add_metadata("k".to_string(), JsonValue::Bool(true));
    t.add_metadata("j".to_string(), JsonValue::Null);
    t.add_metadata("k".to_string(), JsonValue::Bool(false));
    assert_eq!(t.metadata.len(), 2);
    assert_eq!(t.get_metadata(&"k".to_string()), Some(&JsonValue::Bool(false)));
    assert_eq!(t.get_metadata(&"j".to_string()), Some(&JsonValue::Null));
    assert_eq!(t.get_metadata(&"missing".to_string()), None);
}

#[test]
fn plan_items_round_trip() {
    let t = with_status("step", StepStatus::InProgress);
    let arg = t.to_plan_item_arg();
    assert_eq!(arg, PlanItemArg { step: "step".to_string(), status: StepStatus::InProgress });
    let back = TodoItem::from_plan_item_arg(arg);
    assert_eq!(back.content, "step");
    assert_eq!(back.status, StepStatus::InProgress);
    assert_eq!(back.priority, None);
    assert!(back.tags.is_empty());
    assert_ne!(back.id, t.id);
}

#[test]
fn plan_message_from_and_to_engine_plan() {
    let args = UpdatePlanArgs {
        explanation: Some("because".to_string()),
        plan: vec![
            PlanItemArg { step: "one".to_string(), status: StepStatus::Completed },
            PlanItemArg { step: "two".to_string(), status: StepStatus::Pending },
        ],
    };
    let plan = PlanMessage::from_update_plan_args(args);
    assert_eq!(plan.todos.len(), 2);
    assert_eq!(plan.todos[0].content, "one");
    assert_eq!(plan.todos[1].status, StepStatus::Pending);
    let meta = plan.metadata.as_ref().unwrap();
    assert_eq!(meta.description.as_deref(), Some("because"));
    assert_eq!(meta.name, None);
    assert_eq!(meta.version, None);
    assert_eq!(meta.created_by, None);
    assert!(meta.tags.is_empty());
    assert!(meta.custom.is_empty());
    assert_eq!(plan.completion_fraction(), (1, 2));
    let back = plan.to_update_plan_args(Some("again".to_string()));
    assert_eq!(
        back,
        UpdatePlanArgs {
            explanation: Some("again".to_string()),
            plan: vec![
                PlanItemArg { step: "one".to_string(), status: StepStatus::Completed },
                PlanItemArg { step: "two".to_string(), status: StepStatus::Pending },
            ],
        }
    );
    let bare = PlanMessage::from_update_plan_args(UpdatePlanArgs { explanation: None, plan: vec![] });
    assert!(bare.todos.is_empty());
    assert_eq!(bare.metadata.as_ref().unwrap().description, None);
}

#[test]
fn plan_metadata_builders() {
    let m = PlanMetadata::new()
        .with_name("n")
        .with_description("d")
        .with_version(3)
        .with_created_by("me")
        .with_tags(vec!["a".to_string()])
        .with_tags(vec!["b".to_string()])
        .with_custom("k".to_string(), JsonValue::Bool(true));
    assert_eq!(m.name.as_deref(), Some("n"));
    assert_eq!(m.description.as_deref(), Some("d"));
    assert_eq!(m.version, Some(3));
    assert_eq!(m.created_by.as_deref(), Some("me"));
    assert_eq!(m.tags, vec!["a", "b"]);
    assert_eq!(m.custom.get(&"k".to_string()), Some(&JsonValue::Bool(true)));
    let d = PlanMetadata::default();
    assert_eq!(d.name, None);
    assert!(d.tags.is_empty());
    let p = PlanMessage::with_metadata(vec![], m);
    assert_eq!(p.metadata.unwrap().version, Some(3));
}

#[test]
fn due_before_1970_is_always_overdue() {
    let mut item = TodoItem::new("a").with_due_date(Timestamp::new(-1, 999_999_999));
    assert!(item.is_overdue());
    item.start();
    assert!(item.is_overdue());
    item.complete();
    assert!(!item.is_overdue());
    let old = TodoItem::new("b").with_due_date(Timestamp::new(i64::MIN, 0));
    assert!(old.is_overdue());
}

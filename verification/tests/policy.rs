use ticket_windows::dispatch::operation_result;
use ticket_windows::dispatch::plan_action;
use ticket_windows::dispatch::HostAction;
use ticket_windows::greeting::greet;
use ticket_windows::label::ticket_label;
use ticket_windows::window::ticket_title;
use ticket_windows::window::ticket_url;
use ticket_windows::window::ticket_window_config;

#[test]
fn label_is_deterministic() {
    let first = ticket_label(42);
    let second = ticket_label(42);
    assert_eq!(first, "ticket-42");
    assert_eq!(first, second);
}

#[test]
fn label_of_zero() {
    assert_eq!(ticket_label(0), "ticket-0");
}

#[test]
fn label_of_largest_id() {
    assert_eq!(ticket_label(u32::MAX), "ticket-4294967295");
}

#[test]
fn labels_of_distinct_ids_differ() {
    assert_ne!(ticket_label(1), ticket_label(2));
    assert_ne!(ticket_label(42), ticket_label(420));
    assert_ne!(ticket_label(10), ticket_label(100));
    assert_ne!(ticket_label(0), ticket_label(u32::MAX));
}

#[test]
fn url_for_ticket_42() {
    assert_eq!(ticket_url(42), "/?ticketWindow=true#/ticket/42");
}

#[test]
fn title_for_ticket_42() {
    assert_eq!(ticket_title(42), "Ticket #42");
}

#[test]
fn first_call_builds_standard_window() {
    let config = ticket_window_config(7);
    assert_eq!(config.label, "ticket-7");
    assert_eq!(config.url, "/?ticketWindow=true#/ticket/7");
    assert_eq!(config.title, "Ticket #7");
    assert_eq!(config.width, 1000);
    assert_eq!(config.height, 800);
    assert_eq!(config.min_width, 600);
    assert_eq!(config.min_height, 400);
    assert!(config.centered);
}

#[test]
fn plans_focus_when_window_exists() {
    match plan_action(5, true) {
        HostAction::Focus { label } => assert_eq!(label, "ticket-5"),
        HostAction::Create { .. } => panic!("a live window must be focused, not recreated"),
    }
}

#[test]
fn repeated_plans_focus_same_label() {
    let labels: Vec<String> = (0..3)
        .map(|_| match plan_action(5, true) {
            HostAction::Focus { label } => label,
            HostAction::Create { .. } => panic!("a live window must be focused, not recreated"),
        })
        .collect();
    assert_eq!(labels, vec!["ticket-5", "ticket-5", "ticket-5"]);
}

#[test]
fn plans_creation_when_window_missing() {
    match plan_action(5, false) {
        HostAction::Create { config } => {
            assert_eq!(config.label, "ticket-5");
            assert_eq!(config.title, "Ticket #5");
            assert_eq!(config.width, 1000);
            assert_eq!(config.height, 800);
            assert!(config.centered);
        }
        HostAction::Focus { .. } => panic!("a missing window must be created, not focused"),
    }
}

#[test]
fn repeated_requests_leave_one_window() {
    let mut live: Vec<String> = Vec::new();
    for _ in 0..3 {
        let exists = live.contains(&ticket_label(9));
        match plan_action(9, exists) {
            HostAction::Create { config } => live.push(config.label),
            HostAction::Focus { label } => assert!(live.contains(&label)),
        }
    }
    assert_eq!(live, vec!["ticket-9"]);
}

#[test]
fn requests_for_other_tickets_do_not_collide() {
    let mut live: Vec<String> = Vec::new();
    for id in [3, 7, 3, 7, 3] {
        let exists = live.contains(&ticket_label(id));
        match plan_action(id, exists) {
            HostAction::Create { config } => live.push(config.label),
            HostAction::Focus { label } => assert!(live.contains(&label)),
        }
    }
    assert_eq!(live, vec!["ticket-3", "ticket-7"]);
}

#[test]
fn host_failure_surfaces_unmodified() {
    let r = operation_result(Err(String::from("E")));
    assert_eq!(r, Err(String::from("E")));
}

#[test]
fn host_success_passes_through() {
    let r = operation_result(Ok(()));
    assert_eq!(r, Ok(()));
}

#[test]
fn greets_by_name() {
    assert_eq!(greet("Ada"), "Hello, Ada! You've been greeted from Rust!");
}

#[test]
fn greets_empty_name() {
    assert_eq!(greet(""), "Hello, ! You've been greeted from Rust!");
}

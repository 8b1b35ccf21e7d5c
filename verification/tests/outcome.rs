use wszl::model::{ZabbixHost, ZabbixItem, ZabbixObjects};
use wszl::outcome::{
    aggregate_outcomes, creation_outcome, outcome_is_error, plan_outcome, run_verdict,
    CreationOutcome, ItemOutcome, RunError,
};
use wszl::reconciler::{plan_items, ItemPlan};

#[test]
fn settles_plans_that_need_no_creation() {
    assert_eq!(
        plan_outcome(&ItemPlan::UnsupportedFormat),
        Some(ItemOutcome::UnsupportedFormat)
    );
    assert_eq!(plan_outcome(&ItemPlan::AlreadyPresent), Some(ItemOutcome::Skipped));
    assert_eq!(plan_outcome(&ItemPlan::HostNotFound), Some(ItemOutcome::HostNotFound));
}

#[test]
fn records_creation_outcomes() {
    assert_eq!(
        creation_outcome(&CreationOutcome::ScenarioFailed),
        ItemOutcome::ScenarioCreationFailed
    );
    assert_eq!(
        creation_outcome(&CreationOutcome::TriggerFailed),
        ItemOutcome::TriggerCreationFailed
    );
    assert_eq!(creation_outcome(&CreationOutcome::AllCreated), ItemOutcome::Created);
}

#[test]
fn only_skip_and_created_count_as_success() {
    assert!(!outcome_is_error(&ItemOutcome::Skipped));
    assert!(!outcome_is_error(&ItemOutcome::Created));
    assert!(outcome_is_error(&ItemOutcome::UnsupportedFormat));
    assert!(outcome_is_error(&ItemOutcome::HostNotFound));
    assert!(outcome_is_error(&ItemOutcome::ScenarioCreationFailed));
    assert!(outcome_is_error(&ItemOutcome::TriggerCreationFailed));
}

#[test]
fn aggregates_all_successes() {
    assert!(aggregate_outcomes(&vec![ItemOutcome::Created, ItemOutcome::Skipped]));
}

#[test]
fn aggregates_empty_pass_as_success() {
    assert!(aggregate_outcomes(&vec![]));
}

#[test]
fn one_error_fails_the_pass() {
    assert!(!aggregate_outcomes(&vec![
        ItemOutcome::Created,
        ItemOutcome::HostNotFound,
        ItemOutcome::Skipped,
    ]));
}

#[test]
fn trigger_failure_is_reported_but_not_undone() {
    let outcome = creation_outcome(&CreationOutcome::TriggerFailed);
    assert_eq!(outcome, ItemOutcome::TriggerCreationFailed);
    assert!(outcome_is_error(&outcome));
    assert!(!aggregate_outcomes(&vec![outcome]));
}

#[test]
fn verdict_orders_failure_reasons() {
    assert_eq!(run_verdict(false, false, false), Err(RunError::AuthFailed));
    assert_eq!(run_verdict(true, false, true), Err(RunError::FetchFailed));
    assert_eq!(run_verdict(true, true, false), Err(RunError::ItemErrors));
    assert_eq!(run_verdict(true, true, true), Ok(()));
}

#[test]
fn aggregate_success_pass_end_to_end() {
    let objects = ZabbixObjects {
        items: vec![ZabbixItem {
            key_: String::from("vhost.item[/health]"),
            name: String::from("vhost item"),
            hostid: String::from("10"),
        }],
        web_scenarios: vec![],
        hosts: vec![ZabbixHost { hostid: String::from("10"), host: String::from("web01") }],
    };
    let plans = plan_items(&objects);
    let mut outcomes: Vec<ItemOutcome> = Vec::new();
    for plan in &plans {
        let outcome = match plan_outcome(plan) {
            Some(o) => o,
            None => creation_outcome(&CreationOutcome::AllCreated),
        };
        outcomes.push(outcome);
    }
    assert_eq!(outcomes, vec![ItemOutcome::Created]);
    let ok = aggregate_outcomes(&outcomes);
    assert_eq!(run_verdict(true, true, ok), Ok(()));
}

#[test]
fn malformed_key_pass_fails_without_creation() {
    let objects = ZabbixObjects {
        items: vec![ZabbixItem {
            key_: String::from("foo.bar"),
            name: String::from("vhost item"),
            hostid: String::from("10"),
        }],
        web_scenarios: vec![],
        hosts: vec![ZabbixHost { hostid: String::from("10"), host: String::from("web01") }],
    };
    let plans = plan_items(&objects);
    assert!(plans.iter().all(|p| !matches!(p, ItemPlan::Create { .. })));
    let mut outcomes: Vec<ItemOutcome> = Vec::new();
    for plan in &plans {
        let outcome = match plan_outcome(plan) {
            Some(o) => o,
            None => creation_outcome(&CreationOutcome::AllCreated),
        };
        outcomes.push(outcome);
    }
    assert_eq!(outcomes, vec![ItemOutcome::UnsupportedFormat]);
    let ok = aggregate_outcomes(&outcomes);
    assert_eq!(run_verdict(true, true, ok), Err(RunError::ItemErrors));
}

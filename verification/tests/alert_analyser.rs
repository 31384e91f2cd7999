use status_monitor::alert_analyser::{AlertAnalyser, StateChange};
use status_monitor::message::TxMessage;
use status_monitor::status::{Status, Timestamp};

fn status(name: &str, state: &str, seconds: i64) -> Status {
    Status {
        name: name.to_string(),
        timestamp: Timestamp { seconds, nanoseconds: 0 },
        status: state.to_string(),
        description: format!("{} is {}", name, state),
        account_id: "acct-1".to_string(),
    }
}

fn tx(s: Status, id: &str) -> TxMessage<Status> {
    TxMessage { msg: s, id: id.to_string() }
}

#[test]
fn first_status_of_a_check_raises_an_alert_without_previous() {
    let mut analyser: AlertAnalyser<u32> = AlertAnalyser::new(vec![1, 2]);
    let alert = analyser.handle(tx(status("db", "up", 10), "id-1")).expect("alert");
    assert_eq!(alert.id, "id-1");
    assert_eq!(alert.msg, StateChange { previous_status: None, current_status: status("db", "up", 10) });
}

#[test]
fn unchanged_status_raises_no_alert() {
    let mut analyser: AlertAnalyser<u32> = AlertAnalyser::new(vec![]);
    assert!(analyser.handle(tx(status("db", "up", 10), "a")).is_some());
    assert!(analyser.handle(tx(status("db", "up", 20), "b")).is_none());
}

#[test]
fn same_status_twice_is_silent_the_second_time() {
    let mut analyser: AlertAnalyser<u32> = AlertAnalyser::new(vec![]);
    assert!(analyser.handle(tx(status("web", "down", 1), "a")).is_some());
    assert!(analyser.handle(tx(status("web", "down", 1), "a")).is_none());
}

#[test]
fn changed_status_names_the_previous_one() {
    let mut analyser: AlertAnalyser<u32> = AlertAnalyser::new(vec![]);
    analyser.handle(tx(status("db", "up", 10), "a"));
    let alert = analyser.handle(tx(status("db", "down", 20), "b")).expect("alert");
    assert_eq!(alert.id, "b");
    assert_eq!(alert.msg.previous_status, Some(status("db", "up", 10)));
    assert_eq!(alert.msg.current_status, status("db", "down", 20));
}

#[test]
fn an_unchanged_report_still_becomes_the_last_known_one() {
    let mut analyser: AlertAnalyser<u32> = AlertAnalyser::new(vec![]);
    analyser.handle(tx(status("db", "up", 10), "a"));
    analyser.handle(tx(status("db", "up", 20), "b"));
    let alert = analyser.handle(tx(status("db", "down", 30), "c")).expect("alert");
    assert_eq!(alert.msg.previous_status, Some(status("db", "up", 20)));
}

#[test]
fn checks_are_tracked_independently() {
    let mut analyser: AlertAnalyser<u32> = AlertAnalyser::new(vec![]);
    assert!(analyser.handle(tx(status("db", "up", 1), "a")).is_some());
    assert!(analyser.handle(tx(status("web", "up", 2), "b")).is_some());
    assert!(analyser.handle(tx(status("db", "up", 3), "c")).is_none());
    let alert = analyser.handle(tx(status("web", "down", 4), "d")).expect("alert");
    assert_eq!(alert.msg.previous_status, Some(status("web", "up", 2)));
}

#[test]
fn recipients_are_kept() {
    let mut analyser: AlertAnalyser<&str> = AlertAnalyser::new(vec!["webhook", "mail"]);
    analyser.handle(tx(status("db", "up", 1), "a"));
    assert_eq!(analyser.state_change_recipients(), &vec!["webhook", "mail"]);
}

#[test]
fn cloned_state_change_is_equal() {
    let change = StateChange { previous_status: Some(status("db", "up", 1)), current_status: status("db", "down", 2) };
    assert_eq!(change.clone(), change);
    let s = status("x", "y", 5);
    assert_eq!(s.clone(), s);
}

#[test]
fn a_run_raises_at_most_one_alert_per_report() {
    let mut analyser: AlertAnalyser<u32> = AlertAnalyser::new(vec![]);
    let run = [("db", "up"), ("db", "up"), ("db", "down"), ("web", "up"), ("db", "down"), ("db", "up")];
    let mut alerts = Vec::new();
    for (i, (name, state)) in run.iter().enumerate() {
        if let Some(a) = analyser.handle(tx(status(name, state, i as i64), &i.to_string())) {
            alerts.push(a);
        }
    }
    assert!(alerts.len() <= run.len());
    let ids: Vec<&str> = alerts.iter().map(|a| a.id.as_str()).collect();
    assert_eq!(ids, vec!["0", "2", "3", "5"]);
}

#[test]
fn each_alert_is_against_the_last_earlier_report_of_its_check() {
    let mut analyser: AlertAnalyser<u32> = AlertAnalyser::new(vec![]);
    analyser.handle(tx(status("db", "up", 1), "a"));
    analyser.handle(tx(status("web", "down", 2), "b"));
    analyser.handle(tx(status("db", "degraded", 3), "c"));
    analyser.handle(tx(status("web", "down", 4), "d"));
    let alert = analyser.handle(tx(status("db", "up", 5), "e")).expect("alert");
    assert_eq!(alert.msg.previous_status, Some(status("db", "degraded", 3)));
    let alert = analyser.handle(tx(status("web", "up", 6), "f")).expect("alert");
    assert_eq!(alert.msg.previous_status, Some(status("web", "down", 4)));
}

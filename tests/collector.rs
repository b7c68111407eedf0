use runner_pool::clock::{is_within_grace, parse_timestamp, Timestamp};
use runner_pool::gc::{
    collection_plan, find_live_server, find_registration, is_live, plan_collection,
    should_delete_instance, should_delete_instance_at, should_delete_runner, CollectError,
    Deletions,
};
use runner_pool::model::{Registration, Server};

const JAN_2024: i64 = 1_704_067_200;

fn server(name: &str, status: Option<&str>, created: Option<&str>) -> Server {
    Server {
        id: format!("id-{}", name),
        name: name.to_string(),
        status: status.map(|s| s.to_string()),
        created: created.map(|s| s.to_string()),
    }
}

fn registration(id: u64, name: &str, busy: bool, status: &str) -> Registration {
    Registration {
        id,
        name: name.to_string(),
        busy,
        status: status.to_string(),
        labels: vec!["x".to_string()],
    }
}

fn at(secs: i64) -> Timestamp {
    Timestamp { secs, nanos: 0 }
}

#[test]
fn parse_timestamp_reads_rfc3339() {
    let t = parse_timestamp("2024-01-01T00:00:00Z").unwrap();
    assert_eq!(t, Timestamp { secs: JAN_2024, nanos: 0 });
    let t = parse_timestamp("2024-01-01T01:00:00.5+01:00").unwrap();
    assert_eq!(t, Timestamp { secs: JAN_2024, nanos: 500_000_000 });
    assert!(parse_timestamp("yesterday").is_none());
    assert!(parse_timestamp("").is_none());
}

#[test]
fn grace_period_is_five_minutes() {
    assert!(is_within_grace(at(JAN_2024), at(JAN_2024 + 299)));
    assert!(!is_within_grace(at(JAN_2024), at(JAN_2024 + 300)));
    assert!(is_within_grace(
        at(JAN_2024),
        Timestamp { secs: JAN_2024 + 299, nanos: 999_999_999 }
    ));
    assert!(is_within_grace(at(JAN_2024), at(JAN_2024 - 60)));
}

#[test]
fn young_instance_is_never_deleted() {
    let s = server("gha-abcde", Some("ACTIVE"), Some("2024-01-01T00:00:00Z"));
    let now = at(JAN_2024 + 120);
    assert_eq!(should_delete_instance_at(&s, None, now), Ok(false));
    let idle = registration(1, "gha-abcde", false, "offline");
    assert_eq!(should_delete_instance_at(&s, Some(&idle), now), Ok(false));
}

#[test]
fn aged_instance_policy() {
    let s = server("gha-abcde", Some("ACTIVE"), Some("2024-01-01T00:00:00Z"));
    let now = at(JAN_2024 + 600);
    assert_eq!(should_delete_instance_at(&s, None, now), Ok(true));
    let busy = registration(1, "gha-abcde", true, "offline");
    assert_eq!(should_delete_instance_at(&s, Some(&busy), now), Ok(false));
    let online = registration(1, "gha-abcde", false, "online");
    assert_eq!(should_delete_instance_at(&s, Some(&online), now), Ok(false));
    let offline = registration(1, "gha-abcde", false, "offline");
    assert_eq!(should_delete_instance_at(&s, Some(&offline), now), Ok(true));
}

#[test]
fn instance_without_creation_time_skips_grace() {
    let s = server("gha-abcde", Some("BUILD"), None);
    assert_eq!(should_delete_instance_at(&s, None, at(0)), Ok(true));
}

#[test]
fn malformed_creation_time_is_an_error() {
    let s = server("gha-abcde", Some("ACTIVE"), Some("not a date"));
    assert_eq!(
        should_delete_instance_at(&s, None, at(JAN_2024)),
        Err(CollectError::InvalidTimestamp)
    );
    assert_eq!(should_delete_instance(&s, None), Err(CollectError::InvalidTimestamp));
}

#[test]
fn should_delete_instance_uses_current_time() {
    let old = (chrono::Utc::now() - chrono::Duration::minutes(10)).to_rfc3339();
    let s = server("gha-abcde", Some("ACTIVE"), Some(&old));
    assert_eq!(should_delete_instance(&s, None), Ok(true));
    let fresh = chrono::Utc::now().to_rfc3339();
    let s = server("gha-abcde", Some("ACTIVE"), Some(&fresh));
    assert_eq!(should_delete_instance(&s, None), Ok(false));
}

#[test]
fn registration_policy() {
    let r = registration(1, "gha-abcde", false, "online");
    let active = server("gha-abcde", Some("ACTIVE"), None);
    let building = server("gha-abcde", Some("BUILD"), None);
    let deleted = server("gha-abcde", Some("DELETED"), None);
    let errored = server("gha-abcde", Some("ERROR"), None);
    assert_eq!(should_delete_runner(&r, Some(&active)), Ok(false));
    assert_eq!(should_delete_runner(&r, Some(&building)), Ok(false));
    assert_eq!(should_delete_runner(&r, Some(&deleted)), Ok(true));
    assert_eq!(should_delete_runner(&r, Some(&errored)), Ok(true));
    assert_eq!(should_delete_runner(&r, None), Ok(true));
}

#[test]
fn live_statuses() {
    assert!(is_live(&Some("ACTIVE".to_string())));
    assert!(is_live(&Some("BUILD".to_string())));
    assert!(!is_live(&Some("active".to_string())));
    assert!(!is_live(&None));
}

#[test]
fn lookups_take_last_match() {
    let regs = vec![
        registration(1, "gha-aaaaa", false, "online"),
        registration(2, "gha-bbbbb", false, "online"),
        registration(3, "gha-aaaaa", true, "online"),
    ];
    assert_eq!(find_registration(&regs, &"gha-aaaaa".to_string()), Some(2));
    assert_eq!(find_registration(&regs, &"gha-ccccc".to_string()), None);
    let servers = vec![
        server("gha-aaaaa", Some("ACTIVE"), None),
        server("gha-aaaaa", Some("DELETED"), None),
        server("gha-bbbbb", Some("ERROR"), None),
    ];
    assert_eq!(find_live_server(&servers, &"gha-aaaaa".to_string()), Some(0));
    assert_eq!(find_live_server(&servers, &"gha-bbbbb".to_string()), None);
}

#[test]
fn orphaned_instance_is_collected() {
    let servers = vec![server("gha-abcde", Some("ACTIVE"), Some("2024-01-01T00:00:00Z"))];
    let regs: Vec<Registration> = vec![];
    let plan = plan_collection(&servers, &regs, at(JAN_2024 + 600));
    assert_eq!(plan.instances, vec![Ok(true)]);
    assert_eq!(plan.instances_to_delete(), vec![0]);
    assert!(plan.registrations_to_delete().is_empty());
}

#[test]
fn busy_registration_without_instance_is_collected() {
    let servers: Vec<Server> = vec![];
    let regs = vec![registration(7, "gha-abcde", true, "online")];
    let plan = plan_collection(&servers, &regs, at(JAN_2024));
    assert_eq!(plan.registrations, vec![true]);
    assert_eq!(plan.registrations_to_delete(), vec![0]);
}

#[test]
fn plan_isolates_malformed_timestamps() {
    let servers = vec![
        server("gha-aaaaa", Some("ACTIVE"), Some("garbage")),
        server("gha-bbbbb", Some("ACTIVE"), Some("2024-01-01T00:00:00Z")),
        server("gha-ccccc", Some("ACTIVE"), Some("2024-01-01T00:08:00Z")),
        server("gha-ddddd", Some("ACTIVE"), Some("2024-01-01T00:00:00Z")),
    ];
    let regs = vec![
        registration(1, "gha-ddddd", true, "online"),
        registration(2, "gha-bbbbb", false, "offline"),
        registration(3, "gha-zzzzz", false, "online"),
    ];
    let plan = plan_collection(&servers, &regs, at(JAN_2024 + 600));
    assert_eq!(
        plan.instances,
        vec![Err(CollectError::InvalidTimestamp), Ok(true), Ok(false), Ok(false)]
    );
    assert_eq!(plan.instances_to_delete(), vec![1]);
    assert_eq!(plan.invalid_instances(), vec![0]);
    assert_eq!(plan.registrations, vec![false, false, true]);
    assert_eq!(plan.registrations_to_delete(), vec![2]);
}

#[test]
fn collection_plan_at_current_time() {
    let old = (chrono::Utc::now() - chrono::Duration::minutes(10)).to_rfc3339();
    let servers = vec![server("gha-abcde", Some("ACTIVE"), Some(&old))];
    let regs = vec![registration(1, "gha-fghij", true, "online")];
    let plan = collection_plan(&servers, &regs);
    assert_eq!(plan.instances_to_delete(), vec![0]);
    assert_eq!(plan.registrations_to_delete(), vec![0]);
}

#[test]
fn failed_deletion_does_not_stop_the_pass() {
    let mut d = Deletions::new(3);
    assert_eq!(d.current(), Some(0));
    d.record(false);
    assert_eq!(d.current(), Some(1));
    d.record(true);
    assert_eq!(d.current(), Some(2));
    d.record(false);
    assert_eq!(d.current(), None);
    assert_eq!(d.failures, 2);
    assert_eq!(d.next, 3);
}

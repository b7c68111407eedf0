use runner_pool::cloud_config::Data;
use runner_pool::inventory::{idle_count, registration_has_label, select_registrations, select_servers};
use runner_pool::model::{Instance, Pool, PoolRunner, Registration, Server};
use runner_pool::naming::is_managed_name;
use runner_pool::provision::{start, step, Action, Event, Outcome, Phase};
use runner_pool::reconcile::{first_step, next_step, CycleStep};
use runner_pool::scaler::{attempts_needed, deficit, primary_label, Provisioning, MAX_IN_FLIGHT};
use runner_pool::session::{after_refresh, session_action, AuthStatus, SessionAction, SessionError};

fn pool(min_ready: u32, labels: &[&str]) -> Pool {
    Pool {
        min_ready,
        runner: PoolRunner { group_id: 1, labels: labels.iter().map(|l| l.to_string()).collect() },
        instance: Instance {
            key_name: "key".to_string(),
            flavor: "small".to_string(),
            image: "ubuntu".to_string(),
            network: "net".to_string(),
            runner_user: "runner".to_string(),
            runner_group: "docker".to_string(),
        },
    }
}

fn registration(name: &str, busy: bool, labels: &[&str]) -> Registration {
    Registration {
        id: 1,
        name: name.to_string(),
        busy,
        status: "online".to_string(),
        labels: labels.iter().map(|l| l.to_string()).collect(),
    }
}

fn is_generated(name: &str) -> bool {
    name.len() == 9 && name.starts_with("gha-") && name[4..].chars().all(|c| c.is_ascii_lowercase())
}

#[test]
fn deficit_values() {
    assert_eq!(deficit(3, 1), 2);
    assert_eq!(deficit(3, 3), 0);
    assert_eq!(deficit(3, 7), 0);
    assert_eq!(deficit(0, 0), 0);
    assert_eq!(deficit(u32::MAX, 0), u32::MAX);
    assert_eq!(deficit(5, usize::MAX), 0);
}

#[test]
fn attempts_match_shortfall() {
    let p = pool(3, &["x"]);
    let regs = vec![
        registration("gha-aaaaa", false, &["x"]),
        registration("gha-bbbbb", true, &["x"]),
        registration("gha-ccccc", true, &["x"]),
    ];
    assert_eq!(idle_count(&regs), 1);
    assert_eq!(attempts_needed(&p, &regs), 2);
    let p = pool(1, &["x"]);
    assert_eq!(attempts_needed(&p, &regs), 0);
}

#[test]
fn end_to_end_scale_up_names() {
    let p = pool(3, &["x"]);
    let regs = vec![registration("gha-aaaaa", false, &["x"])];
    let n = attempts_needed(&p, &regs);
    assert_eq!(n, 2);
    let mut names = vec![];
    for _ in 0..n {
        let name = p.runner.generate_name();
        assert!(is_generated(&name), "{}", name);
        names.push(name);
    }
    assert_eq!(names.len(), 2);
}

#[test]
fn generated_names_have_the_managed_shape() {
    let p = pool(1, &["x"]);
    for _ in 0..50 {
        let name = p.runner.generate_name();
        assert!(is_generated(&name), "{}", name);
        assert!(is_managed_name(&name));
    }
}

#[test]
fn primary_label_is_first() {
    let p = pool(1, &["x", "y"]);
    assert_eq!(primary_label(&p), Some(&"x".to_string()));
    let p = pool(1, &[]);
    assert_eq!(primary_label(&p), None);
}

#[test]
fn managed_names() {
    assert!(is_managed_name("gha-abcde"));
    assert!(is_managed_name("gha-"));
    assert!(!is_managed_name("gha"));
    assert!(!is_managed_name("gh-abcde"));
    assert!(!is_managed_name("xgha-abcde"));
}

#[test]
fn listing_filters_prefix_and_label() {
    let regs = vec![
        registration("gha-aaaaa", false, &["x"]),
        registration("other", false, &["x"]),
        registration("gha-bbbbb", false, &["y"]),
        registration("gha-ccccc", true, &["y", "x"]),
    ];
    assert_eq!(select_registrations(&regs, Some(&"x".to_string())), vec![0, 3]);
    assert_eq!(select_registrations(&regs, None), vec![0, 2, 3]);
    assert!(registration_has_label(&regs[3], &"x".to_string()));
    assert!(!registration_has_label(&regs[2], &"x".to_string()));
    let servers = vec![
        Server { id: "1".into(), name: "web".into(), status: None, created: None },
        Server { id: "2".into(), name: "gha-abcde".into(), status: None, created: None },
    ];
    assert_eq!(select_servers(&servers), vec![1]);
}

#[test]
fn concurrency_cap_holds() {
    let mut p = Provisioning::new(10);
    let mut peak = 0;
    let mut order = vec![];
    while !p.is_done() {
        while p.can_launch() {
            order.push(p.launch());
            assert!(p.in_flight <= MAX_IN_FLIGHT);
            peak = peak.max(p.in_flight);
        }
        p.finish(p.launched % 3 != 0);
    }
    assert_eq!(peak, 4);
    assert_eq!(order, (1..=10).collect::<Vec<u32>>());
    assert_eq!(p.launched, 10);
    assert_eq!(p.succeeded + p.failed, 10);
}

#[test]
fn nothing_to_provision() {
    let p = Provisioning::new(0);
    assert!(p.is_done());
    assert!(!p.can_launch());
}

#[test]
fn create_failure_revokes_before_reporting() {
    let (phase, action) = start();
    assert_eq!((phase, action), (Phase::Minting, Action::MintToken));
    let (phase, action) = step(phase, Event::MintOk);
    assert_eq!(action, Action::CreateInstance);
    let (phase, action) = step(phase, Event::CreateFailed);
    assert_eq!((phase, action), (Phase::Revoking, Action::RevokeRegistration));
    assert_eq!(
        step(phase, Event::RevokeOk),
        (Phase::Finished, Action::Report(Outcome::CreateFailed))
    );
    assert_eq!(
        step(phase, Event::RevokeFailed),
        (Phase::Finished, Action::WarnRevokeFailed(Outcome::CreateFailed))
    );
}

#[test]
fn attempt_success_and_mint_failure() {
    assert_eq!(
        step(Phase::Minting, Event::MintFailed),
        (Phase::Finished, Action::Report(Outcome::MintFailed))
    );
    assert_eq!(
        step(Phase::Creating, Event::CreateOk),
        (Phase::Finished, Action::Report(Outcome::Created))
    );
}

#[test]
fn session_decisions() {
    assert_eq!(session_action(false, Some(AuthStatus::Valid)), Err(SessionError::MissingSession));
    assert_eq!(session_action(true, Some(AuthStatus::Valid)), Ok(SessionAction::Use));
    assert_eq!(session_action(true, Some(AuthStatus::Expired)), Ok(SessionAction::Refresh));
    assert_eq!(session_action(true, Some(AuthStatus::AboutToExpire)), Ok(SessionAction::Refresh));
    assert_eq!(session_action(true, Some(AuthStatus::Unset)), Ok(SessionAction::Use));
    assert_eq!(session_action(true, None), Ok(SessionAction::Use));
    assert_eq!(after_refresh(false), Err(SessionError::RefreshFailed));
    assert_eq!(after_refresh(true), Ok(SessionAction::Use));
}

#[test]
fn failed_refresh_does_not_stop_the_loop() {
    let pools = 2;
    let s = first_step(pools);
    assert_eq!(s, CycleStep::ScalePool(0));
    let s = next_step(s, pools, false);
    assert_eq!(s, CycleStep::Sleep);
    let s = next_step(s, pools, true);
    assert_eq!(s, CycleStep::ScalePool(0));
}

#[test]
fn full_cycle_order() {
    let pools = 2;
    let mut s = first_step(pools);
    let mut seen = vec![s];
    while s != CycleStep::Sleep {
        s = next_step(s, pools, true);
        seen.push(s);
    }
    assert_eq!(
        seen,
        vec![CycleStep::ScalePool(0), CycleStep::ScalePool(1), CycleStep::Collect, CycleStep::Sleep]
    );
    assert_eq!(first_step(0), CycleStep::Collect);
    assert_eq!(next_step(CycleStep::Collect, pools, false), CycleStep::Sleep);
}

#[test]
fn bootstrap_document_fills_template() {
    let p = pool(1, &["x"]);
    let template = "#!/bin/sh\nsu ___RUNNER_USER___:___RUNNER_GROUP___ -c 'run --jitconfig ___JIT_CONFIG___'\n# ___JIT_CONFIG___\n";
    let d = Data::from_jitconfig(template, "TOKEN", &p);
    assert_eq!(d.write_files.len(), 1);
    assert_eq!(d.write_files[0].path, "/start.sh");
    assert_eq!(d.write_files[0].permissions, "0755");
    assert_eq!(
        d.write_files[0].content,
        "#!/bin/sh\nsu runner:docker -c 'run --jitconfig TOKEN'\n# TOKEN\n"
    );
    assert_eq!(d.runcmd, vec!["/start.sh".to_string()]);
}

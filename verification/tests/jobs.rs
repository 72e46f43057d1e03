use bevy_studio::build::db::{DequeueAction, DequeueEvent, DequeueStep, Job, JobManager, FINISHED, QUEUED, RUNNING};

fn conditions(s: &bevy_studio::store::Selection) -> Vec<(String, String)> {
    s.conditions.iter().map(|c| (c.field.clone(), c.value.clone())).collect()
}

#[test]
fn statuses() {
    assert_eq!((QUEUED, RUNNING, FINISHED), (1, 2, 3));
}

#[test]
fn claim_marks_queued_jobs_running() {
    let manager = JobManager {};
    let (step, action) = manager.dequeue_job();
    let claim = match step {
        DequeueStep::Claiming { claim_id } => claim_id,
        _ => panic!("expected a claim"),
    };
    assert_eq!(claim.len(), 36);
    match action {
        DequeueAction::Claim { update, values } => {
            assert_eq!(update.selection.table, "job");
            assert_eq!(conditions(&update.selection), vec![("status".to_string(), "1".to_string())]);
            assert!(update.selection.conditions[0].numeric);
            assert!(update.skipped.is_empty());
            assert_eq!(values.status, RUNNING);
            assert_eq!(values.claim_id, claim);
            assert_eq!(values.id, "");
        }
        _ => panic!("expected the claiming update"),
    }
}

#[test]
fn claim_with_given_id() {
    let (_, action) = JobManager {}.dequeue_job_with("claim-7".to_string());
    assert!(matches!(action, DequeueAction::Claim { ref values, .. } if values.claim_id == "claim-7"));
}

#[test]
fn nothing_claimed_finishes_empty() {
    let m = JobManager {};
    for affected in [Some(0), None] {
        let step = DequeueStep::Claiming { claim_id: "c".to_string() };
        let (next, action) = m.dequeue_step(step, DequeueEvent::Claimed { affected });
        assert!(matches!(next, DequeueStep::Done));
        assert!(matches!(action, DequeueAction::Finish { jobs: None }));
    }
}

#[test]
fn claimed_jobs_are_read_back() {
    let m = JobManager {};
    let step = DequeueStep::Claiming { claim_id: "c".to_string() };
    let (next, action) = m.dequeue_step(step, DequeueEvent::Claimed { affected: Some(2) });
    assert!(matches!(next, DequeueStep::Fetching));
    match action {
        DequeueAction::Fetch { selection } => {
            assert_eq!(selection.table, "job");
            assert_eq!(conditions(&selection), vec![("claim_id".to_string(), "1".to_string())]);
        }
        _ => panic!("expected a read back"),
    }
    let job = Job {
        id: "j".to_string(),
        status: RUNNING,
        project_id: "p".to_string(),
        log_name: "l".to_string(),
        claim_id: "1".to_string(),
    };
    let (next, action) = m.dequeue_step(next, DequeueEvent::Fetched { jobs: vec![job] });
    assert!(matches!(next, DequeueStep::Done));
    match action {
        DequeueAction::Finish { jobs: Some(jobs) } => assert_eq!(jobs[0].id, "j"),
        _ => panic!("expected the jobs"),
    }
}

#[test]
fn document_lookups() {
    let s = bevy_studio::jobs::JobManager {}.get("j1");
    assert_eq!(s.table, "jobs");
    assert_eq!(conditions(&s), vec![("id".to_string(), "j1".to_string())]);
    let s = bevy_studio::users::UserManager {}.get_user("u1");
    assert_eq!(s.table, "users");
    assert_eq!(conditions(&s), vec![("id".to_string(), "u1".to_string())]);
    assert_eq!(bevy_studio::store::studio_database_name(), "bevy-studio");
    let s = bevy_studio::db::users::UserManager {}.get_user("u2");
    assert_eq!(s.table, "user");
    assert_eq!(conditions(&s), vec![("id".to_string(), "u2".to_string())]);
}

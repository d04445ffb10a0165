use blackcube::approval::{check_put_status, hosted_image_ref, ApprovalError};
use blackcube::config::{Settings, Storage};
use blackcube::decimal::u64_decimal;
use blackcube::index::{IndexError, PendingRequest, PendingRequestIndex};
use blackcube::lifecycle::{parse_action, Action, Effect, LogStatus, Notice, RequestLifecycle};
use blackcube::records::{approval_record, Record, Usrbg};
use blackcube::submission::{screen_submission, Attachment, SubmitDecision, Submission};

fn request(submitter: u64, log: u64, source: u64) -> PendingRequest {
    PendingRequest {
        submitter_id: submitter,
        log_message_id: log,
        source_message_id: source,
        image_ref: format!("https://media.example/{}.png", source),
    }
}

fn edit(log: u64, status: LogStatus, thumbnail: Option<&str>) -> Effect {
    Effect::EditLog {
        log_message_id: log,
        status,
        thumbnail: thumbnail.map(|t| t.to_string()),
    }
}

fn storage() -> Storage {
    Storage {
        url: "https://cdn".to_string(),
        access_key: "key".to_string(),
        secret_key: "secret".to_string(),
        bucket_name: "x".to_string(),
        storage_path: "/".to_string(),
    }
}

#[test]
fn approved_submission_end_to_end() {
    let settings = Settings { image_types: vec!["png".to_string(), "jpeg".to_string()] };
    let submitter: u64 = 42;
    let sub = Submission {
        blacklisted: false,
        authorized: false,
        attachment: Some(Attachment {
            size: 2048,
            content_type: Some("image/png".to_string()),
            url: "https://media.example/501.png".to_string(),
        }),
    };
    assert_eq!(screen_submission(&settings, &sub), SubmitDecision::Accept);

    let mut lc = RequestLifecycle::new();
    let effects = lc.submit(request(submitter, 1001, 501)).unwrap();
    assert!(effects.is_empty());
    assert!(lc.has_pending(submitter));
    assert_eq!(lc.pending(1001).unwrap().submitter_id, submitter);

    let plan = lc.press(1001, Action::Approve, 7, true, None);
    assert_eq!(
        plan.effects,
        vec![edit(1001, LogStatus::Uploading, Some("https://media.example/501.png"))]
    );
    assert!(!plan.answered());
    let claimed = plan.upload.unwrap();
    assert_eq!(claimed, request(submitter, 1001, 501));

    let uid = u64_decimal(submitter);
    let hosted = hosted_image_ref(&storage(), &uid);
    assert_eq!(hosted, "https://cdn/x/42");
    assert_eq!(check_put_status(200), Ok(()));
    let record = approval_record(&claimed, hosted.clone());
    assert_eq!(
        record,
        Record::ApprovedBanner(Usrbg { uid: "42".to_string(), img: hosted.clone() })
    );

    let effects = lc.finish_approval(claimed, Ok(hosted.clone()));
    assert_eq!(
        effects,
        vec![
            edit(1001, LogStatus::Approved, Some("https://cdn/x/42")),
            Effect::DeleteSource { source_message_id: 501 },
        ]
    );
    assert_eq!(LogStatus::Approved.title(), "Request Approved");
    assert!(!lc.has_pending(submitter));
    assert!(lc.pending(1001).is_none());
}

#[test]
fn resubmission_supersedes_pending_request() {
    let mut lc = RequestLifecycle::new();
    assert!(lc.submit(request(42, 1001, 501)).unwrap().is_empty());
    let effects = lc.submit(request(42, 1002, 502)).unwrap();
    assert_eq!(effects, vec![edit(1001, LogStatus::Cancelled, None)]);
    assert!(lc.pending(1001).is_none());
    assert_eq!(lc.pending(1002).unwrap(), &request(42, 1002, 502));
    assert!(lc.has_pending(42));
    // the superseded log message no longer acts
    let plan = lc.press(1001, Action::Approve, 7, true, None);
    assert!(plan.effects.is_empty());
    assert!(plan.upload.is_none());
    assert!(lc.pending(1002).is_some());
}

#[test]
fn many_resubmissions_leave_one_pending_request() {
    let mut lc = RequestLifecycle::new();
    let mut cancelled = Vec::new();
    for k in 0..5u64 {
        let effects = lc.submit(request(42, 2000 + k, 3000 + k)).unwrap();
        cancelled.extend(effects);
    }
    let expected: Vec<Effect> =
        (0..4u64).map(|k| edit(2000 + k, LogStatus::Cancelled, None)).collect();
    assert_eq!(cancelled, expected);
    for k in 0..4u64 {
        assert!(lc.pending(2000 + k).is_none());
    }
    assert_eq!(lc.pending(2004).unwrap().submitter_id, 42);
}

#[test]
fn source_deleted_externally_cancels_request() {
    let mut lc = RequestLifecycle::new();
    lc.submit(request(42, 1001, 501)).unwrap();
    let effects = lc.source_deleted(501);
    assert_eq!(effects, vec![edit(1001, LogStatus::Cancelled, None)]);
    assert!(!effects.iter().any(|e| matches!(e, Effect::DeleteSource { .. })));
    assert!(!lc.has_pending(42));
    assert!(lc.pending(1001).is_none());
}

#[test]
fn source_deleted_twice_is_a_no_op() {
    let mut lc = RequestLifecycle::new();
    lc.submit(request(42, 1001, 501)).unwrap();
    assert_eq!(lc.source_deleted(501).len(), 1);
    assert!(lc.source_deleted(501).is_empty());
    assert!(lc.source_deleted(999).is_empty());
}

#[test]
fn unauthorized_approve_changes_nothing() {
    let mut lc = RequestLifecycle::new();
    lc.submit(request(42, 1001, 501)).unwrap();
    let plan = lc.press(1001, Action::Approve, 9, false, None);
    assert_eq!(plan.effects, vec![Effect::Reply { notice: Notice::AwaitModerator }]);
    assert!(plan.upload.is_none());
    assert_eq!(lc.pending(1001).unwrap(), &request(42, 1001, 501));
    let plan = lc.press(1001, Action::Deny, 9, false, None);
    assert_eq!(plan.effects, vec![Effect::Reply { notice: Notice::AwaitModerator }]);
    assert!(lc.has_pending(42));
}

#[test]
fn deny_twice_is_idempotent() {
    let mut lc = RequestLifecycle::new();
    lc.submit(request(42, 1001, 501)).unwrap();
    let plan = lc.press(1001, Action::Deny, 7, true, None);
    assert_eq!(
        plan.effects,
        vec![
            edit(1001, LogStatus::Denied, None),
            Effect::DeleteSource { source_message_id: 501 },
        ]
    );
    assert!(!lc.has_pending(42));
    let again = lc.press(1001, Action::Deny, 7, true, None);
    assert!(again.effects.is_empty());
    assert!(again.upload.is_none());
}

#[test]
fn cancel_twice_is_idempotent() {
    let mut lc = RequestLifecycle::new();
    lc.submit(request(42, 1001, 501)).unwrap();
    let plan = lc.press(1001, Action::Cancel, 42, false, None);
    assert_eq!(
        plan.effects,
        vec![
            edit(1001, LogStatus::Cancelled, None),
            Effect::DeleteSource { source_message_id: 501 },
        ]
    );
    assert!(lc.press(1001, Action::Cancel, 42, false, None).effects.is_empty());
    assert!(!lc.has_pending(42));
}

#[test]
fn cancel_by_another_user_is_refused() {
    let mut lc = RequestLifecycle::new();
    lc.submit(request(42, 1001, 501)).unwrap();
    let plan = lc.press(1001, Action::Cancel, 43, true, None);
    assert_eq!(plan.effects, vec![Effect::Reply { notice: Notice::NotYourRequest }]);
    assert!(plan.answered());
    assert_eq!(lc.pending(1001).unwrap(), &request(42, 1001, 501));
}

#[test]
fn failed_approval_restores_pending_request() {
    let mut lc = RequestLifecycle::new();
    lc.submit(request(42, 1001, 501)).unwrap();
    let plan = lc.press(1001, Action::Approve, 7, true, None);
    let claimed = plan.upload.unwrap();
    assert!(!lc.has_pending(42));
    let effects = lc.finish_approval(claimed, Err(ApprovalError::UploadFailed));
    assert_eq!(
        effects,
        vec![
            edit(1001, LogStatus::Pending, Some("https://media.example/501.png")),
            Effect::Reply { notice: Notice::ApprovalFailed },
        ]
    );
    assert_eq!(lc.pending(1001).unwrap(), &request(42, 1001, 501));
    // the moderator can try again
    assert!(lc.press(1001, Action::Approve, 7, true, None).upload.is_some());
}

#[test]
fn failed_approval_after_resubmission_is_cancelled() {
    let mut lc = RequestLifecycle::new();
    lc.submit(request(42, 1001, 501)).unwrap();
    let claimed = lc.press(1001, Action::Approve, 7, true, None).upload.unwrap();
    assert!(lc.submit(request(42, 1002, 502)).unwrap().is_empty());
    let effects = lc.finish_approval(claimed, Err(ApprovalError::PersistenceFailed));
    assert_eq!(
        effects,
        vec![
            edit(1001, LogStatus::Cancelled, None),
            Effect::Reply { notice: Notice::ApprovalFailed },
        ]
    );
    assert!(lc.pending(1001).is_none());
    assert!(lc.pending(1002).is_some());
}

#[test]
fn recovered_request_is_acted_on_once() {
    let mut lc = RequestLifecycle::new();
    let recovered = request(42, 1001, 501);
    let plan = lc.press(1001, Action::Deny, 7, true, Some(recovered));
    assert_eq!(
        plan.effects,
        vec![
            edit(1001, LogStatus::Denied, None),
            Effect::DeleteSource { source_message_id: 501 },
        ]
    );
    let again = lc.press(1001, Action::Deny, 7, true, Some(request(42, 1001, 501)));
    assert!(again.effects.is_empty());
}

#[test]
fn recovered_request_for_another_log_is_ignored() {
    let mut lc = RequestLifecycle::new();
    let plan = lc.press(1001, Action::Deny, 7, true, Some(request(42, 1002, 501)));
    assert!(plan.effects.is_empty());
    let plan = lc.press(1001, Action::Deny, 7, true, None);
    assert!(plan.effects.is_empty());
}

#[test]
fn submit_refuses_reused_messages() {
    let mut lc = RequestLifecycle::new();
    lc.submit(request(42, 1001, 501)).unwrap();
    assert_eq!(lc.submit(request(43, 1001, 601)), Err(IndexError::DuplicateLogMessage));
    assert_eq!(lc.submit(request(43, 1002, 501)), Err(IndexError::DuplicateSourceMessage));
    lc.press(1001, Action::Deny, 7, true, None);
    assert_eq!(lc.submit(request(43, 1001, 601)), Err(IndexError::DuplicateLogMessage));
}

#[test]
fn index_insert_refusals() {
    let mut index = PendingRequestIndex::new();
    assert_eq!(index.insert(42, 1001, 501, "a".to_string()), Ok(()));
    assert_eq!(
        index.insert(42, 1002, 502, "b".to_string()),
        Err(IndexError::DuplicateSubmitter)
    );
    assert_eq!(
        index.insert(43, 1001, 502, "b".to_string()),
        Err(IndexError::DuplicateLogMessage)
    );
    assert_eq!(
        index.insert(43, 1002, 501, "b".to_string()),
        Err(IndexError::DuplicateSourceMessage)
    );
    assert!(index.get_by_log_message(1002).is_none());
}

#[test]
fn index_removal_by_any_key_removes_all_keys() {
    let mut index = PendingRequestIndex::new();
    index.insert(42, 1001, 501, "a".to_string()).unwrap();
    index.insert(43, 1002, 502, "b".to_string()).unwrap();
    index.insert(44, 1003, 503, "c".to_string()).unwrap();

    let p = index.remove_by_submitter(42).unwrap();
    assert_eq!((p.log_message_id, p.source_message_id), (1001, 501));
    assert!(index.get_by_log_message(1001).is_none());
    assert!(!index.contains_source_message(501));

    let p = index.remove_by_log_message(1002).unwrap();
    assert_eq!(p.submitter_id, 43);
    assert!(!index.contains_submitter(43));
    assert!(!index.contains_source_message(502));

    let p = index.remove_by_source_message(503).unwrap();
    assert_eq!(p.image_ref, "c");
    assert!(!index.contains_submitter(44));
    assert!(index.get_by_log_message(1003).is_none());

    assert!(index.remove_by_submitter(42).is_none());
    assert!(index.remove_by_log_message(1002).is_none());
    assert!(index.remove_by_source_message(503).is_none());
    // the keys are free again
    assert_eq!(index.insert(42, 1001, 501, "d".to_string()), Ok(()));
}

#[test]
fn action_names_and_titles() {
    assert_eq!(parse_action("Approve"), Some(Action::Approve));
    assert_eq!(parse_action("Deny"), Some(Action::Deny));
    assert_eq!(parse_action("Cancel"), Some(Action::Cancel));
    assert_eq!(parse_action("approve"), None);
    assert_eq!(parse_action(""), None);
    assert_eq!(LogStatus::Pending.title(), "Request Pending");
    assert_eq!(LogStatus::Uploading.title(), "Uploading...");
    assert_eq!(LogStatus::Denied.title(), "Request Denied");
    assert_eq!(LogStatus::Cancelled.title(), "Request Cancelled");
    assert!(LogStatus::Pending.has_controls());
    assert!(!LogStatus::Uploading.has_controls());
    assert_eq!(
        Notice::AwaitModerator.text(),
        "You must wait for a moderator to approve/deny this background"
    );
    assert_eq!(
        Notice::NotYourRequest.text(),
        "You cannot cancel someone else's background request"
    );
    assert_eq!(Notice::ApprovalFailed.text(), "Failed to accept request");
}

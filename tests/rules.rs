use blackcube::anchor::{
    message_id_from_link, message_id_from_path, recover_request, submitter_from_fields,
    EmbedField,
};
use blackcube::approval::{
    check_download_type, check_put_status, check_subtype, delete_succeeded, hosted_image_ref,
    storage_object_path, ApprovalError,
};
use blackcube::auth::has_auth;
use blackcube::commands::{command_from_text, decide_command, Command, CommandKind};
use blackcube::config::{route_message, type_allowed, MessageRoute, Server, Settings, Storage};
use blackcube::decimal::{parse_u64, u64_decimal};
use blackcube::index::PendingRequest;
use blackcube::records::{Blacklist, Record, RecordKind, StoreOp};
use blackcube::submission::{
    screen_submission, screen_with_subtype, Attachment, SubmitDecision, SubmitRejection,
    Submission, MAX_ATTACHMENT_BYTES,
};

fn settings() -> Settings {
    Settings { image_types: vec!["png".to_string(), "jpeg".to_string(), "gif".to_string()] }
}

fn submission(blacklisted: bool, authorized: bool, size: u64, ct: Option<&str>) -> Submission {
    Submission {
        blacklisted,
        authorized,
        attachment: Some(Attachment {
            size,
            content_type: ct.map(|c| c.to_string()),
            url: "https://media.example/1.png".to_string(),
        }),
    }
}

#[test]
fn blacklisted_submitter_is_rejected() {
    for authorized in [false, true] {
        let d = screen_submission(&settings(), &submission(true, authorized, 10, Some("image/png")));
        assert_eq!(d, SubmitDecision::Reject(SubmitRejection::Blacklisted));
        assert!(d.deletes_source());
    }
    let none = Submission { blacklisted: true, authorized: false, attachment: None };
    assert_eq!(
        screen_submission(&settings(), &none),
        SubmitDecision::Reject(SubmitRejection::Blacklisted)
    );
}

#[test]
fn disallowed_type_is_rejected_unless_authorized() {
    let d = screen_submission(&settings(), &submission(false, false, 10, Some("image/webp")));
    assert_eq!(d, SubmitDecision::Reject(SubmitRejection::DisallowedType));
    assert!(d.deletes_source());
    let d = screen_submission(&settings(), &submission(false, true, 10, Some("image/webp")));
    assert_eq!(d, SubmitDecision::Accept);
    assert!(!d.deletes_source());
    let d = screen_submission(&settings(), &submission(false, false, 10, None));
    assert_eq!(d, SubmitDecision::Reject(SubmitRejection::DisallowedType));
    let d = screen_submission(&settings(), &submission(false, false, 10, Some("not a type")));
    assert_eq!(d, SubmitDecision::Reject(SubmitRejection::DisallowedType));
    let d = screen_submission(&settings(), &submission(false, false, 10, Some("image/jpeg")));
    assert_eq!(d, SubmitDecision::Accept);
}

#[test]
fn missing_attachment() {
    let user = Submission { blacklisted: false, authorized: false, attachment: None };
    assert_eq!(
        screen_submission(&settings(), &user),
        SubmitDecision::Reject(SubmitRejection::MissingAttachment)
    );
    let moderator = Submission { blacklisted: false, authorized: true, attachment: None };
    let d = screen_submission(&settings(), &moderator);
    assert_eq!(d, SubmitDecision::Ignore);
    assert!(!d.deletes_source());
}

#[test]
fn size_ceiling() {
    assert_eq!(MAX_ATTACHMENT_BYTES, 10_000_000);
    let at = submission(false, false, 10_000_000, Some("image/png"));
    assert_eq!(screen_submission(&settings(), &at), SubmitDecision::Accept);
    for authorized in [false, true] {
        let over = submission(false, authorized, 10_000_001, Some("image/png"));
        assert_eq!(
            screen_submission(&settings(), &over),
            SubmitDecision::Reject(SubmitRejection::TooLarge)
        );
    }
}

#[test]
fn screen_with_given_subtype() {
    let sub = submission(false, false, 10, Some("ignored"));
    assert_eq!(
        screen_with_subtype(&settings(), &sub, &Some("gif".to_string())),
        SubmitDecision::Accept
    );
    assert_eq!(
        screen_with_subtype(&settings(), &sub, &Some("bmp".to_string())),
        SubmitDecision::Reject(SubmitRejection::DisallowedType)
    );
    assert_eq!(
        screen_with_subtype(&settings(), &sub, &None),
        SubmitDecision::Reject(SubmitRejection::DisallowedType)
    );
}

#[test]
fn download_content_type_checks() {
    assert_eq!(check_download_type(&settings(), &Some("image/png".to_string())), Ok(()));
    assert_eq!(
        check_download_type(&settings(), &Some("image/png; charset=binary".to_string())),
        Ok(())
    );
    assert_eq!(
        check_download_type(&settings(), &Some("image/svg+xml".to_string())),
        Err(ApprovalError::UploadRejected)
    );
    assert_eq!(
        check_download_type(&settings(), &Some("text/html".to_string())),
        Err(ApprovalError::UploadRejected)
    );
    assert_eq!(
        check_download_type(&settings(), &Some("nonsense".to_string())),
        Err(ApprovalError::UploadRejected)
    );
    assert_eq!(check_download_type(&settings(), &None), Err(ApprovalError::UploadRejected));
    assert_eq!(check_subtype(&settings(), &Some("jpeg".to_string())), Ok(()));
    assert_eq!(check_subtype(&settings(), &None), Err(ApprovalError::UploadRejected));
}

#[test]
fn storage_addresses() {
    let storage = Storage {
        url: "https://s3.example.com".to_string(),
        access_key: "a".to_string(),
        secret_key: "b".to_string(),
        bucket_name: "images".to_string(),
        storage_path: "/usrbg/".to_string(),
    };
    assert_eq!(storage_object_path(&storage, "42"), "/usrbg/42");
    assert_eq!(hosted_image_ref(&storage, "42"), "https://s3.example.com/images/usrbg/42");
}

#[test]
fn storage_status_codes() {
    assert_eq!(check_put_status(200), Ok(()));
    assert_eq!(check_put_status(204), Err(ApprovalError::UploadFailed));
    assert_eq!(check_put_status(500), Err(ApprovalError::UploadFailed));
    assert!(delete_succeeded(204));
    assert!(!delete_succeeded(200));
}

#[test]
fn decimal_text() {
    assert_eq!(u64_decimal(0), "0");
    assert_eq!(u64_decimal(7), "7");
    assert_eq!(u64_decimal(1234567890), "1234567890");
    assert_eq!(u64_decimal(u64::MAX), "18446744073709551615");
    assert_eq!(parse_u64("123"), Some(123));
    assert_eq!(parse_u64("+7"), Some(7));
    assert_eq!(parse_u64("007"), Some(7));
    assert_eq!(parse_u64("18446744073709551615"), Some(u64::MAX));
    assert_eq!(parse_u64("18446744073709551616"), None);
    assert_eq!(parse_u64(""), None);
    assert_eq!(parse_u64("+"), None);
    assert_eq!(parse_u64("12a"), None);
    assert_eq!(parse_u64(" 12"), None);
    assert_eq!(parse_u64("-1"), None);
    for n in [0u64, 9, 10, 99, 100, 987654321, u64::MAX] {
        assert_eq!(parse_u64(&u64_decimal(n)), Some(n));
    }
}

fn fields(pairs: &[(&str, &str)]) -> Vec<EmbedField> {
    pairs
        .iter()
        .map(|(n, v)| EmbedField { name: n.to_string(), value: v.to_string() })
        .collect()
}

#[test]
fn submitter_read_from_fields() {
    assert_eq!(submitter_from_fields(&fields(&[("User", "bob"), ("UID", "42")])), Some(42));
    assert_eq!(submitter_from_fields(&fields(&[("UID", "42"), ("UID", "43")])), Some(42));
    assert_eq!(submitter_from_fields(&fields(&[("User", "bob")])), None);
    assert_eq!(submitter_from_fields(&fields(&[("UID", "bob")])), None);
    assert_eq!(submitter_from_fields(&Vec::new()), None);
}

#[test]
fn message_read_from_link() {
    assert_eq!(message_id_from_path("/channels/1/2/345"), Some(345));
    assert_eq!(message_id_from_path("/345"), Some(345));
    assert_eq!(message_id_from_path("/channels/1/2/"), None);
    assert_eq!(message_id_from_path("345"), None);
    assert_eq!(message_id_from_path(""), None);
    assert_eq!(
        message_id_from_link("https://discord.com/channels/10/20/30"),
        Some(30)
    );
    assert_eq!(
        message_id_from_link("https://discord.com/channels/10/20/30?x=1#y"),
        Some(30)
    );
    assert_eq!(message_id_from_link("https://discord.com/channels/10/20/abc"), None);
    assert_eq!(message_id_from_link("not a link"), None);
    assert_eq!(message_id_from_link("mailto:someone@example.com"), None);
}

#[test]
fn request_recovered_from_log_message() {
    let r = recover_request(
        1001,
        &fields(&[("User", "bob"), ("UID", "42")]),
        "https://discord.com/channels/10/20/501",
        "https://media.example/501.png".to_string(),
    );
    assert_eq!(
        r,
        Some(PendingRequest {
            submitter_id: 42,
            log_message_id: 1001,
            source_message_id: 501,
            image_ref: "https://media.example/501.png".to_string(),
        })
    );
    let missing = recover_request(
        1001,
        &fields(&[("User", "bob")]),
        "https://discord.com/channels/10/20/501",
        "x".to_string(),
    );
    assert_eq!(missing, None);
    let bad_link = recover_request(1001, &fields(&[("UID", "42")]), "nowhere", "x".to_string());
    assert_eq!(bad_link, None);
}

fn words(ws: &[&str]) -> Vec<String> {
    ws.iter().map(|w| w.to_string()).collect()
}

#[test]
fn moderator_commands() {
    assert_eq!(
        command_from_text("~ban 123", 7, true),
        Some(Command { kind: CommandKind::Ban, uid: "123".to_string() })
    );
    assert_eq!(
        command_from_text("  ~unban\t123  ", 7, true),
        Some(Command { kind: CommandKind::Unban, uid: "123".to_string() })
    );
    assert_eq!(
        command_from_text("~remove 123", 7, true),
        Some(Command { kind: CommandKind::RemoveBanner, uid: "123".to_string() })
    );
    assert_eq!(command_from_text("~ban bob", 7, true), None);
    assert_eq!(command_from_text("~kick 123", 7, true), None);
    assert_eq!(
        command_from_text("~remove", 7, true),
        Some(Command { kind: CommandKind::RemoveBanner, uid: "7".to_string() })
    );
}

#[test]
fn user_commands() {
    assert_eq!(
        command_from_text("~remove", 42, false),
        Some(Command { kind: CommandKind::RemoveBanner, uid: "42".to_string() })
    );
    assert_eq!(
        command_from_text("~remove 99", 42, false),
        Some(Command { kind: CommandKind::RemoveBanner, uid: "42".to_string() })
    );
    assert_eq!(command_from_text("~ban 99", 42, false), None);
    assert_eq!(command_from_text("", 42, false), None);
    assert_eq!(command_from_text("   ", 42, true), None);
    assert_eq!(decide_command(&words(&["~ban"]), 42, true), None);
    assert_eq!(
        decide_command(&words(&["~remove", "x"]), 42, false),
        Some(Command { kind: CommandKind::RemoveBanner, uid: "42".to_string() })
    );
}

#[test]
fn command_effects_and_replies() {
    let ban = Command { kind: CommandKind::Ban, uid: "5".to_string() };
    assert_eq!(
        ban.store_op(),
        StoreOp::Upsert(Record::BanEntry(Blacklist { uid: "5".to_string() }))
    );
    assert_eq!(ban.reply(true), "banned user");
    assert_eq!(ban.reply(false), "failed to ban user");
    let unban = Command { kind: CommandKind::Unban, uid: "5".to_string() };
    assert_eq!(
        unban.store_op(),
        StoreOp::Delete { kind: RecordKind::BanEntry, uid: "5".to_string() }
    );
    assert_eq!(unban.reply(true), "unbanned user");
    assert_eq!(unban.reply(false), "failed to unban user");
    let remove = Command { kind: CommandKind::RemoveBanner, uid: "5".to_string() };
    assert_eq!(
        remove.store_op(),
        StoreOp::Delete { kind: RecordKind::ApprovedBanner, uid: "5".to_string() }
    );
    assert_eq!(remove.reply(true), "usrbg removed");
    assert_eq!(remove.reply(false), "failed to remove usrbg");
}

#[test]
fn records_by_kind() {
    let r = Record::BanEntry(Blacklist { uid: "9".to_string() });
    assert_eq!(r.kind(), RecordKind::BanEntry);
    assert_eq!(r.uid(), "9");
}

#[test]
fn moderator_role() {
    assert!(has_auth(&vec![1, 2, 3], 2));
    assert!(!has_auth(&vec![1, 3], 2));
    assert!(!has_auth(&Vec::new(), 2));
}

#[test]
fn message_routing() {
    let server = Server {
        request_channel_id: 1,
        log_channel_id: 2,
        command_channel_id: 3,
        auth_role_id: 4,
    };
    assert_eq!(route_message(&server, 1), MessageRoute::Request);
    assert_eq!(route_message(&server, 3), MessageRoute::Command);
    assert_eq!(route_message(&server, 2), MessageRoute::Other);
    assert!(type_allowed(&settings(), &"gif".to_string()));
    assert!(!type_allowed(&settings(), &"GIF".to_string()));
}

use securewipe::{
    build_certificate, digest_hex, not_found_message, plan_hardware, select_method, timestamp,
    verification_digest, ata_erase_succeeded, seconds_or_zero, FailReason, JobState, Method,
    Notice, Profile, Registry, FULL_PROGRESS, RUNNING_CEILING, START_PROGRESS,
};

const EMPTY_SHA256: &str = "e3b0c44298fc1c149afbf4c8996fb92427ae41e4649b934ca495991b7852b855";

#[test]
fn digests_are_lowercase_hex_sha256() {
    assert_eq!(
        digest_hex(b"abc"),
        "ba7816bf8f01cfea414140de5dae2223b00361a396177a9cb410ff61f20015ad"
    );
    assert_eq!(digest_hex(b""), EMPTY_SHA256);
    assert_eq!(verification_digest(None), EMPTY_SHA256);
    assert_eq!(verification_digest(Some(&b"abc"[..])), digest_hex(b"abc"));
}

#[test]
fn certificate_fields() {
    let c = build_certificate("job-1", "/dev/loop0", Profile::Quick, Method::Overwrite(Profile::Quick), 1700000000, "00ff");
    assert_eq!(c.id, "job-1");
    assert_eq!(c.device, "/dev/loop0");
    assert_eq!(c.profile, "quick");
    assert_eq!(c.method, "overwrite_quick");
    assert_eq!(c.timestamp, 1700000000);
    assert_eq!(c.hash, "00ff");
}

#[test]
fn notification_texts() {
    assert_eq!(Notice::Sent.text(), "sent");
    assert_eq!(Notice::Failed("smtp down".to_string()).text(), "failed: smtp down");
    assert_eq!(Notice::Error("no python".to_string()).text(), "error: no python");
}

#[test]
fn clock_reads_after_epoch() {
    assert!(timestamp() > 1_600_000_000);
}

#[test]
fn submissions_get_unique_ids() {
    let mut reg = Registry::new();
    let mut ids = Vec::new();
    for _ in 0..50 {
        let id = reg.submit().unwrap();
        assert_eq!(id.len(), 36);
        ids.push(id);
    }
    let list = reg.list();
    assert_eq!(list.len(), 50);
    for i in 0..list.len() {
        assert_eq!(list[i].id, ids[i]);
        assert_eq!(list[i].state, JobState::Queued);
        assert_eq!(list[i].message, "queued");
        for j in 0..i {
            assert_ne!(list[i].id, list[j].id);
        }
    }
}

#[test]
fn duplicate_id_refused() {
    let mut reg = Registry::new();
    assert!(reg.create("a".to_string()));
    assert!(!reg.create("a".to_string()));
    assert!(reg.create("b".to_string()));
    assert_eq!(reg.list().len(), 2);
    assert!(reg.get("c").is_none());
}

#[test]
fn transitions_go_one_way() {
    let mut reg = Registry::new();
    let id = reg.submit().unwrap();
    assert!(!reg.advance(&id, 100_000, "early".to_string()));
    assert!(!reg.finish(&id, "c".to_string(), &Notice::Sent));
    assert!(reg.start(&id));
    assert!(!reg.start(&id));
    let j = reg.get(&id).unwrap();
    assert_eq!(j.state, JobState::Running);
    assert_eq!(j.progress, START_PROGRESS);
    assert_eq!(j.message, "starting");
    assert!(reg.advance(&id, 400_000, "wiping: 4 bytes".to_string()));
    assert!(!reg.advance(&id, 300_000, "back".to_string()));
    assert!(!reg.advance(&id, FULL_PROGRESS + 1, "over".to_string()));
    assert!(!reg.advance(&id, RUNNING_CEILING + 1, "over".to_string()));
    assert!(reg.get(&id).unwrap().notification.is_none());
    assert_eq!(reg.get(&id).unwrap().progress, 400_000);
    assert!(reg.finish(&id, "out/certs/x.json".to_string(), &Notice::Failed("boom".to_string())));
    let j = reg.get(&id).unwrap();
    assert_eq!(j.state, JobState::Finished);
    assert_eq!(j.progress, FULL_PROGRESS);
    assert_eq!(j.certificate.as_deref(), Some("out/certs/x.json"));
    assert_eq!(j.notification.as_deref(), Some("failed: boom"));
    assert!(!reg.fail(&id, "late".to_string()));
    assert!(!reg.start("unknown"));
}

#[test]
fn quick_unauthorized_loop_target_finishes() {
    let mut reg = Registry::new();
    let id = reg.submit().unwrap();
    assert!(reg.start(&id));
    let profile = Profile::parse("quick").unwrap();
    let plan = plan_hardware("/dev/loop0", false);
    let method = select_method(plan, false, profile);
    assert_eq!(method.name(), "overwrite_quick");
    let digest = verification_digest(Some(&[0u8; 16][..]));
    let cert = build_certificate(&id, "/dev/loop0", profile, method, timestamp(), &digest);
    assert_eq!(cert.method, "overwrite_quick");
    assert!(reg.finish(&id, format!("./out/certs/{}.json", id), &Notice::Sent));
    let job = reg.get(&id).unwrap();
    assert_eq!(job.state, JobState::Finished);
    assert!(job.certificate.is_some());
    assert_eq!(job.progress, FULL_PROGRESS);
}

#[test]
fn missing_target_fails_without_certificate() {
    let mut reg = Registry::new();
    let id = reg.submit().unwrap();
    assert!(reg.start(&id));
    assert!(reg.advance(&id, 100_000, "wiping: 0 bytes".to_string()));
    assert!(reg.fail(&id, not_found_message("/dev/does-not-exist")));
    let job = reg.get(&id).unwrap();
    assert_eq!(job.state, JobState::Failed);
    assert!(job.message.contains("not found"));
    assert_eq!(job.message, "path not found: /dev/does-not-exist");
    assert_eq!(job.progress, 100_000);
    assert!(job.certificate.is_none());
    assert!(job.notification.is_none());
    assert!(!reg.finish(&id, "c".to_string(), &Notice::Sent));
}

#[test]
fn missing_target_keeps_start_progress() {
    let mut reg = Registry::new();
    let id = reg.submit().unwrap();
    assert!(reg.start(&id));
    assert!(reg.fail(&id, FailReason::Missing.message("/nope")));
    let job = reg.get(&id).unwrap();
    assert_eq!(job.state, JobState::Failed);
    assert_eq!(job.progress, START_PROGRESS);
    assert_eq!(job.message, "path not found: /nope");
    assert!(!reg.advance(&id, 200_000, "late".to_string()));
}

#[test]
fn failure_messages() {
    assert_eq!(FailReason::Missing.message("/dev/x"), "path not found: /dev/x");
    assert_eq!(FailReason::Unwritable.message("/dev/x"), "cannot open for writing: /dev/x");
}

#[test]
fn clock_reading_to_seconds() {
    assert_eq!(seconds_or_zero(Some(1_700_000_123)), 1_700_000_123);
    assert_eq!(seconds_or_zero(None), 0);
}

#[test]
fn ata_erase_needs_every_step() {
    let report = "ATA device\nSecurity:\n\tsupported\n";
    assert!(ata_erase_succeeded(true, report, true, true));
    assert!(!ata_erase_succeeded(false, report, true, true));
    assert!(!ata_erase_succeeded(true, "ATA device\n", true, true));
    assert!(!ata_erase_succeeded(true, report, false, true));
    assert!(!ata_erase_succeeded(true, report, true, false));
}

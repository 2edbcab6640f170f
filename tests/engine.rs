use securewipe::{
    ata_security_supported, chunk_bytes, contains_bytes, pass_progress, passes, plan_hardware,
    progress_message, select_method, str_equals, Chunk, Event, FailReason, HardwarePlan, Method, Overwrite,
    Pattern, Phase,
    Profile, CHUNK_SIZE, FULL_PROGRESS,
};

fn run(profile: Profile, size: u64) -> Vec<Chunk> {
    let mut ow = Overwrite::new(profile, size);
    let mut out = Vec::new();
    while let Some(c) = ow.next_chunk() {
        out.push(c);
    }
    assert!(ow.done());
    out
}

#[test]
fn profile_names_parse() {
    assert_eq!(Profile::parse("quick"), Some(Profile::Quick));
    assert_eq!(Profile::parse("secure"), Some(Profile::Secure));
    assert_eq!(Profile::parse("Quick"), None);
    assert_eq!(Profile::parse(""), None);
    assert_eq!(Profile::Secure.name(), "secure");
}

#[test]
fn method_names() {
    assert_eq!(Method::NvmeFormatCrypto.name(), "nvme_format_crypto");
    assert_eq!(Method::HdparmSecurityErase.name(), "hdparm_security_erase");
    assert_eq!(Method::Overwrite(Profile::Quick).name(), "overwrite_quick");
    assert_eq!(Method::Overwrite(Profile::Secure).name(), "overwrite_secure");
}

#[test]
fn unauthorized_never_plans_hardware() {
    for path in ["/dev/nvme0n1", "/dev/sda", "/dev/loop0", "nvme"] {
        let plan = plan_hardware(path, false);
        assert_eq!(plan, HardwarePlan::Skip);
        for ok in [true, false] {
            let m = select_method(plan, ok, Profile::Secure);
            assert_eq!(m, Method::Overwrite(Profile::Secure));
            assert_ne!(m.name(), "nvme_format_crypto");
            assert_ne!(m.name(), "hdparm_security_erase");
        }
    }
}

#[test]
fn authorized_plans_by_device_class() {
    assert_eq!(plan_hardware("/dev/nvme0n1", true), HardwarePlan::NvmeFormat);
    assert_eq!(plan_hardware("/dev/sda", true), HardwarePlan::AtaProbe);
    assert_eq!(select_method(HardwarePlan::NvmeFormat, true, Profile::Quick), Method::NvmeFormatCrypto);
    assert_eq!(select_method(HardwarePlan::NvmeFormat, false, Profile::Quick), Method::Overwrite(Profile::Quick));
    assert_eq!(select_method(HardwarePlan::AtaProbe, true, Profile::Quick), Method::HdparmSecurityErase);
    assert_eq!(select_method(HardwarePlan::AtaProbe, false, Profile::Secure), Method::Overwrite(Profile::Secure));
}

#[test]
fn ata_security_report() {
    assert!(ata_security_supported("Model\nSecurity:\n\tMaster password\n"));
    assert!(!ata_security_supported("Model\nsecurity\n"));
    assert!(!ata_security_supported(""));
}

#[test]
fn byte_and_text_helpers() {
    assert!(contains_bytes(b"abcdef", b"cde"));
    assert!(contains_bytes(b"abc", b""));
    assert!(!contains_bytes(b"ab", b"abc"));
    assert!(str_equals("héllo", "héllo"));
    assert!(!str_equals("abc", "abd"));
}

#[test]
fn progress_formula_values() {
    let q = passes(Profile::Quick)[0];
    assert_eq!(pass_progress(q, 0, 4), 100_000);
    assert_eq!(pass_progress(q, 2, 4), 400_000);
    assert_eq!(pass_progress(q, 4, 4), 700_000);
    assert_eq!(pass_progress(q, 1, 3), 300_000);
    assert_eq!(pass_progress(q, 0, 0), 700_000);
    let s = passes(Profile::Secure);
    assert_eq!(pass_progress(s[0], 1, 2), 200_000);
    assert_eq!(pass_progress(s[1], 1, 2), 550_000);
    assert_eq!(pass_progress(s[2], 1, 2), 825_000);
    assert_eq!(pass_progress(s[2], u64::MAX, u64::MAX), 950_000);
}

#[test]
fn quick_writes_size_zero_bytes_once() {
    let size = 2 * CHUNK_SIZE + 12345;
    let chunks = run(Profile::Quick, size);
    assert_eq!(chunks.len(), 3);
    let mut at = 0u64;
    for c in &chunks {
        assert_eq!(c.pass, 0);
        assert_eq!(c.pattern, Pattern::Zero);
        assert_eq!(c.offset, at);
        at += c.len;
        assert_eq!(c.written, at);
        let expected = 100_000 + (600_000u128 * at as u128 / size as u128) as u64;
        assert_eq!(c.progress, expected);
    }
    assert_eq!(at, size);
    assert_eq!(chunks[2].progress, 700_000);
}

#[test]
fn secure_three_passes_reset_to_start() {
    let size = CHUNK_SIZE + 1;
    let chunks = run(Profile::Secure, size);
    assert_eq!(chunks.len(), 6);
    let patterns = [Pattern::Random, Pattern::Zero, Pattern::Random];
    let ends = [300_000u64, 700_000, 950_000];
    let mut last = 0u64;
    for pass in 0..3usize {
        let ours: Vec<&Chunk> = chunks.iter().filter(|c| c.pass == pass).collect();
        assert_eq!(ours.len(), 2);
        assert_eq!(ours[0].offset, 0);
        assert_eq!(ours[0].len + ours[1].len, size);
        assert!(ours.iter().all(|c| c.pattern == patterns[pass]));
        assert_eq!(ours[1].progress, ends[pass]);
    }
    for c in &chunks {
        assert!(c.progress >= last);
        assert!(c.progress < FULL_PROGRESS);
        last = c.progress;
    }
}

#[test]
fn empty_target_completes_each_pass() {
    let chunks = run(Profile::Secure, 0);
    assert_eq!(chunks.len(), 3);
    assert!(chunks.iter().all(|c| c.len == 0 && c.offset == 0));
    assert_eq!(chunks.iter().map(|c| c.progress).collect::<Vec<_>>(), vec![300_000, 700_000, 950_000]);
    let quick = run(Profile::Quick, 0);
    assert_eq!(quick.len(), 1);
    assert_eq!(quick[0].progress, 700_000);
}

#[test]
fn chunk_patterns() {
    let z = chunk_bytes(Pattern::Zero, 4096).unwrap();
    assert_eq!(z.len(), 4096);
    assert!(z.iter().all(|b| *b == 0));
    if let Some(r) = chunk_bytes(Pattern::Random, 4096) {
        assert_eq!(r.len(), 4096);
        assert!(r.iter().any(|b| *b != 0));
    }
}

#[test]
fn progress_messages() {
    assert_eq!(progress_message(Profile::Quick, 0, 1048576), "wiping: 1048576 bytes");
    assert_eq!(progress_message(Profile::Secure, 1, 5), "secure pass 2: 5 bytes");
    assert_eq!(progress_message(Profile::Secure, 2, 0), "secure pass 3: 0 bytes");
}

#[test]
fn execution_phases_quick_unauthorized() {
    let p = Profile::Quick;
    let t = "/dev/loop0";
    let mut phase = Phase::Starting;
    phase = phase.next(Event::TargetChecked(true), p, t, false);
    assert_eq!(phase, Phase::Hardware(HardwarePlan::Skip));
    phase = phase.next(Event::HardwareDone(false), p, t, false);
    assert_eq!(phase, Phase::Overwriting(Method::Overwrite(Profile::Quick)));
    phase = phase.next(Event::OverwriteDone, p, t, false);
    assert_eq!(phase, Phase::Certifying(Method::Overwrite(Profile::Quick)));
    assert!(!phase.terminal());
    phase = phase.next(Event::Certified, p, t, false);
    assert_eq!(phase, Phase::Finished);
    assert!(phase.terminal());
    assert_eq!(phase.next(Event::TargetChecked(false), p, t, false), Phase::Finished);
}

#[test]
fn execution_phases_missing_and_hardware() {
    let missing = Phase::Starting.next(Event::TargetChecked(false), Profile::Secure, "/nope", true);
    assert_eq!(missing, Phase::Failed(FailReason::Missing));
    assert!(missing.terminal());
    let hw = Phase::Starting.next(Event::TargetChecked(true), Profile::Secure, "/dev/nvme1n1", true);
    assert_eq!(hw, Phase::Hardware(HardwarePlan::NvmeFormat));
    assert_eq!(hw.next(Event::HardwareDone(true), Profile::Secure, "/dev/nvme1n1", true), Phase::Certifying(Method::NvmeFormatCrypto));
    assert_eq!(hw.next(Event::HardwareDone(false), Profile::Secure, "/dev/nvme1n1", true), Phase::Overwriting(Method::Overwrite(Profile::Secure)));
    assert_eq!(hw.next(Event::OverwriteDone, Profile::Secure, "/dev/nvme1n1", true), hw);
    let ow = Phase::Overwriting(Method::Overwrite(Profile::Secure));
    let failed = ow.next(Event::TargetUnwritable, Profile::Secure, "/dev/sdb", false);
    assert_eq!(failed, Phase::Failed(FailReason::Unwritable));
    assert!(failed.terminal());
    assert_eq!(hw.next(Event::TargetUnwritable, Profile::Secure, "/dev/nvme1n1", true), hw);
}

#[test]
fn overwrite_progress_never_decreases() {
    for profile in [Profile::Quick, Profile::Secure] {
        for size in [0u64, 1, CHUNK_SIZE - 1, CHUNK_SIZE, 3 * CHUNK_SIZE + 7] {
            let chunks = run(profile, size);
            let mut last = 0u64;
            for c in &chunks {
                assert!(c.progress >= last);
                last = c.progress;
            }
            assert_eq!(last, if profile == Profile::Quick { 700_000 } else { 950_000 });
        }
    }
}

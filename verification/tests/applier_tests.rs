use devcgroup::applier::{Action, Applier, ApplyError, CgroupFile, Devices};
use devcgroup::rule::{DeviceRule, DeviceType};

fn rule(
    allow: bool,
    device_type: DeviceType,
    major: Option<u64>,
    minor: Option<u64>,
    access: &str,
) -> DeviceRule {
    DeviceRule { allow, device_type, major, minor, access: access.to_string() }
}

fn sample_platform() -> Vec<DeviceRule> {
    vec![
        rule(true, DeviceType::Character, Some(1), Some(3), "rwm"),
        rule(true, DeviceType::Character, Some(1), Some(5), "rwm"),
    ]
}

/// Drives the applier to completion, recording each action as
/// (file name or "<dir>", content), with every step succeeding.
fn run_all(applier: &mut Applier) -> Vec<(String, String)> {
    let mut trace: Vec<(String, String)> = Vec::new();
    while let Some(action) = applier.next_action() {
        match action {
            Action::CreateDir => trace.push(("<dir>".to_string(), String::new())),
            Action::Write(file, content) => {
                trace.push((file.file_name().to_string(), content));
            }
        }
        applier.report(true);
    }
    trace
}

#[test]
fn test_file_names() {
    assert_eq!(CgroupFile::Allow.file_name(), "devices.allow");
    assert_eq!(CgroupFile::Deny.file_name(), "devices.deny");
    assert_eq!(CgroupFile::Procs.file_name(), "cgroup.procs");
}

#[test]
fn test_plan_write_ordering() {
    let explicit = vec![
        rule(false, DeviceType::All, None, None, "rwm"),
        rule(true, DeviceType::Character, Some(10), Some(229), "rw"),
    ];
    let plan = Devices::plan(&explicit, sample_platform(), 1234);
    assert_eq!(plan.len(), 2 + 2 + 6 + 1);
    // Explicit rules first, in specification order, to the file their
    // polarity picks.
    assert_eq!(plan[0].file, CgroupFile::Deny);
    assert_eq!(plan[0].content, "a *:* rwm");
    assert_eq!(plan[1].file, CgroupFile::Allow);
    assert_eq!(plan[1].content, "c 10:229 rw");
    // Platform defaults next, in their order.
    assert_eq!(plan[2].file, CgroupFile::Allow);
    assert_eq!(plan[2].content, "c 1:3 rwm");
    assert_eq!(plan[3].file, CgroupFile::Allow);
    assert_eq!(plan[3].content, "c 1:5 rwm");
    // The six supplemental rules, in fixed order, all to the allow file.
    let supplemental =
        ["c *:* m", "b *:* m", "c 5:1 rwm", "c 136:* rwm", "c 5:2 rwm", "c 10:200 rwm"];
    for (i, line) in supplemental.iter().enumerate() {
        assert_eq!(plan[4 + i].file, CgroupFile::Allow);
        assert_eq!(plan[4 + i].content, *line);
    }
    // The attachment write comes last.
    assert_eq!(plan[10].file, CgroupFile::Procs);
    assert_eq!(plan[10].content, "1234");
}

#[test]
fn test_empty_specification_plan() {
    let plan = Devices::plan(&Vec::new(), sample_platform(), 77);
    // Platform writes, exactly six supplemental writes, one attachment.
    assert_eq!(plan.len(), 2 + 6 + 1);
    assert_eq!(plan[8].file, CgroupFile::Procs);
    assert_eq!(plan[8].content, "77");
    for w in &plan[..8] {
        assert_eq!(w.file, CgroupFile::Allow);
    }
}

#[test]
fn test_run_success() {
    let explicit = vec![rule(false, DeviceType::Block, Some(8), Some(0), "w")];
    let mut applier = Applier::new(&explicit, sample_platform(), 42);
    assert!(applier.outcome().is_none());
    let trace = run_all(&mut applier);
    assert_eq!(applier.outcome(), Some(Ok(())));
    assert_eq!(trace.len(), 1 + 1 + 2 + 6 + 1);
    assert_eq!(trace[0].0, "<dir>");
    assert_eq!(trace[1], ("devices.deny".to_string(), "b 8:0 w".to_string()));
    assert_eq!(trace[9], ("devices.allow".to_string(), "c 10:200 rwm".to_string()));
    assert_eq!(trace[10], ("cgroup.procs".to_string(), "42".to_string()));
}

#[test]
fn test_reapply_same_inputs() {
    // Applying twice against the same already-existing directory succeeds
    // both times: the directory step treats already-exists as success, so
    // the second run reports it successful just like the first.
    let explicit = vec![rule(true, DeviceType::Character, Some(5), Some(0), "rwm")];
    let mut first = Applier::new(&explicit, sample_platform(), 9);
    let mut second = Applier::new(&explicit, sample_platform(), 9);
    let trace_first = run_all(&mut first);
    let trace_second = run_all(&mut second);
    assert_eq!(first.outcome(), Some(Ok(())));
    assert_eq!(second.outcome(), Some(Ok(())));
    assert_eq!(trace_first, trace_second);
}

#[test]
fn test_explicit_failure_aborts_before_defaults() {
    let explicit = vec![
        rule(true, DeviceType::Character, Some(1), Some(7), "rwm"),
        rule(false, DeviceType::All, None, None, "m"),
    ];
    let mut applier = Applier::new(&explicit, sample_platform(), 5);
    // Directory step succeeds.
    assert!(matches!(applier.next_action(), Some(Action::CreateDir)));
    applier.report(true);
    // First explicit write is offered, and fails.
    match applier.next_action() {
        Some(Action::Write(file, content)) => {
            assert_eq!(file, CgroupFile::Allow);
            assert_eq!(content, "c 1:7 rwm");
        }
        other => panic!("expected a write action, got {:?}", other),
    }
    applier.report(false);
    // The machine is frozen: no further step runs, so no default-policy
    // write and no attachment write ever happens.
    assert!(applier.next_action().is_none());
    assert_eq!(applier.outcome(), Some(Err(ApplyError::RuleWriteFailure)));
}

#[test]
fn test_directory_failure() {
    let mut applier = Applier::new(&Vec::new(), sample_platform(), 5);
    assert!(matches!(applier.next_action(), Some(Action::CreateDir)));
    applier.report(false);
    assert!(applier.next_action().is_none());
    assert_eq!(applier.outcome(), Some(Err(ApplyError::DirectoryCreationFailure)));
}

#[test]
fn test_attachment_failure() {
    let mut applier = Applier::new(&Vec::new(), Vec::new(), 5);
    // Succeed at everything up to the final attachment write, then fail it.
    loop {
        match applier.next_action() {
            Some(Action::Write(CgroupFile::Procs, content)) => {
                assert_eq!(content, "5");
                applier.report(false);
                break;
            }
            Some(_) => applier.report(true),
            None => panic!("run ended before the attachment write"),
        }
    }
    assert!(applier.next_action().is_none());
    assert_eq!(applier.outcome(), Some(Err(ApplyError::AttachmentFailure)));
}

#[test]
fn test_error_descriptions() {
    assert_eq!(
        ApplyError::DirectoryCreationFailure.describe(),
        "cannot create the cgroup directory"
    );
    assert_eq!(ApplyError::RuleWriteFailure.describe(), "a device rule write was rejected");
    assert_eq!(
        ApplyError::AttachmentFailure.describe(),
        "cannot attach the process to the cgroup"
    );
}

#[test]
fn test_negative_pid_rendering() {
    let plan = Devices::plan(&Vec::new(), Vec::new(), -1);
    assert_eq!(plan.last().unwrap().content, "-1");
}

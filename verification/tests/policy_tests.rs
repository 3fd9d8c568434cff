use devcgroup::policy::{default_rules, default_supplemental_rules};
use devcgroup::rule::{DeviceRule, DeviceType};
use devcgroup::serializer::serialize;

#[test]
fn test_supplemental_rules_fields() {
    let rules = default_supplemental_rules();
    assert_eq!(rules.len(), 6);
    for r in &rules {
        assert!(r.allow);
    }
    assert_eq!(rules[0].device_type, DeviceType::Character);
    assert_eq!(rules[0].major, None);
    assert_eq!(rules[0].minor, None);
    assert_eq!(rules[0].access, "m");
    assert_eq!(rules[1].device_type, DeviceType::Block);
    assert_eq!(rules[1].access, "m");
    assert_eq!(rules[2].major, Some(5));
    assert_eq!(rules[2].minor, Some(1));
    assert_eq!(rules[3].major, Some(136));
    assert_eq!(rules[3].minor, None);
    assert_eq!(rules[4].major, Some(5));
    assert_eq!(rules[4].minor, Some(2));
    assert_eq!(rules[5].major, Some(10));
    assert_eq!(rules[5].minor, Some(200));
}

#[test]
fn test_supplemental_rules_serialized_lines() {
    let rules = default_supplemental_rules();
    let lines: Vec<String> = rules.iter().map(serialize).collect();
    assert_eq!(
        lines,
        vec!["c *:* m", "b *:* m", "c 5:1 rwm", "c 136:* rwm", "c 5:2 rwm", "c 10:200 rwm"]
    );
}

#[test]
fn test_default_rules_keeps_platform_order() {
    let platform = vec![
        DeviceRule {
            allow: true,
            device_type: DeviceType::Character,
            major: Some(1),
            minor: Some(3),
            access: "rwm".to_string(),
        },
        DeviceRule {
            allow: true,
            device_type: DeviceType::Character,
            major: Some(1),
            minor: Some(5),
            access: "rwm".to_string(),
        },
    ];
    let all = default_rules(platform);
    assert_eq!(all.len(), 8);
    assert_eq!(all[0].major, Some(1));
    assert_eq!(all[0].minor, Some(3));
    assert_eq!(all[1].major, Some(1));
    assert_eq!(all[1].minor, Some(5));
    assert_eq!(serialize(&all[2]), "c *:* m");
    assert_eq!(serialize(&all[7]), "c 10:200 rwm");
}

#[test]
fn test_default_rules_without_platform() {
    let all = default_rules(Vec::new());
    assert_eq!(all.len(), 6);
    assert_eq!(serialize(&all[0]), "c *:* m");
}

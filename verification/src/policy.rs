//! The default device policy: the ordered list of allow-rules that every
//! container gets regardless of its declared policy — the platform's default
//! device nodes followed by six fixed supplemental rules (wildcard mknod for
//! character and block devices, console, pts multiplexer, ptmx, tun/tap).

use crate::rule::{DeviceRule, DeviceType};
use crate::serializer::{dec_digits, spec_serialize};
use vstd::prelude::*;

verus! {

/// How many supplemental rules the policy appends after the platform's
/// default device nodes.
pub const SUPPLEMENTAL_RULE_COUNT: usize = 6;

/// What the `j`-th supplemental rule says, field by field: all six are
/// allow-rules, in this fixed order — allow-all-character-mknod,
/// allow-all-block-mknod, console (c 5:1), pts multiplexer (c 136:*),
/// ptmx (c 5:2), tun/tap (c 10:200).
pub open spec fn supplemental_rule_ok(j: int, r: DeviceRule) -> bool {
    &&& r.allow == true
    &&& if j == 0 {
        &&& r.device_type == DeviceType::Character
        &&& r.major == Option::<u64>::None
        &&& r.minor == Option::<u64>::None
        &&& r.access@ == "m"@
    } else if j == 1 {
        &&& r.device_type == DeviceType::Block
        &&& r.major == Option::<u64>::None
        &&& r.minor == Option::<u64>::None
        &&& r.access@ == "m"@
    } else if j == 2 {
        &&& r.device_type == DeviceType::Character
        &&& r.major == Option::Some(5u64)
        &&& r.minor == Option::Some(1u64)
        &&& r.access@ == "rwm"@
    } else if j == 3 {
        &&& r.device_type == DeviceType::Character
        &&& r.major == Option::Some(136u64)
        &&& r.minor == Option::<u64>::None
        &&& r.access@ == "rwm"@
    } else if j == 4 {
        &&& r.device_type == DeviceType::Character
        &&& r.major == Option::Some(5u64)
        &&& r.minor == Option::Some(2u64)
        &&& r.access@ == "rwm"@
    } else if j == 5 {
        &&& r.device_type == DeviceType::Character
        &&& r.major == Option::Some(10u64)
        &&& r.minor == Option::Some(200u64)
        &&& r.access@ == "rwm"@
    } else {
        false
    }
}

/// `s` is exactly the six supplemental rules, in their fixed order.
pub open spec fn supplemental_ok(s: Seq<DeviceRule>) -> bool {
    &&& s.len() == SUPPLEMENTAL_RULE_COUNT
    &&& forall|j: int| 0 <= j < s.len() ==> supplemental_rule_ok(j, #[trigger] s[j])
}

/// The exact line the `j`-th supplemental rule serializes to.
pub open spec fn supplemental_line(j: int) -> Seq<char> {
    if j == 0 {
        "c *:* m"@
    } else if j == 1 {
        "b *:* m"@
    } else if j == 2 {
        "c 5:1 rwm"@
    } else if j == 3 {
        "c 136:* rwm"@
    } else if j == 4 {
        "c 5:2 rwm"@
    } else if j == 5 {
        "c 10:200 rwm"@
    } else {
        Seq::<char>::empty()
    }
}

/// A rule with the `j`-th supplemental rule's fields serializes to the
/// `j`-th supplemental line.
pub proof fn lemma_supplemental_serialized(j: int, r: DeviceRule)
    requires
        0 <= j < 6,
        supplemental_rule_ok(j, r),
    ensures
        spec_serialize(r) == supplemental_line(j),
{
    reveal_strlit("m");
    reveal_strlit("rwm");
    reveal_strlit("c *:* m");
    reveal_strlit("b *:* m");
    reveal_strlit("c 5:1 rwm");
    reveal_strlit("c 136:* rwm");
    reveal_strlit("c 5:2 rwm");
    reveal_strlit("c 10:200 rwm");
    reveal_with_fuel(dec_digits, 4);
    if j == 0 {
        assert(spec_serialize(r) =~= "c *:* m"@);
    } else if j == 1 {
        assert(spec_serialize(r) =~= "b *:* m"@);
    } else if j == 2 {
        assert(spec_serialize(r) =~= "c 5:1 rwm"@);
    } else if j == 3 {
        assert(dec_digits(136nat) =~= seq!['1', '3', '6']);
        assert(spec_serialize(r) =~= "c 136:* rwm"@);
    } else if j == 4 {
        assert(spec_serialize(r) =~= "c 5:2 rwm"@);
    } else {
        assert(dec_digits(10nat) =~= seq!['1', '0']);
        assert(dec_digits(200nat) =~= seq!['2', '0', '0']);
        assert(spec_serialize(r) =~= "c 10:200 rwm"@);
    }
}

/// The six supplemental rules of the default device policy, in their fixed
/// order.
pub fn default_supplemental_rules() -> (r: Vec<DeviceRule>)
    ensures
        supplemental_ok(r@),
{
    let mut v: Vec<DeviceRule> = Vec::new();
    v.push(
        DeviceRule {
            allow: true,
            device_type: DeviceType::Character,
            major: None,
            minor: None,
            access: "m".to_owned(),
        },
    );
    v.push(
        DeviceRule {
            allow: true,
            device_type: DeviceType::Block,
            major: None,
            minor: None,
            access: "m".to_owned(),
        },
    );
    v.push(
        DeviceRule {
            allow: true,
            device_type: DeviceType::Character,
            major: Some(5),
            minor: Some(1),
            access: "rwm".to_owned(),
        },
    );
    v.push(
        DeviceRule {
            allow: true,
            device_type: DeviceType::Character,
            major: Some(136),
            minor: None,
            access: "rwm".to_owned(),
        },
    );
    v.push(
        DeviceRule {
            allow: true,
            device_type: DeviceType::Character,
            major: Some(5),
            minor: Some(2),
            access: "rwm".to_owned(),
        },
    );
    v.push(
        DeviceRule {
            allow: true,
            device_type: DeviceType::Character,
            major: Some(10),
            minor: Some(200),
            access: "rwm".to_owned(),
        },
    );
    v
}

/// The full default device policy: the platform's default device nodes, in
/// their given order, followed by the six supplemental rules.
pub fn default_rules(platform: Vec<DeviceRule>) -> (r: Vec<DeviceRule>)
    ensures
        r@.len() == platform@.len() + SUPPLEMENTAL_RULE_COUNT,
        forall|i: int| 0 <= i < platform@.len() ==> r@[i] == platform@[i],
        supplemental_ok(r@.subrange(platform@.len() as int, r@.len() as int)),
{
    let mut r = platform;
    let mut extra = default_supplemental_rules();
    r.append(&mut extra);
    proof {
        assert(supplemental_ok(r@.subrange(r@.len() - 6, r@.len() as int)));
    }
    r
}

} // verus!

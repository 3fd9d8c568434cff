//! The device rule data model: what a single device-access rule says.

use vstd::prelude::*;

verus! {

/// The kind of device node a rule applies to: every device, character
/// devices, or block devices.
#[derive(Clone, Copy, PartialEq, Eq, Structural, Debug)]
pub enum DeviceType {
    All,
    Character,
    Block,
}

/// A single device-access rule.
///
/// `allow` selects the kernel's allow list or deny list. `major` and `minor`
/// identify the device; an absent bound means "any". `access` is a string
/// over the alphabet `{r, w, m}` (read, write, mknod), passed through to the
/// kernel verbatim: its order and duplication are not validated here, the
/// kernel is the authority on acceptance.
pub struct DeviceRule {
    pub allow: bool,
    pub device_type: DeviceType,
    pub major: Option<u64>,
    pub minor: Option<u64>,
    pub access: String,
}

/// A character of the access alphabet: read, write, or mknod.
pub open spec fn is_access_char(c: char) -> bool {
    c == 'r' || c == 'w' || c == 'm'
}

impl DeviceRule {
    /// The access string stays within the `{r, w, m}` alphabet.
    pub open spec fn access_wf(self) -> bool {
        forall|i: int| 0 <= i < self.access@.len() ==> is_access_char(#[trigger] self.access@[i])
    }
}

} // verus!

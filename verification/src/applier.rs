//! The device cgroup applier: the ordered write plan for a resource
//! specification, and the step machine an unverified I/O shell drives to
//! perform it.
//!
//! The applier's steps, strictly in order: ensure the cgroup leaf directory
//! exists; write every explicit rule of the specification, in the
//! specification's order, to the allow or deny file per its polarity; write
//! the default device policy (platform defaults, then the six supplemental
//! rules), all to the allow file for allow-rules; write the process id to the
//! attachment file. A failure at any step aborts immediately: the machine
//! records the step's error and offers no further action, and nothing already
//! written is rolled back.

use crate::policy::{
    default_rules, lemma_supplemental_serialized, supplemental_line, supplemental_rule_ok,
    SUPPLEMENTAL_RULE_COUNT,
};
use crate::rule::DeviceRule;
use crate::serializer::{dec_signed, serialize, signed_decimal, spec_serialize};
use vstd::prelude::*;

verus! {

/// A kernel control file under the cgroup leaf directory.
#[derive(Clone, Copy, PartialEq, Eq, Structural, Debug)]
pub enum CgroupFile {
    Allow,
    Deny,
    Procs,
}

impl CgroupFile {
    /// The file's name under the cgroup leaf directory.
    pub fn file_name(&self) -> (r: &'static str)
        ensures
            *self == CgroupFile::Allow ==> r@ == "devices.allow"@,
            *self == CgroupFile::Deny ==> r@ == "devices.deny"@,
            *self == CgroupFile::Procs ==> r@ == "cgroup.procs"@,
    {
        match *self {
            CgroupFile::Allow => "devices.allow",
            CgroupFile::Deny => "devices.deny",
            CgroupFile::Procs => "cgroup.procs",
        }
    }
}

/// One pending control-file write: `content` becomes the entire content of
/// `file`.
#[derive(Debug)]
pub struct CgroupWrite {
    pub file: CgroupFile,
    pub content: String,
}

/// Why an application run failed: the leaf directory could not be created, a
/// rule write was rejected, or the process could not be attached.
#[derive(Clone, Copy, PartialEq, Eq, Structural, Debug)]
pub enum ApplyError {
    DirectoryCreationFailure,
    RuleWriteFailure,
    AttachmentFailure,
}

impl ApplyError {
    /// A short description of the failure.
    pub fn describe(&self) -> (r: &'static str)
        ensures
            *self == ApplyError::DirectoryCreationFailure ==> r@
                == "cannot create the cgroup directory"@,
            *self == ApplyError::RuleWriteFailure ==> r@ == "a device rule write was rejected"@,
            *self == ApplyError::AttachmentFailure ==> r@
                == "cannot attach the process to the cgroup"@,
    {
        match *self {
            ApplyError::DirectoryCreationFailure => "cannot create the cgroup directory",
            ApplyError::RuleWriteFailure => "a device rule write was rejected",
            ApplyError::AttachmentFailure => "cannot attach the process to the cgroup",
        }
    }
}

/// One step the I/O shell must perform next.
#[derive(Debug)]
pub enum Action {
    /// Ensure the cgroup leaf directory exists: create it if missing, and
    /// treat an already-existing directory as success.
    CreateDir,
    /// Write the carried string as the entire content of the named control
    /// file under the cgroup leaf directory.
    Write(CgroupFile, String),
}

/// `w` is the control-file write for rule `r`: the serialized rule, aimed at
/// the allow or deny file per the rule's polarity.
pub open spec fn rule_write_ok(w: CgroupWrite, r: DeviceRule) -> bool {
    &&& w.file == (if r.allow {
        CgroupFile::Allow
    } else {
        CgroupFile::Deny
    })
    &&& w.content@ == spec_serialize(r)
}

/// `w` is the write for the `j`-th supplemental default rule: its fixed line,
/// aimed at the allow file.
pub open spec fn supplemental_write_ok(j: int, w: CgroupWrite) -> bool {
    &&& w.file == CgroupFile::Allow
    &&& w.content@ == supplemental_line(j)
}

/// `w` is the attachment write: the decimal process id, aimed at the
/// attachment file.
pub open spec fn attach_write_ok(w: CgroupWrite, pid: i32) -> bool {
    &&& w.file == CgroupFile::Procs
    &&& w.content@ == dec_signed(pid as int)
}

/// The full, ordered write plan for a resource specification: first every
/// explicit rule, in the specification's order; then every platform default
/// rule, in the platform's order; then the six supplemental default rules, in
/// their fixed order; and last the single attachment write.
pub open spec fn plan_ok(
    w: Seq<CgroupWrite>,
    explicit: Seq<DeviceRule>,
    platform: Seq<DeviceRule>,
    pid: i32,
) -> bool {
    &&& w.len() == explicit.len() + platform.len() + SUPPLEMENTAL_RULE_COUNT + 1
    &&& forall|i: int| 0 <= i < explicit.len() ==> rule_write_ok(#[trigger] w[i], explicit[i])
    &&& forall|i: int|
        explicit.len() <= i < explicit.len() + platform.len() ==> rule_write_ok(
            #[trigger] w[i],
            platform[i - explicit.len()],
        )
    &&& forall|i: int|
        explicit.len() + platform.len() <= i < w.len() - 1 ==> supplemental_write_ok(
            i - explicit.len() - platform.len(),
            #[trigger] w[i],
        )
    &&& attach_write_ok(w[w.len() - 1], pid)
}

/// The devices-cgroup controller.
pub struct Devices {}

impl Devices {
    /// Computes the complete, ordered write plan for one application run:
    /// explicit rules strictly before the default policy, the default policy
    /// strictly before the attachment write.
    pub fn plan(explicit: &Vec<DeviceRule>, platform: Vec<DeviceRule>, pid: i32) -> (w: Vec<
        CgroupWrite,
    >)
        ensures
            plan_ok(w@, explicit@, platform@, pid),
    {
        let ghost plat = platform@;
        let mut w: Vec<CgroupWrite> = Vec::new();
        let mut i: usize = 0;
        while i < explicit.len()
            invariant
                i <= explicit@.len(),
                w@.len() == i,
                forall|k: int| 0 <= k < i ==> rule_write_ok(#[trigger] w@[k], explicit@[k]),
            decreases explicit@.len() - i,
        {
            let rule = &explicit[i];
            let content = serialize(rule);
            let file = if rule.allow {
                CgroupFile::Allow
            } else {
                CgroupFile::Deny
            };
            w.push(CgroupWrite { file, content });
            i = i + 1;
        }
        let defaults = default_rules(platform);
        proof {
            let sub = defaults@.subrange(plat.len() as int, defaults@.len() as int);
            assert forall|k: int|
                plat.len() <= k < defaults@.len() implies supplemental_rule_ok(
                k - plat.len(),
                #[trigger] defaults@[k],
            ) by {
                assert(sub[k - plat.len()] == defaults@[k]);
                assert(supplemental_rule_ok(k - plat.len(), sub[k - plat.len()]));
            }
        }
        let mut j: usize = 0;
        while j < defaults.len()
            invariant
                j <= defaults@.len(),
                defaults@.len() == plat.len() + SUPPLEMENTAL_RULE_COUNT,
                forall|k: int| 0 <= k < plat.len() ==> defaults@[k] == plat[k],
                forall|k: int|
                    plat.len() <= k < defaults@.len() ==> supplemental_rule_ok(
                        k - plat.len(),
                        #[trigger] defaults@[k],
                    ),
                w@.len() == explicit@.len() + j,
                forall|k: int| 0 <= k < explicit@.len() ==> rule_write_ok(#[trigger] w@[k], explicit@[k]),
                forall|k: int|
                    explicit@.len() <= k < explicit@.len() + j && k - explicit@.len() < plat.len()
                        ==> rule_write_ok(#[trigger] w@[k], plat[k - explicit@.len()]),
                forall|k: int|
                    explicit@.len() + plat.len() <= k < explicit@.len() + j
                        ==> supplemental_write_ok(
                        k - explicit@.len() - plat.len(),
                        #[trigger] w@[k],
                    ),
            decreases defaults@.len() - j,
        {
            let rule = &defaults[j];
            let content = serialize(rule);
            let file = if rule.allow {
                CgroupFile::Allow
            } else {
                CgroupFile::Deny
            };
            proof {
                if j >= plat.len() {
                    lemma_supplemental_serialized(j - plat.len(), defaults@[j as int]);
                }
            }
            w.push(CgroupWrite { file, content });
            j = j + 1;
        }
        let content = signed_decimal(pid);
        w.push(CgroupWrite { file: CgroupFile::Procs, content });
        w
    }
}

/// The step machine for one application run.
///
/// Step `0` ensures the cgroup leaf directory exists; step `1 + i` performs
/// `writes[i]`; the run is complete when `current_step()` has passed every
/// step. The I/O shell asks for the next action with
/// [`Applier::next_action`], performs it, and hands the outcome back with
/// [`Applier::report`]; the steps the shell has performed are therefore
/// exactly those before `current_step()`. A reported
/// failure records the failed step's error and freezes the machine: no
/// further action is offered, so nothing runs after the first error.
pub struct Applier {
    pub writes: Vec<CgroupWrite>,
    pub n_explicit: usize,
    pub dir_done: bool,
    pub done_writes: usize,
    pub failure: Option<ApplyError>,
}

impl Applier {
    /// How many steps a run has: the directory step plus one per write.
    pub open spec fn step_count(self) -> int {
        1 + self.writes@.len() as int
    }

    /// The step the machine stands at: `0` is the directory step, `1 + i`
    /// the write `writes[i]`, and `step_count()` means every step succeeded.
    pub open spec fn current_step(self) -> int {
        if !self.dir_done {
            0
        } else {
            1 + self.done_writes as int
        }
    }

    /// The machine's invariant: the plan always ends with the six
    /// supplemental writes and the attachment write, no write runs before the
    /// directory step, the step index never passes the last step, and a
    /// recorded failure points at a step that was offered and carries that
    /// step's error.
    pub open spec fn wf(self) -> bool {
        &&& self.n_explicit + SUPPLEMENTAL_RULE_COUNT + 1 <= self.writes@.len()
        &&& (!self.dir_done ==> self.done_writes == 0)
        &&& self.done_writes <= self.writes@.len()
        &&& (self.failure is Some ==> self.current_step() < self.step_count())
        &&& (self.failure matches Some(e) ==> e == self.step_error(self.current_step()))
    }

    /// The error surfaced when step `s` fails: the directory step yields
    /// `DirectoryCreationFailure`, the final attachment step
    /// `AttachmentFailure`, and every rule write in between
    /// `RuleWriteFailure`.
    pub open spec fn step_error(self, s: int) -> ApplyError {
        if s == 0 {
            ApplyError::DirectoryCreationFailure
        } else if s == self.step_count() - 1 {
            ApplyError::AttachmentFailure
        } else {
            ApplyError::RuleWriteFailure
        }
    }

    /// Step `s` has already been performed and acknowledged as successful.
    pub open spec fn completed(self, s: int) -> bool {
        0 <= s < self.current_step()
    }

    /// Starts a run: plans the writes for the explicit rules, the platform
    /// defaults, and the process id, with no step performed yet.
    pub fn new(explicit: &Vec<DeviceRule>, platform: Vec<DeviceRule>, pid: i32) -> (a: Applier)
        ensures
            a.wf(),
            a.current_step() == 0,
            a.failure is None,
            a.n_explicit == explicit@.len(),
            plan_ok(a.writes@, explicit@, platform@, pid),
    {
        let n_explicit = explicit.len();
        let writes = Devices::plan(explicit, platform, pid);
        Applier { writes, n_explicit, dir_done: false, done_writes: 0, failure: None }
    }

    /// The next step to perform, or `None` when the run is complete or a
    /// failure has been recorded — after a failure no action is ever offered
    /// again.
    pub fn next_action(&self) -> (r: Option<Action>)
        requires
            self.wf(),
        ensures
            (r is Some) <==> (self.failure is None && self.current_step() < self.step_count()),
            (self.failure is None && self.current_step() == 0) ==> r == Some(Action::CreateDir),
            (self.failure is None && 1 <= self.current_step() < self.step_count()) ==> (r
                matches Some(Action::Write(f, c)) && f == self.writes@[self.current_step()
                - 1].file && c@ == self.writes@[self.current_step() - 1].content@),
    {
        if self.failure.is_some() {
            None
        } else if !self.dir_done {
            Some(Action::CreateDir)
        } else if self.done_writes < self.writes.len() {
            let w = &self.writes[self.done_writes];
            Some(Action::Write(w.file, w.content.clone()))
        } else {
            None
        }
    }

    /// Acknowledges the pending step. Success moves to the next step; failure
    /// records the pending step's error and moves nowhere, so the completed
    /// steps stay exactly those before the failed one.
    pub fn report(&mut self, ok: bool)
        requires
            old(self).wf(),
            old(self).failure is None,
            old(self).current_step() < old(self).step_count(),
        ensures
            final(self).wf(),
            final(self).writes@ == old(self).writes@,
            final(self).n_explicit == old(self).n_explicit,
            ok ==> final(self).current_step() == old(self).current_step() + 1,
            ok ==> final(self).failure is None,
            !ok ==> final(self).current_step() == old(self).current_step() && final(self).failure
                == Some(old(self).step_error(old(self).current_step())),
    {
        let n = self.writes.len();
        proof {
            if self.dir_done {
                assert(self.done_writes < n);
            }
        }
        if ok {
            if !self.dir_done {
                self.dir_done = true;
            } else {
                self.done_writes = self.done_writes + 1;
            }
        } else {
            let e = if !self.dir_done {
                ApplyError::DirectoryCreationFailure
            } else if self.done_writes + 1 == n {
                ApplyError::AttachmentFailure
            } else {
                ApplyError::RuleWriteFailure
            };
            self.failure = Some(e);
        }
    }

    /// The run's result: `None` while steps remain, `Ok` once every step
    /// succeeded, and the first failure's error otherwise.
    pub fn outcome(&self) -> (r: Option<Result<(), ApplyError>>)
        requires
            self.wf(),
        ensures
            self.failure matches Some(e) ==> r == Some(Result::<(), ApplyError>::Err(e)),
            (self.failure is None && self.current_step() == self.step_count()) ==> r == Some(
                Result::<(), ApplyError>::Ok(()),
            ),
            (self.failure is None && self.current_step() < self.step_count()) ==> r is None,
    {
        match self.failure {
            Option::Some(e) => Some(Err(e)),
            Option::None => {
                if self.dir_done && self.done_writes == self.writes.len() {
                    Some(Ok(()))
                } else {
                    None
                }
            },
        }
    }
}

/// Law: with no explicit rules, the plan is exactly the platform-default
/// writes, the six supplemental writes, and one attachment write — nothing
/// more.
pub proof fn lemma_empty_spec_plan(
    w: Seq<CgroupWrite>,
    explicit: Seq<DeviceRule>,
    platform: Seq<DeviceRule>,
    pid: i32,
)
    requires
        plan_ok(w, explicit, platform, pid),
        explicit.len() == 0,
    ensures
        w.len() == platform.len() + SUPPLEMENTAL_RULE_COUNT + 1,
        forall|i: int| 0 <= i < platform.len() ==> rule_write_ok(#[trigger] w[i], platform[i]),
        forall|i: int|
            platform.len() <= i < w.len() - 1 ==> supplemental_write_ok(
                i - platform.len(),
                #[trigger] w[i],
            ),
        attach_write_ok(w[w.len() - 1], pid),
{
}

/// Law: a failure at an explicit-rule step aborts the run before any
/// default-policy write. The recorded error is a rule-write failure, and no
/// default-policy or attachment step — they all lie beyond the explicit
/// rules — has been completed.
pub proof fn lemma_explicit_failure_aborts_before_defaults(a: Applier)
    requires
        a.wf(),
        a.failure is Some,
        1 <= a.current_step(),
        a.current_step() - 1 < a.n_explicit,
    ensures
        a.failure == Some(ApplyError::RuleWriteFailure),
        forall|s: int| 1 + a.n_explicit <= s < a.step_count() ==> !a.completed(s),
{
}

/// Law: failure of the first step — ensuring the cgroup leaf directory —
/// surfaces as `DirectoryCreationFailure`, never as a rule or attachment
/// error, and nothing at all has been completed.
pub proof fn lemma_dir_failure_error(a: Applier)
    requires
        a.wf(),
        a.failure is Some,
        a.current_step() == 0,
    ensures
        a.failure == Some(ApplyError::DirectoryCreationFailure),
        forall|s: int| !a.completed(s),
{
}

} // verus!

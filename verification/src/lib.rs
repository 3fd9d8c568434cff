//! Verified core of a devices-cgroup controller.
//!
//! The library turns a container's declared device-access policy into the
//! exact, ordered sequence of kernel control-file writes that configure the
//! devices control group and attach the container's process to it. The
//! serializer, the default device policy, and the applier's step ordering are
//! all verified; performing the writes (filesystem I/O) is left to a thin
//! unverified shell that drives the [`applier::Applier`] state machine.

pub mod applier;
pub mod policy;
pub mod rule;
pub mod serializer;

//! The capability gate: which value encoding the running kernel accepts.
//!
//! The probe itself is an external collaborator that inspects the kernel
//! once per process. Its verdict is recorded in a [`CapabilityFlag`] and
//! never re-probed: every accessor call site reads the resolved value, so
//! the encoding an accessor uses cannot change mid-operation.

use vstd::prelude::*;

verus! {

/// The resolved, immutable verdict of the capability probe.
#[derive(Clone, Copy, Debug, PartialEq, Eq, Structural)]
pub struct CapabilityFlag {
    extended: bool,
}

impl CapabilityFlag {
    /// Whether the kernel accepts the extended redirect value layout
    /// (device index plus program slot) rather than only the legacy bare
    /// device index.
    pub closed spec fn spec_extended(self) -> bool {
        self.extended
    }

    /// Records the probe's verdict, once; accessors read only this value.
    pub fn resolve(extended_redirect: bool) -> (c: CapabilityFlag)
        ensures
            c.spec_extended() == extended_redirect,
    {
        CapabilityFlag { extended: extended_redirect }
    }

    /// Reads the resolved verdict.
    pub fn supports_extended_redirect(&self) -> (r: bool)
        ensures
            r == self.spec_extended(),
    {
        self.extended
    }
}

} // verus!

//! Inspect latency budgets and phase evidence.

use vstd::prelude::*;

verus! {

/// Cold public-package inspect should stay under five seconds.
pub const COLD_PUBLIC_PACKAGE_INSPECT_BUDGET_MS: u128 = 5000;
/// Warm fixture-backed inspect should stay under one second.
pub const WARM_FIXTURE_INSPECT_BUDGET_MS: u128 = 1000;

/// Named latency profile used by docs, tests, and manual measurements.
#[derive(Clone, Copy, Debug, PartialEq, Eq, Structural)]
pub enum InspectLatencyProfile {
    /// Optional live public registry measurement.
    ColdPublicPackage,
    /// Repeatable local fixture-backed measurement.
    WarmFixture,
}

/// Inspect latency phase timings in milliseconds.
#[derive(Clone, Copy, Debug, PartialEq, Eq, Structural)]
pub struct InspectLatencyPhases {
    /// Registry metadata resolution, JSON parsing, and integrity verification.
    pub resolve_ms: u128,
    /// Tarball byte transport.
    pub download_ms: u128,
    /// Static tarball extraction and package metadata parsing.
    pub extract_ms: u128,
    /// Human or JSON report rendering.
    pub render_ms: u128,
}

/// Sum of the tracked phases.
pub open spec fn phases_total(p: InspectLatencyPhases) -> int {
    p.resolve_ms + p.download_ms + p.extract_ms + p.render_ms
}

impl InspectLatencyPhases {
    /// Return the sum of the tracked inspect phases.
    pub fn total_ms(&self) -> (r: u128)
        requires
            phases_total(*self) <= u128::MAX,
        ensures
            r == phases_total(*self),
    {
        self.resolve_ms + self.download_ms + self.extract_ms + self.render_ms
    }
}

/// Budgeted inspect latency evidence.
#[derive(Clone, Debug, PartialEq, Eq)]
pub struct InspectLatencyEvidence {
    /// Measurement profile.
    pub profile: InspectLatencyProfile,
    /// Budget target for the profile.
    pub budget_ms: u128,
    /// Captured phase timings.
    pub phases: InspectLatencyPhases,
    /// Total tracked latency.
    pub total_ms: u128,
    /// Whether the tracked total is inside the budget.
    pub within_budget: bool,
    /// Whether this measured wall-clock profile is enforced in normal CI.
    pub ci_enforced: bool,
    /// Human-readable note about provenance and enforcement.
    pub note: &'static str,
}

/// Budget of a profile.
pub open spec fn profile_budget(p: InspectLatencyProfile) -> u128 {
    match p {
        InspectLatencyProfile::ColdPublicPackage => COLD_PUBLIC_PACKAGE_INSPECT_BUDGET_MS,
        InspectLatencyProfile::WarmFixture => WARM_FIXTURE_INSPECT_BUDGET_MS,
    }
}

/// Note of a profile.
pub open spec fn profile_note(p: InspectLatencyProfile) -> Seq<char> {
    match p {
        InspectLatencyProfile::ColdPublicPackage => "Optional live public-npm measurement; do not enforce in CI."@,
        InspectLatencyProfile::WarmFixture => "Fixture-backed measurement suitable for local regression evidence; CI validates the evidence shape and budget constants."@,
    }
}

/// Build latency evidence for a profile and phase set; no profile is
/// enforced in CI.
pub fn inspect_latency_evidence(profile: InspectLatencyProfile, phases: InspectLatencyPhases) -> (r:
    InspectLatencyEvidence)
    requires
        phases_total(phases) <= u128::MAX,
    ensures
        r.profile == profile,
        r.phases == phases,
        r.budget_ms == profile_budget(profile),
        r.total_ms == phases_total(phases),
        r.within_budget == (phases_total(phases) <= profile_budget(profile)),
        !r.ci_enforced,
        r.note@ == profile_note(profile),
{
    let (budget_ms, ci_enforced, note) = match profile {
        InspectLatencyProfile::ColdPublicPackage => (
            COLD_PUBLIC_PACKAGE_INSPECT_BUDGET_MS,
            false,
            "Optional live public-npm measurement; do not enforce in CI.",
        ),
        InspectLatencyProfile::WarmFixture => (
            WARM_FIXTURE_INSPECT_BUDGET_MS,
            false,
            "Fixture-backed measurement suitable for local regression evidence; CI validates the evidence shape and budget constants.",
        ),
    };
    let total_ms = phases.total_ms();
    InspectLatencyEvidence {
        profile,
        budget_ms,
        phases,
        total_ms,
        within_budget: total_ms <= budget_ms,
        ci_enforced,
        note,
    }
}

} // verus!

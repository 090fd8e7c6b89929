//! What a test run is asked to do.

use vstd::prelude::*;

verus! {

/// A health check of the server that a run can switch off.
#[derive(Debug, Clone, Copy, PartialEq, Eq, Structural)]
pub enum HealthCheck {
    FilterTooMuch,
    TooSlow,
    TestCasesTooLarge,
    LargeInitialTestCase,
}

/// A part of the server's work that a run can ask for.
#[derive(Debug, Clone, Copy, PartialEq, Eq, Structural)]
pub enum Phase {
    Explicit,
    Reuse,
    Generate,
    Target,
    Shrink,
}

/// Whether a run searches for failures or runs one test case.
#[derive(Debug, Clone, Copy, PartialEq, Eq, Structural)]
pub enum Mode {
    TestRun,
    SingleTestCase,
}

/// How much a run reports.
#[derive(Debug, Clone, Copy, PartialEq, Eq, Structural)]
pub enum Verbosity {
    Quiet,
    Normal,
    Verbose,
    Debug,
}

/// Where the server keeps the failures that it has found.
#[derive(Debug)]
pub enum Database {
    /// Where the server chooses.
    Unset,
    /// Nowhere.
    Disabled,
    /// In this directory.
    Path(String),
}

/// The settings of a run.
#[derive(Debug)]
pub struct Settings {
    pub mode: Mode,
    pub test_cases: u64,
    pub verbosity: Verbosity,
    pub seed: Option<u64>,
    pub derandomize: bool,
    pub database: Database,
    pub suppress_health_check: Vec<HealthCheck>,
    pub phases: Vec<Phase>,
}

impl HealthCheck {
    /// The server's name for this health check.
    pub open spec fn name(self) -> Seq<char> {
        match self {
            HealthCheck::FilterTooMuch => "filter_too_much"@,
            HealthCheck::TooSlow => "too_slow"@,
            HealthCheck::TestCasesTooLarge => "test_cases_too_large"@,
            HealthCheck::LargeInitialTestCase => "large_initial_test_case"@,
        }
    }
}

impl Phase {
    /// The server's name for this phase.
    pub open spec fn name(self) -> Seq<char> {
        match self {
            Phase::Explicit => "explicit"@,
            Phase::Reuse => "reuse"@,
            Phase::Generate => "generate"@,
            Phase::Target => "target"@,
            Phase::Shrink => "shrink"@,
        }
    }
}

/// The server's name for a health check.
pub fn health_check_as_str(check: &HealthCheck) -> (name: &'static str)
    ensures
        name@ == check.name(),
{
    match check {
        HealthCheck::FilterTooMuch => "filter_too_much",
        HealthCheck::TooSlow => "too_slow",
        HealthCheck::TestCasesTooLarge => "test_cases_too_large",
        HealthCheck::LargeInitialTestCase => "large_initial_test_case",
    }
}

/// The server's name for a phase.
pub fn phase_as_str(phase: &Phase) -> (name: &'static str)
    ensures
        name@ == phase.name(),
{
    match phase {
        Phase::Explicit => "explicit",
        Phase::Reuse => "reuse",
        Phase::Generate => "generate",
        Phase::Target => "target",
        Phase::Shrink => "shrink",
    }
}

/// No two health checks have one name.
pub proof fn law_health_check_names_differ(a: HealthCheck, b: HealthCheck)
    ensures
        a.name() == b.name() ==> a == b,
{
    reveal_strlit("filter_too_much");
    reveal_strlit("too_slow");
    reveal_strlit("test_cases_too_large");
    reveal_strlit("large_initial_test_case");
    assert(a.name().len() == b.name().len() ==> a == b);
}

/// No two phases have one name.
pub proof fn law_phase_names_differ(a: Phase, b: Phase)
    ensures
        a.name() == b.name() ==> a == b,
{
    reveal_strlit("explicit");
    reveal_strlit("reuse");
    reveal_strlit("generate");
    reveal_strlit("target");
    reveal_strlit("shrink");
    assert(a.name()[0] == b.name()[0] ==> a == b);
}

/// The names of health checks are the server's own.
pub proof fn law_health_check_names(check: HealthCheck)
    ensures
        check.name() == "filter_too_much"@ <==> check is FilterTooMuch,
        check.name() == "too_slow"@ <==> check is TooSlow,
        check.name() == "test_cases_too_large"@ <==> check is TestCasesTooLarge,
        check.name() == "large_initial_test_case"@ <==> check is LargeInitialTestCase,
{
    law_health_check_names_differ(check, HealthCheck::FilterTooMuch);
    law_health_check_names_differ(check, HealthCheck::TooSlow);
    law_health_check_names_differ(check, HealthCheck::TestCasesTooLarge);
    law_health_check_names_differ(check, HealthCheck::LargeInitialTestCase);
}

/// The names of phases are the server's own.
pub proof fn law_phase_names(phase: Phase)
    ensures
        phase.name() == "explicit"@ <==> phase is Explicit,
        phase.name() == "reuse"@ <==> phase is Reuse,
        phase.name() == "generate"@ <==> phase is Generate,
        phase.name() == "target"@ <==> phase is Target,
        phase.name() == "shrink"@ <==> phase is Shrink,
{
    law_phase_names_differ(phase, Phase::Explicit);
    law_phase_names_differ(phase, Phase::Reuse);
    law_phase_names_differ(phase, Phase::Generate);
    law_phase_names_differ(phase, Phase::Target);
    law_phase_names_differ(phase, Phase::Shrink);
}

} // verus!

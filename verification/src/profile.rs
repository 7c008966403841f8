//! What to do with the profiler's report when the pipeline shuts down.
//!
//! Writing the report takes four steps, each of which can fail. A failure
//! is reported and never stops the shutdown.

use vstd::prelude::*;
use vstd::string::StringExecFns;

verus! {

/// The steps of writing the report, and the end.
#[derive(Clone, Copy, Debug, PartialEq, Eq, Structural)]
pub enum ProfileStep {
    /// Build the report from the samples.
    BuildReport,
    /// Turn the report into a profile.
    ConvertReport,
    /// Encode the profile.
    EncodeProfile,
    /// Write the encoded profile to the file.
    WriteFile,
    /// Nothing is left to do.
    Finished,
}

/// What went wrong.
#[derive(Clone, Copy, Debug, PartialEq, Eq, Structural)]
pub enum ProfileFailure {
    Generate,
    Encode,
    Write,
}

/// Where to go after a step, and what to report.
#[derive(Clone, Copy, Debug, PartialEq, Eq, Structural)]
pub struct ProfileTransition {
    pub next: ProfileStep,
    pub failure: Option<ProfileFailure>,
}

/// Name of the file that the profile is written to.
pub open spec fn spec_profile_path() -> Seq<char> {
    "pprof.pb"@
}

pub fn profile_path() -> (r: &'static str)
    ensures
        r@ == spec_profile_path(),
{
    "pprof.pb"
}

impl ProfileStep {
    /// How many steps are left at most.
    pub open spec fn remaining(self) -> nat {
        match self {
            ProfileStep::BuildReport => 4,
            ProfileStep::ConvertReport => 3,
            ProfileStep::EncodeProfile => 2,
            ProfileStep::WriteFile => 1,
            ProfileStep::Finished => 0,
        }
    }

    /// The step that follows `self`. Without a report or a profile there
    /// is nothing to write, so a failure there ends the work. What could be
    /// encoded is still written where the encoding failed.
    pub open spec fn spec_after(self, succeeded: bool) -> ProfileTransition {
        match self {
            ProfileStep::BuildReport => if succeeded {
                ProfileTransition { next: ProfileStep::ConvertReport, failure: None }
            } else {
                ProfileTransition {
                    next: ProfileStep::Finished,
                    failure: Some(ProfileFailure::Generate),
                }
            },
            ProfileStep::ConvertReport => if succeeded {
                ProfileTransition { next: ProfileStep::EncodeProfile, failure: None }
            } else {
                ProfileTransition {
                    next: ProfileStep::Finished,
                    failure: Some(ProfileFailure::Generate),
                }
            },
            ProfileStep::EncodeProfile => ProfileTransition {
                next: ProfileStep::WriteFile,
                failure: if succeeded {
                    None
                } else {
                    Some(ProfileFailure::Encode)
                },
            },
            ProfileStep::WriteFile => ProfileTransition {
                next: ProfileStep::Finished,
                failure: if succeeded {
                    None
                } else {
                    Some(ProfileFailure::Write)
                },
            },
            ProfileStep::Finished => ProfileTransition {
                next: ProfileStep::Finished,
                failure: None,
            },
        }
    }

    /// The step at which the work ends up after the given outcomes, one for
    /// each step taken.
    pub open spec fn run(self, outcomes: Seq<bool>) -> ProfileStep
        decreases outcomes.len(),
    {
        if outcomes.len() == 0 {
            self
        } else {
            self.spec_after(outcomes[0]).next.run(outcomes.drop_first())
        }
    }

    /// The step to start with.
    pub fn first() -> (r: ProfileStep)
        ensures
            r == ProfileStep::BuildReport,
    {
        ProfileStep::BuildReport
    }

    /// The step that follows `self`, given whether `self` succeeded, and the
    /// failure to report, if there is one.
    pub fn after(self, succeeded: bool) -> (r: ProfileTransition)
        ensures
            r == self.spec_after(succeeded),
    {
        match self {
            ProfileStep::BuildReport | ProfileStep::ConvertReport => {
                if succeeded {
                    let next = match self {
                        ProfileStep::BuildReport => ProfileStep::ConvertReport,
                        _ => ProfileStep::EncodeProfile,
                    };
                    ProfileTransition { next, failure: None }
                } else {
                    ProfileTransition {
                        next: ProfileStep::Finished,
                        failure: Some(ProfileFailure::Generate),
                    }
                }
            },
            ProfileStep::EncodeProfile => ProfileTransition {
                next: ProfileStep::WriteFile,
                failure: if succeeded {
                    None
                } else {
                    Some(ProfileFailure::Encode)
                },
            },
            ProfileStep::WriteFile => ProfileTransition {
                next: ProfileStep::Finished,
                failure: if succeeded {
                    None
                } else {
                    Some(ProfileFailure::Write)
                },
            },
            ProfileStep::Finished => ProfileTransition { next: ProfileStep::Finished, failure: None },
        }
    }
}

impl ProfileFailure {
    /// The text to log. `detail` is what the failing step said of itself;
    /// a report that cannot be generated has nothing to add.
    pub open spec fn spec_message(self, detail: Seq<char>) -> Seq<char> {
        match self {
            ProfileFailure::Generate => "failed to generate pprof report"@,
            ProfileFailure::Encode => "failed to encode pprof profile: "@ + detail,
            ProfileFailure::Write => "failed to write pprof profile: "@ + detail,
        }
    }

    pub fn message(self, detail: &str) -> (r: String)
        ensures
            r@ == self.spec_message(detail@),
    {
        match self {
            ProfileFailure::Generate => String::from_str("failed to generate pprof report"),
            ProfileFailure::Encode => String::from_str("failed to encode pprof profile: ").concat(
                detail,
            ),
            ProfileFailure::Write => String::from_str("failed to write pprof profile: ").concat(
                detail,
            ),
        }
    }
}

/// No failure is fatal and none repeats: every step but the end brings the
/// end nearer, whether it succeeds or not, and the end stays the end.
pub proof fn lemma_every_step_makes_progress(step: ProfileStep, succeeded: bool)
    ensures
        step != ProfileStep::Finished ==> step.spec_after(succeeded).next.remaining()
            < step.remaining(),
        step == ProfileStep::Finished ==> step.spec_after(succeeded) == (ProfileTransition {
            next: ProfileStep::Finished,
            failure: None,
        }),
        succeeded ==> step.spec_after(succeeded).failure is None,
{
}

/// Whatever fails, the work is over after as many outcomes as there were
/// steps left.
pub proof fn lemma_dump_always_finishes(step: ProfileStep, outcomes: Seq<bool>)
    requires
        outcomes.len() >= step.remaining(),
    ensures
        step.run(outcomes) == ProfileStep::Finished,
    decreases outcomes.len(),
{
    if outcomes.len() > 0 {
        lemma_every_step_makes_progress(step, outcomes[0]);
        lemma_dump_always_finishes(step.spec_after(outcomes[0]).next, outcomes.drop_first());
    }
}

} // verus!

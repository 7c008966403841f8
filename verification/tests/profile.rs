use turbo_tracing::profile::{profile_path, ProfileFailure, ProfileStep, ProfileTransition};

fn run(outcomes: &[bool]) -> (ProfileStep, Vec<ProfileFailure>) {
    let mut step = ProfileStep::first();
    let mut failures = Vec::new();
    for outcome in outcomes {
        let transition = step.after(*outcome);
        if let Some(failure) = transition.failure {
            failures.push(failure);
        }
        step = transition.next;
    }
    (step, failures)
}

#[test]
fn profile_goes_to_a_fixed_file() {
    assert_eq!(profile_path(), "pprof.pb");
}

#[test]
fn all_steps_succeed() {
    assert_eq!(ProfileStep::first(), ProfileStep::BuildReport);
    assert_eq!(run(&[true]), (ProfileStep::ConvertReport, vec![]));
    assert_eq!(run(&[true, true]), (ProfileStep::EncodeProfile, vec![]));
    assert_eq!(run(&[true, true, true]), (ProfileStep::WriteFile, vec![]));
    assert_eq!(run(&[true, true, true, true]), (ProfileStep::Finished, vec![]));
}

#[test]
fn report_that_cannot_be_built_ends_the_work() {
    assert_eq!(
        ProfileStep::BuildReport.after(false),
        ProfileTransition { next: ProfileStep::Finished, failure: Some(ProfileFailure::Generate) }
    );
    assert_eq!(
        ProfileStep::ConvertReport.after(false),
        ProfileTransition { next: ProfileStep::Finished, failure: Some(ProfileFailure::Generate) }
    );
}

#[test]
fn failed_encoding_is_reported_and_the_file_still_written() {
    assert_eq!(
        ProfileStep::EncodeProfile.after(false),
        ProfileTransition { next: ProfileStep::WriteFile, failure: Some(ProfileFailure::Encode) }
    );
    assert_eq!(
        run(&[true, true, false, false]),
        (ProfileStep::Finished, vec![ProfileFailure::Encode, ProfileFailure::Write])
    );
}

#[test]
fn failed_write_is_reported() {
    assert_eq!(
        ProfileStep::WriteFile.after(false),
        ProfileTransition { next: ProfileStep::Finished, failure: Some(ProfileFailure::Write) }
    );
}

#[test]
fn finished_stays_finished() {
    for outcome in [true, false] {
        assert_eq!(
            ProfileStep::Finished.after(outcome),
            ProfileTransition { next: ProfileStep::Finished, failure: None }
        );
    }
}

#[test]
fn four_outcomes_always_finish() {
    for bits in 0..16u32 {
        let outcomes: Vec<bool> = (0..4).map(|i| bits & (1 << i) != 0).collect();
        let (step, failures) = run(&outcomes);
        assert_eq!(step, ProfileStep::Finished);
        assert!(failures.len() <= 2);
    }
}

#[test]
fn failure_messages() {
    assert_eq!(ProfileFailure::Generate.message("ignored"), "failed to generate pprof report");
    assert_eq!(
        ProfileFailure::Encode.message("buffer too small"),
        "failed to encode pprof profile: buffer too small"
    );
    assert_eq!(
        ProfileFailure::Write.message("disk full"),
        "failed to write pprof profile: disk full"
    );
    assert_eq!(ProfileFailure::Write.message(""), "failed to write pprof profile: ");
}

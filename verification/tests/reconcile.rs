use dploy::commands::reconcile::{
    classify_inspection, CallOutcome, InspectResponse, Inspection, Reconciliation, RuntimeCall,
};
use dploy::runtime::ImageSource;

fn run(source: ImageSource, outcomes: &[CallOutcome]) -> (Vec<RuntimeCall>, Reconciliation) {
    let mut state = Reconciliation::begin(source);
    let mut calls = vec![];
    let mut outcomes = outcomes.iter();
    while let Some(call) = state.pending() {
        calls.push(call);
        match outcomes.next() {
            Some(outcome) => state = state.advance(*outcome),
            None => break,
        }
    }
    (calls, state)
}

#[test]
fn absent_container_is_created_and_started() {
    let (calls, state) = run(
        ImageSource::Registry,
        &[
            CallOutcome::Completed,
            CallOutcome::Inspected(Inspection::NotFound),
            CallOutcome::Completed,
            CallOutcome::Completed,
        ],
    );
    assert_eq!(
        calls,
        vec![
            RuntimeCall::PullImage,
            RuntimeCall::InspectContainer,
            RuntimeCall::CreateContainer,
            RuntimeCall::StartContainer,
        ]
    );
    assert!(!calls.contains(&RuntimeCall::StopContainer));
    assert!(!calls.contains(&RuntimeCall::RemoveContainer));
    assert_eq!(state, Reconciliation::Running);
}

#[test]
fn running_container_is_stopped_removed_created_started() {
    let (calls, state) = run(
        ImageSource::LocalBuild,
        &[
            CallOutcome::Completed,
            CallOutcome::Inspected(Inspection::Found { running: true }),
            CallOutcome::Completed,
            CallOutcome::Completed,
            CallOutcome::Completed,
            CallOutcome::Completed,
        ],
    );
    assert_eq!(
        calls,
        vec![
            RuntimeCall::BuildImage,
            RuntimeCall::InspectContainer,
            RuntimeCall::StopContainer,
            RuntimeCall::RemoveContainer,
            RuntimeCall::CreateContainer,
            RuntimeCall::StartContainer,
        ]
    );
    assert_eq!(state, Reconciliation::Running);
}

#[test]
fn stopped_container_is_removed_without_a_stop() {
    let (calls, state) = run(
        ImageSource::Registry,
        &[
            CallOutcome::Completed,
            CallOutcome::Inspected(Inspection::Found { running: false }),
            CallOutcome::Completed,
            CallOutcome::Completed,
            CallOutcome::Completed,
        ],
    );
    assert_eq!(
        calls,
        vec![
            RuntimeCall::PullImage,
            RuntimeCall::InspectContainer,
            RuntimeCall::RemoveContainer,
            RuntimeCall::CreateContainer,
            RuntimeCall::StartContainer,
        ]
    );
    assert_eq!(state, Reconciliation::Running);
}

#[test]
fn transport_error_on_inspect_aborts() {
    let (calls, state) = run(
        ImageSource::Registry,
        &[
            CallOutcome::Completed,
            CallOutcome::Inspected(Inspection::TransportError),
            CallOutcome::Completed,
        ],
    );
    assert_eq!(calls, vec![RuntimeCall::PullImage, RuntimeCall::InspectContainer]);
    assert_eq!(state, Reconciliation::Failed);
    assert_eq!(state.pending(), None);
}

#[test]
fn every_failed_call_is_fatal() {
    let path = [
        CallOutcome::Completed,
        CallOutcome::Inspected(Inspection::Found { running: true }),
        CallOutcome::Completed,
        CallOutcome::Completed,
        CallOutcome::Completed,
        CallOutcome::Completed,
    ];
    for failing in 0..path.len() {
        let mut outcomes = path[..failing].to_vec();
        outcomes.push(CallOutcome::Failed);
        outcomes.push(CallOutcome::Completed);
        let (calls, state) = run(ImageSource::Registry, &outcomes);
        assert_eq!(calls.len(), failing + 1);
        assert_eq!(state, Reconciliation::Failed);
        assert_eq!(state.advance(CallOutcome::Completed), Reconciliation::Failed);
    }
}

#[test]
fn outcome_of_another_call_is_a_failure() {
    let awaiting_pull = Reconciliation::begin(ImageSource::Registry);
    assert_eq!(
        awaiting_pull.advance(CallOutcome::Inspected(Inspection::NotFound)),
        Reconciliation::Failed
    );
    let awaiting_inspect = awaiting_pull.advance(CallOutcome::Completed);
    assert_eq!(awaiting_inspect.advance(CallOutcome::Completed), Reconciliation::Failed);
}

#[test]
fn ended_reconciliation_stays_ended() {
    assert_eq!(Reconciliation::Running.advance(CallOutcome::Failed), Reconciliation::Running);
    assert_eq!(Reconciliation::Running.pending(), None);
    assert_eq!(Reconciliation::Failed.advance(CallOutcome::Completed), Reconciliation::Failed);
}

#[test]
fn image_source_decides_the_first_call() {
    assert_eq!(
        Reconciliation::begin(ImageSource::Registry),
        Reconciliation::Awaiting(RuntimeCall::PullImage)
    );
    assert_eq!(
        Reconciliation::begin(ImageSource::LocalBuild),
        Reconciliation::Awaiting(RuntimeCall::BuildImage)
    );
}

#[test]
fn only_status_404_means_not_found() {
    assert_eq!(
        classify_inspection(InspectResponse::ServerError { status_code: 404 }),
        Inspection::NotFound
    );
    for status_code in [0u16, 304, 400, 403, 409, 500, 503] {
        assert_eq!(
            classify_inspection(InspectResponse::ServerError { status_code }),
            Inspection::TransportError
        );
    }
    assert_eq!(classify_inspection(InspectResponse::Failure), Inspection::TransportError);
    assert_eq!(
        classify_inspection(InspectResponse::Container { running: true }),
        Inspection::Found { running: true }
    );
    assert_eq!(
        classify_inspection(InspectResponse::Container { running: false }),
        Inspection::Found { running: false }
    );
}

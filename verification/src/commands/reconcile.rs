use vstd::prelude::*;

use crate::runtime::ImageSource;

verus! {

/// One request to the container runtime about the container that is being
/// reconciled.
#[derive(Clone, Copy, Debug, PartialEq, Eq, Structural)]
pub enum RuntimeCall {
    /// Pull the image and read the progress of the pull to its end.
    PullImage,
    BuildImage,
    InspectContainer,
    StopContainer,
    RemoveContainer,
    CreateContainer,
    StartContainer,
}

/// What the runtime answered to an inspect request.
#[derive(Clone, Copy, Debug, PartialEq, Eq, Structural)]
pub enum InspectResponse {
    /// The container is there.
    Container { running: bool },
    /// The runtime refused with this status.
    ServerError { status_code: u16 },
    /// No answer could be had.
    Failure,
}

/// What an inspect request showed of the container.
#[derive(Clone, Copy, Debug, PartialEq, Eq, Structural)]
pub enum Inspection {
    NotFound,
    Found { running: bool },
    TransportError,
}

/// The status by which the runtime says that it knows no such container.
pub const STATUS_NOT_FOUND: u16 = 404;

/// Reads an inspect response. Only the runtime's own "no such container" is
/// taken for absence; every other refusal is an error.
pub open spec fn inspection_of(response: InspectResponse) -> Inspection {
    match response {
        InspectResponse::Container { running } => Inspection::Found { running },
        InspectResponse::ServerError { status_code } => if status_code == STATUS_NOT_FOUND {
            Inspection::NotFound
        } else {
            Inspection::TransportError
        },
        InspectResponse::Failure => Inspection::TransportError,
    }
}

/// Tells a container that is not there from one that could not be asked
/// for.
pub fn classify_inspection(response: InspectResponse) -> (inspection: Inspection)
    ensures
        inspection == inspection_of(response),
{
    match response {
        InspectResponse::Container { running } => Inspection::Found { running },
        InspectResponse::ServerError { status_code } => {
            if status_code == STATUS_NOT_FOUND {
                Inspection::NotFound
            } else {
                Inspection::TransportError
            }
        },
        InspectResponse::Failure => Inspection::TransportError,
    }
}

/// How the call that a reconciliation was waiting for came out.
#[derive(Clone, Copy, Debug, PartialEq, Eq, Structural)]
pub enum CallOutcome {
    Completed,
    Inspected(Inspection),
    Failed,
}

/// How far the reconciliation of one container has come.
#[derive(Clone, Copy, Debug, PartialEq, Eq, Structural)]
pub enum Reconciliation {
    /// The call is to be made, and its outcome handed back.
    Awaiting(RuntimeCall),
    /// The container exists as configured and has been started.
    Running,
    /// A call failed. Nothing more is attempted.
    Failed,
}

/// The first call of a reconciliation: getting the image.
pub open spec fn image_call(source: ImageSource) -> RuntimeCall {
    match source {
        ImageSource::Registry => RuntimeCall::PullImage,
        ImageSource::LocalBuild => RuntimeCall::BuildImage,
    }
}

/// The reconciliation after the call it was waiting for came out as
/// `outcome`. A failure, or an outcome that the pending call cannot have,
/// ends it as failed; one that has ended stays as it is.
pub open spec fn advanced(state: Reconciliation, outcome: CallOutcome) -> Reconciliation {
    match state {
        Reconciliation::Awaiting(call) => match (call, outcome) {
            (RuntimeCall::PullImage, CallOutcome::Completed) => Reconciliation::Awaiting(
                RuntimeCall::InspectContainer,
            ),
            (RuntimeCall::BuildImage, CallOutcome::Completed) => Reconciliation::Awaiting(
                RuntimeCall::InspectContainer,
            ),
            (
                RuntimeCall::InspectContainer,
                CallOutcome::Inspected(Inspection::NotFound),
            ) => Reconciliation::Awaiting(RuntimeCall::CreateContainer),
            (
                RuntimeCall::InspectContainer,
                CallOutcome::Inspected(Inspection::Found { running }),
            ) => if running {
                Reconciliation::Awaiting(RuntimeCall::StopContainer)
            } else {
                Reconciliation::Awaiting(RuntimeCall::RemoveContainer)
            },
            (RuntimeCall::StopContainer, CallOutcome::Completed) => Reconciliation::Awaiting(
                RuntimeCall::RemoveContainer,
            ),
            (RuntimeCall::RemoveContainer, CallOutcome::Completed) => Reconciliation::Awaiting(
                RuntimeCall::CreateContainer,
            ),
            (RuntimeCall::CreateContainer, CallOutcome::Completed) => Reconciliation::Awaiting(
                RuntimeCall::StartContainer,
            ),
            (RuntimeCall::StartContainer, CallOutcome::Completed) => Reconciliation::Running,
            _ => Reconciliation::Failed,
        },
        Reconciliation::Running => Reconciliation::Running,
        Reconciliation::Failed => Reconciliation::Failed,
    }
}

/// The reconciliation after the outcomes of its calls so far, oldest first.
pub open spec fn state_after(source: ImageSource, outcomes: Seq<CallOutcome>) -> Reconciliation
    decreases outcomes.len(),
{
    if outcomes.len() == 0 {
        Reconciliation::Awaiting(image_call(source))
    } else {
        advanced(state_after(source, outcomes.drop_last()), outcomes.last())
    }
}

/// The calls that a reconciliation has asked for by the time those outcomes
/// have been handed back, oldest first.
pub open spec fn calls_made(source: ImageSource, outcomes: Seq<CallOutcome>) -> Seq<RuntimeCall>
    decreases outcomes.len(),
{
    if outcomes.len() == 0 {
        seq![image_call(source)]
    } else {
        let earlier = calls_made(source, outcomes.drop_last());
        match state_after(source, outcomes) {
            Reconciliation::Awaiting(call) => earlier.push(call),
            _ => earlier,
        }
    }
}

impl Reconciliation {
    /// Starts the reconciliation of a container whose image comes from
    /// `source`.
    pub fn begin(source: ImageSource) -> (state: Reconciliation)
        ensures
            state == state_after(source, Seq::empty()),
            state == Reconciliation::Awaiting(image_call(source)),
    {
        match source {
            ImageSource::Registry => Reconciliation::Awaiting(RuntimeCall::PullImage),
            ImageSource::LocalBuild => Reconciliation::Awaiting(RuntimeCall::BuildImage),
        }
    }

    /// Takes the outcome of the pending call and says what comes next.
    pub fn advance(self, outcome: CallOutcome) -> (state: Reconciliation)
        ensures
            state == advanced(self, outcome),
    {
        let call = match self {
            Reconciliation::Awaiting(call) => call,
            Reconciliation::Running => {
                return Reconciliation::Running;
            },
            Reconciliation::Failed => {
                return Reconciliation::Failed;
            },
        };
        match (call, outcome) {
            (RuntimeCall::PullImage, CallOutcome::Completed) => Reconciliation::Awaiting(
                RuntimeCall::InspectContainer,
            ),
            (RuntimeCall::BuildImage, CallOutcome::Completed) => Reconciliation::Awaiting(
                RuntimeCall::InspectContainer,
            ),
            (
                RuntimeCall::InspectContainer,
                CallOutcome::Inspected(Inspection::NotFound),
            ) => Reconciliation::Awaiting(RuntimeCall::CreateContainer),
            (
                RuntimeCall::InspectContainer,
                CallOutcome::Inspected(Inspection::Found { running }),
            ) => {
                if running {
                    Reconciliation::Awaiting(RuntimeCall::StopContainer)
                } else {
                    Reconciliation::Awaiting(RuntimeCall::RemoveContainer)
                }
            },
            (RuntimeCall::StopContainer, CallOutcome::Completed) => Reconciliation::Awaiting(
                RuntimeCall::RemoveContainer,
            ),
            (RuntimeCall::RemoveContainer, CallOutcome::Completed) => Reconciliation::Awaiting(
                RuntimeCall::CreateContainer,
            ),
            (RuntimeCall::CreateContainer, CallOutcome::Completed) => Reconciliation::Awaiting(
                RuntimeCall::StartContainer,
            ),
            (RuntimeCall::StartContainer, CallOutcome::Completed) => Reconciliation::Running,
            _ => Reconciliation::Failed,
        }
    }

    /// The call to make now, if the reconciliation has not ended.
    pub fn pending(&self) -> (call: Option<RuntimeCall>)
        ensures
            call == (match *self {
                Reconciliation::Awaiting(call) => Some(call),
                _ => None,
            }),
    {
        match self {
            Reconciliation::Awaiting(call) => Some(*call),
            _ => None,
        }
    }
}

/// The four outcomes of reconciling a container that is not there.
pub open spec fn outcomes_when_absent() -> Seq<CallOutcome> {
    seq![
        CallOutcome::Completed,
        CallOutcome::Inspected(Inspection::NotFound),
        CallOutcome::Completed,
        CallOutcome::Completed,
    ]
}

/// The outcomes of reconciling a container that is there: running where
/// `running` holds, stopped where it does not.
pub open spec fn outcomes_when_found(running: bool) -> Seq<CallOutcome> {
    if running {
        seq![
            CallOutcome::Completed,
            CallOutcome::Inspected(Inspection::Found { running: true }),
            CallOutcome::Completed,
            CallOutcome::Completed,
            CallOutcome::Completed,
            CallOutcome::Completed,
        ]
    } else {
        seq![
            CallOutcome::Completed,
            CallOutcome::Inspected(Inspection::Found { running: false }),
            CallOutcome::Completed,
            CallOutcome::Completed,
            CallOutcome::Completed,
        ]
    }
}

/// Reconciling a container that the runtime does not know makes, after the
/// image and the inspection, exactly two calls: create, then start. Nothing
/// is stopped or removed.
pub proof fn lemma_absent_container_is_created_and_started(source: ImageSource)
    ensures
        calls_made(source, outcomes_when_absent()) == seq![
            image_call(source),
            RuntimeCall::InspectContainer,
            RuntimeCall::CreateContainer,
            RuntimeCall::StartContainer,
        ],
        state_after(source, outcomes_when_absent()) == Reconciliation::Running,
{
    let o4 = outcomes_when_absent();
    let o3 = o4.drop_last();
    let o2 = o3.drop_last();
    let o1 = o2.drop_last();
    let o0 = o1.drop_last();
    assert(o0.len() == 0);
    assert(state_after(source, o0) == Reconciliation::Awaiting(image_call(source)));
    assert(state_after(source, o1) == Reconciliation::Awaiting(RuntimeCall::InspectContainer));
    assert(state_after(source, o2) == Reconciliation::Awaiting(RuntimeCall::CreateContainer));
    assert(state_after(source, o3) == Reconciliation::Awaiting(RuntimeCall::StartContainer));
    assert(state_after(source, o4) == Reconciliation::Running);
    assert(calls_made(source, o0) =~= seq![image_call(source)]);
    assert(calls_made(source, o1) =~= seq![image_call(source), RuntimeCall::InspectContainer]);
    assert(calls_made(source, o2) =~= seq![
        image_call(source),
        RuntimeCall::InspectContainer,
        RuntimeCall::CreateContainer,
    ]);
    assert(calls_made(source, o3) =~= seq![
        image_call(source),
        RuntimeCall::InspectContainer,
        RuntimeCall::CreateContainer,
        RuntimeCall::StartContainer,
    ]);
    assert(calls_made(source, o4) =~= calls_made(source, o3));
}

/// Reconciling a container that is there and running stops it, removes it,
/// creates it anew and starts it, in that order.
pub proof fn lemma_running_container_is_replaced(source: ImageSource)
    ensures
        calls_made(source, outcomes_when_found(true)) == seq![
            image_call(source),
            RuntimeCall::InspectContainer,
            RuntimeCall::StopContainer,
            RuntimeCall::RemoveContainer,
            RuntimeCall::CreateContainer,
            RuntimeCall::StartContainer,
        ],
        state_after(source, outcomes_when_found(true)) == Reconciliation::Running,
{
    let o6 = outcomes_when_found(true);
    let o5 = o6.drop_last();
    let o4 = o5.drop_last();
    let o3 = o4.drop_last();
    let o2 = o3.drop_last();
    let o1 = o2.drop_last();
    let o0 = o1.drop_last();
    assert(o0.len() == 0);
    assert(state_after(source, o0) == Reconciliation::Awaiting(image_call(source)));
    assert(state_after(source, o1) == Reconciliation::Awaiting(RuntimeCall::InspectContainer));
    assert(state_after(source, o2) == Reconciliation::Awaiting(RuntimeCall::StopContainer));
    assert(state_after(source, o3) == Reconciliation::Awaiting(RuntimeCall::RemoveContainer));
    assert(state_after(source, o4) == Reconciliation::Awaiting(RuntimeCall::CreateContainer));
    assert(state_after(source, o5) == Reconciliation::Awaiting(RuntimeCall::StartContainer));
    assert(state_after(source, o6) == Reconciliation::Running);
    assert(calls_made(source, o0) =~= seq![image_call(source)]);
    assert(calls_made(source, o1) =~= seq![image_call(source), RuntimeCall::InspectContainer]);
    assert(calls_made(source, o2) =~= calls_made(source, o1).push(RuntimeCall::StopContainer));
    assert(calls_made(source, o3) =~= calls_made(source, o2).push(RuntimeCall::RemoveContainer));
    assert(calls_made(source, o4) =~= calls_made(source, o3).push(RuntimeCall::CreateContainer));
    assert(calls_made(source, o5) =~= calls_made(source, o4).push(RuntimeCall::StartContainer));
    assert(calls_made(source, o6) =~= calls_made(source, o5));
}

/// Reconciling a container that is there but not running removes it without
/// stopping it first, then creates it anew and starts it.
pub proof fn lemma_stopped_container_is_replaced(source: ImageSource)
    ensures
        calls_made(source, outcomes_when_found(false)) == seq![
            image_call(source),
            RuntimeCall::InspectContainer,
            RuntimeCall::RemoveContainer,
            RuntimeCall::CreateContainer,
            RuntimeCall::StartContainer,
        ],
        state_after(source, outcomes_when_found(false)) == Reconciliation::Running,
{
    let o5 = outcomes_when_found(false);
    let o4 = o5.drop_last();
    let o3 = o4.drop_last();
    let o2 = o3.drop_last();
    let o1 = o2.drop_last();
    let o0 = o1.drop_last();
    assert(o0.len() == 0);
    assert(state_after(source, o0) == Reconciliation::Awaiting(image_call(source)));
    assert(state_after(source, o1) == Reconciliation::Awaiting(RuntimeCall::InspectContainer));
    assert(state_after(source, o2) == Reconciliation::Awaiting(RuntimeCall::RemoveContainer));
    assert(state_after(source, o3) == Reconciliation::Awaiting(RuntimeCall::CreateContainer));
    assert(state_after(source, o4) == Reconciliation::Awaiting(RuntimeCall::StartContainer));
    assert(state_after(source, o5) == Reconciliation::Running);
    assert(calls_made(source, o0) =~= seq![image_call(source)]);
    assert(calls_made(source, o1) =~= seq![image_call(source), RuntimeCall::InspectContainer]);
    assert(calls_made(source, o2) =~= calls_made(source, o1).push(RuntimeCall::RemoveContainer));
    assert(calls_made(source, o3) =~= calls_made(source, o2).push(RuntimeCall::CreateContainer));
    assert(calls_made(source, o4) =~= calls_made(source, o3).push(RuntimeCall::StartContainer));
    assert(calls_made(source, o5) =~= calls_made(source, o4));
}

/// The calls of a reconciliation that runs to its end: for a container that
/// is not there (`None`), one that is there and running (`Some(true)`), and
/// one that is there and stopped (`Some(false)`).
pub open spec fn full_course(source: ImageSource, found: Option<bool>) -> Seq<RuntimeCall> {
    match found {
        None => seq![
            image_call(source),
            RuntimeCall::InspectContainer,
            RuntimeCall::CreateContainer,
            RuntimeCall::StartContainer,
        ],
        Some(true) => seq![
            image_call(source),
            RuntimeCall::InspectContainer,
            RuntimeCall::StopContainer,
            RuntimeCall::RemoveContainer,
            RuntimeCall::CreateContainer,
            RuntimeCall::StartContainer,
        ],
        Some(false) => seq![
            image_call(source),
            RuntimeCall::InspectContainer,
            RuntimeCall::RemoveContainer,
            RuntimeCall::CreateContainer,
            RuntimeCall::StartContainer,
        ],
    }
}

/// The calls made by the time of those outcomes are the beginning of the
/// course for `found`, the pending call is the last of them, and the
/// container runs only when the course has been gone through.
pub open spec fn on_course(
    source: ImageSource,
    outcomes: Seq<CallOutcome>,
    found: Option<bool>,
) -> bool {
    let calls = calls_made(source, outcomes);
    let course = full_course(source, found);
    &&& 0 < calls.len() <= course.len()
    &&& calls == course.take(calls.len() as int)
    &&& state_after(source, outcomes) matches Reconciliation::Awaiting(call) ==> call
        == calls.last()
    &&& state_after(source, outcomes) is Running ==> calls == course
}

/// Whatever comes back from the runtime, a reconciliation never leaves the
/// three courses: it makes the calls of one of them, in order, from the
/// first, up to where a call fails or the course ends. So a container is
/// stopped or removed only if the inspection found it, is created only once
/// no container of its name is left, and is started only after it was
/// created.
pub proof fn lemma_calls_follow_a_course(source: ImageSource, outcomes: Seq<CallOutcome>)
    ensures
        exists|found: Option<bool>| #[trigger] on_course(source, outcomes, found),
    decreases outcomes.len(),
{
    if outcomes.len() == 0 {
        assert(calls_made(source, outcomes) =~= full_course(source, None).take(1));
        assert(on_course(source, outcomes, None));
    } else {
        let earlier = outcomes.drop_last();
        lemma_calls_follow_a_course(source, earlier);
        let found = choose|found: Option<bool>| #[trigger] on_course(source, earlier, found);
        let calls = calls_made(source, earlier);
        let course = full_course(source, found);
        assert(calls.last() == course[calls.len() - 1]);
        match state_after(source, earlier) {
            Reconciliation::Awaiting(RuntimeCall::InspectContainer) => {
                let shown: Option<bool> = match outcomes.last() {
                    CallOutcome::Inspected(Inspection::Found { running }) => Some(running),
                    _ => None,
                };
                let turn = full_course(source, shown);
                assert(calls.len() == 2);
                assert(calls =~= turn.take(2));
                assert(calls_made(source, outcomes).len() <= 3);
                assert(calls_made(source, outcomes) =~= turn.take(
                    calls_made(source, outcomes).len() as int,
                ));
                assert(on_course(source, outcomes, shown));
            },
            Reconciliation::Awaiting(call) => {
                let made = calls.len() as int;
                assert(call == course[made - 1]);
                assert(made == 1 || made == 2 || made == 3 || made == 4 || made == 5 || made == 6);
                let after = calls_made(source, outcomes);
                assert(after =~= course.take(after.len() as int));
                assert(state_after(source, outcomes) is Running ==> after =~= course);
                assert(on_course(source, outcomes, found));
            },
            _ => {
                assert(on_course(source, outcomes, found));
            },
        }
    }
}

/// A failed call ends the reconciliation: whatever call was pending, the
/// state is `Failed`, and from there no outcome leads to another call.
pub proof fn lemma_failure_is_final(state: Reconciliation, later: CallOutcome)
    requires
        state is Awaiting || state is Failed,
    ensures
        advanced(state, CallOutcome::Failed) == Reconciliation::Failed,
        advanced(state, CallOutcome::Inspected(Inspection::TransportError))
            == Reconciliation::Failed,
        advanced(advanced(state, CallOutcome::Failed), later) == Reconciliation::Failed,
{
}

} // verus!

//! Reusing the deployment of a given name where it exists and holds the
//! requested options, or creating it where it does not exist.
//!
//! The lookups and the creation are calls to Docker, made by the caller; this
//! module decides, after each, what to do next.

use vstd::prelude::*;
use crate::models::{CreateDeploymentOptions, Deployment};
use crate::option_conflicts::{
    conflicts_are_empty_exactly_when_satisfied, deployment_satisfies, ensure_options_match,
    mismatch_error, requesting_held_values_is_no_conflict,
};
use crate::python_error::{
    CreateDeploymentFailure, CreateErrorKind, GetDeploymentFailure, GetErrorKind, PythonError,
    PythonErrorView, create_error, get_error,
};

verus! {

/// Why a deployment could be neither reused nor created.
pub enum GetOrCreateDeploymentError {
    /// The lookup of the deployment failed.
    Get(GetDeploymentFailure),
    /// The creation of the deployment failed.
    Create(CreateDeploymentFailure),
    /// The deployment exists, but does not hold the requested options.
    OptionsMismatch(PythonError),
}

/// The exception that reports a failed reuse or creation.
pub open spec fn get_or_create_error(error: GetOrCreateDeploymentError) -> PythonErrorView {
    match error {
        GetOrCreateDeploymentError::Get(f) => get_error(f.kind, f.text@),
        GetOrCreateDeploymentError::Create(f) => create_error(f.kind, f.text@),
        GetOrCreateDeploymentError::OptionsMismatch(e) => e@,
    }
}

impl GetOrCreateDeploymentError {
    /// The Python exception that reports this error.
    pub fn into_python_error(self) -> (error: PythonError)
        ensures
            error@ == get_or_create_error(self),
    {
        match self {
            GetOrCreateDeploymentError::Get(f) => f.into_python_error(),
            GetOrCreateDeploymentError::Create(f) => f.into_python_error(),
            GetOrCreateDeploymentError::OptionsMismatch(e) => e,
        }
    }
}

/// The outcome of a lookup, with "no such container" taken as "no
/// deployment".
pub open spec fn lookup_outcome(found: Result<Deployment, GetDeploymentFailure>) -> Result<
    Option<Deployment>,
    GetDeploymentFailure,
> {
    match found {
        Ok(d) => Ok(Some(d)),
        Err(f) => if f.kind == GetErrorKind::NotFound {
            Ok(None)
        } else {
            Err(f)
        },
    }
}

/// Takes the outcome of a lookup: the deployment found, none where no
/// container has the name, or the failure.
pub fn find_deployment(found: Result<Deployment, GetDeploymentFailure>) -> (deployment: Result<
    Option<Deployment>,
    GetDeploymentFailure,
>)
    ensures
        deployment == lookup_outcome(found),
{
    match found {
        Ok(d) => Ok(Some(d)),
        Err(f) => if f.kind == GetErrorKind::NotFound {
            Ok(None)
        } else {
            Err(f)
        },
    }
}

/// Where the reuse or creation of a deployment stands.
pub enum GetOrCreateState {
    /// The deployment is being looked up.
    LookingUp,
    /// The deployment was not found and is being created.
    Creating,
    /// The creation found a container of that name, made meanwhile; it is
    /// being looked up again. The creation's failure is kept, to report if
    /// the container is gone again.
    LookingUpAgain(CreateDeploymentFailure),
    /// Nothing is left to do.
    Done,
}

/// What the caller reports back: the outcome of a lookup or of a creation.
pub enum GetOrCreateEvent {
    Looked(Result<Deployment, GetDeploymentFailure>),
    Created(Result<Deployment, CreateDeploymentFailure>),
}

/// What the caller is to do next.
pub enum GetOrCreateAction {
    /// Look the deployment up by name.
    GetDeployment,
    /// Create the deployment with the requested options.
    CreateDeployment,
    /// Stop, and hand this outcome back.
    Finish(Result<Deployment, GetOrCreateDeploymentError>),
}

/// Whether `state` waits for `event`: a lookup's outcome while looking up, a
/// creation's while creating.
pub open spec fn awaits(state: GetOrCreateState, event: GetOrCreateEvent) -> bool {
    match (state, event) {
        (GetOrCreateState::LookingUp, GetOrCreateEvent::Looked(_)) => true,
        (GetOrCreateState::LookingUpAgain(_), GetOrCreateEvent::Looked(_)) => true,
        (GetOrCreateState::Creating, GetOrCreateEvent::Created(_)) => true,
        _ => false,
    }
}

/// Where things stand after `event`.
pub open spec fn next_state(state: GetOrCreateState, event: GetOrCreateEvent) -> GetOrCreateState {
    match (state, event) {
        (GetOrCreateState::LookingUp, GetOrCreateEvent::Looked(Err(f))) => if f.kind
            == GetErrorKind::NotFound {
            GetOrCreateState::Creating
        } else {
            GetOrCreateState::Done
        },
        (GetOrCreateState::Creating, GetOrCreateEvent::Created(Err(f))) => match f.kind {
            CreateErrorKind::ContainerAlreadyExists(_) => GetOrCreateState::LookingUpAgain(f),
            _ => GetOrCreateState::Done,
        },
        _ => GetOrCreateState::Done,
    }
}

/// Whether `action` is what is to be done in `state`: create while
/// creating, look up while looking up again, finish when done.
pub open spec fn action_fits(state: GetOrCreateState, action: GetOrCreateAction) -> bool {
    match state {
        GetOrCreateState::Creating => action is CreateDeployment,
        GetOrCreateState::LookingUpAgain(_) => action is GetDeployment,
        GetOrCreateState::Done => action is Finish,
        GetOrCreateState::LookingUp => action is GetDeployment,
    }
}

/// Whether `outcome` reuses the deployment found: it does where the
/// deployment holds the requested options, and it reports the mismatch
/// otherwise.
pub open spec fn reuse_outcome(
    name: Seq<char>,
    options: CreateDeploymentOptions,
    deployment: Deployment,
    outcome: Result<Deployment, GetOrCreateDeploymentError>,
) -> bool {
    match mismatch_error(name, deployment, options) {
        None => outcome == Ok::<Deployment, GetOrCreateDeploymentError>(deployment),
        Some(error) => outcome matches Err(GetOrCreateDeploymentError::OptionsMismatch(e))
            && e@ == error,
    }
}

/// Whether `outcome` is what the reuse or creation of the deployment `name`
/// ends with, after `event` in `state`.
pub open spec fn finishes_with(
    name: Seq<char>,
    options: CreateDeploymentOptions,
    state: GetOrCreateState,
    event: GetOrCreateEvent,
    outcome: Result<Deployment, GetOrCreateDeploymentError>,
) -> bool {
    match (state, event) {
        (GetOrCreateState::LookingUp, GetOrCreateEvent::Looked(Ok(d))) => reuse_outcome(
            name,
            options,
            d,
            outcome,
        ),
        (GetOrCreateState::LookingUpAgain(_), GetOrCreateEvent::Looked(Ok(d))) => reuse_outcome(
            name,
            options,
            d,
            outcome,
        ),
        (GetOrCreateState::LookingUp, GetOrCreateEvent::Looked(Err(f))) => outcome == Err::<
            Deployment,
            GetOrCreateDeploymentError,
        >(GetOrCreateDeploymentError::Get(f)),
        (GetOrCreateState::LookingUpAgain(c), GetOrCreateEvent::Looked(Err(f))) => if f.kind
            == GetErrorKind::NotFound {
            outcome == Err::<Deployment, GetOrCreateDeploymentError>(
                GetOrCreateDeploymentError::Create(c),
            )
        } else {
            outcome == Err::<Deployment, GetOrCreateDeploymentError>(
                GetOrCreateDeploymentError::Get(f),
            )
        },
        (GetOrCreateState::Creating, GetOrCreateEvent::Created(Ok(d))) => outcome == Ok::<
            Deployment,
            GetOrCreateDeploymentError,
        >(d),
        (GetOrCreateState::Creating, GetOrCreateEvent::Created(Err(f))) => outcome == Err::<
            Deployment,
            GetOrCreateDeploymentError,
        >(GetOrCreateDeploymentError::Create(f)),
        _ => false,
    }
}

/// How many events at most are left before nothing is left to do.
pub open spec fn events_left(state: GetOrCreateState) -> nat {
    match state {
        GetOrCreateState::LookingUp => 3,
        GetOrCreateState::Creating => 2,
        GetOrCreateState::LookingUpAgain(_) => 1,
        GetOrCreateState::Done => 0,
    }
}

/// Every event brings the reuse or creation closer to its end: from the
/// first lookup, it is done after at most three events (lookup, creation,
/// second lookup).
pub proof fn get_or_create_ends_within_three_events(
    state: GetOrCreateState,
    event: GetOrCreateEvent,
)
    requires
        awaits(state, event),
    ensures
        events_left(next_state(state, event)) < events_left(state),
        events_left(GetOrCreateState::LookingUp) == 3,
{
}

/// The deployment is created at most once: only a lookup that finds no
/// deployment leads to a creation, and no step leads back to the first
/// lookup.
pub proof fn creation_follows_only_the_first_lookup(
    state: GetOrCreateState,
    event: GetOrCreateEvent,
)
    requires
        awaits(state, event),
    ensures
        next_state(state, event) is Creating ==> (state is LookingUp && (event matches
            GetOrCreateEvent::Looked(Err(f)) && f.kind == GetErrorKind::NotFound)),
        !(next_state(state, event) is LookingUp),
{
}

/// A deployment found by the first lookup is handed back exactly when it
/// holds every requested option; otherwise the mismatch is reported, and
/// nothing is created.
pub proof fn found_deployment_reused_exactly_when_it_matches(
    name: Seq<char>,
    options: CreateDeploymentOptions,
    deployment: Deployment,
    outcome: Result<Deployment, GetOrCreateDeploymentError>,
)
    requires
        finishes_with(
            name,
            options,
            GetOrCreateState::LookingUp,
            GetOrCreateEvent::Looked(Ok(deployment)),
            outcome,
        ),
    ensures
        next_state(GetOrCreateState::LookingUp, GetOrCreateEvent::Looked(Ok(deployment))) is Done,
        outcome is Ok <==> deployment_satisfies(deployment, options),
        outcome matches Ok(d) ==> d == deployment,
{
    conflicts_are_empty_exactly_when_satisfied(deployment, options);
}

/// Reuse is repeatable: once a lookup has handed back the deployment it
/// found, any later attempt with the same name and options that finds the
/// same, unchanged deployment hands it back again, and creates nothing.
pub proof fn reuse_is_repeatable(
    name: Seq<char>,
    options: CreateDeploymentOptions,
    deployment: Deployment,
    later: Result<Deployment, GetOrCreateDeploymentError>,
)
    requires
        finishes_with(
            name,
            options,
            GetOrCreateState::LookingUp,
            GetOrCreateEvent::Looked(Ok(deployment)),
            Ok(deployment),
        ),
        finishes_with(
            name,
            options,
            GetOrCreateState::LookingUp,
            GetOrCreateEvent::Looked(Ok(deployment)),
            later,
        ),
    ensures
        later == Ok::<Deployment, GetOrCreateDeploymentError>(deployment),
        next_state(GetOrCreateState::LookingUp, GetOrCreateEvent::Looked(Ok(deployment))) is Done,
{
}

/// A deployment that holds every requested option, such as one just created
/// with them, is handed back by the next attempt that finds it.
pub proof fn satisfying_deployment_is_reused(
    name: Seq<char>,
    options: CreateDeploymentOptions,
    deployment: Deployment,
    outcome: Result<Deployment, GetOrCreateDeploymentError>,
)
    requires
        deployment_satisfies(deployment, options),
        finishes_with(
            name,
            options,
            GetOrCreateState::LookingUp,
            GetOrCreateEvent::Looked(Ok(deployment)),
            outcome,
        ),
    ensures
        outcome == Ok::<Deployment, GetOrCreateDeploymentError>(deployment),
{
    conflicts_are_empty_exactly_when_satisfied(deployment, options);
}

/// Requesting again what a deployment already holds reuses it: where each
/// requested option is absent or equal to the deployment's own value, the
/// attempt that finds the deployment hands it back, and creates nothing.
pub proof fn deployment_with_requested_values_is_reused(
    name: Seq<char>,
    options: CreateDeploymentOptions,
    deployment: Deployment,
    outcome: Result<Deployment, GetOrCreateDeploymentError>,
)
    requires
        options.image is None || options.image == deployment.image,
        options.image_tag is None || options.image_tag == deployment.image_tag,
        options.mongodb_port_binding is None || options.mongodb_port_binding
            == deployment.port_bindings,
        options.local_seed_location is None || options.local_seed_location
            == deployment.local_seed_location,
        options.load_sample_data is None || options.load_sample_data
            == deployment.mongodb_load_sample_data,
        options.mongodb_initdb_root_username is None || options.mongodb_initdb_root_username
            == deployment.mongodb_initdb_root_username,
        options.mongodb_initdb_root_password is None || options.mongodb_initdb_root_password
            == deployment.mongodb_initdb_root_password,
        options.voyage_api_key is None || options.voyage_api_key == deployment.voyage_api_key,
        options.do_not_track is None || options.do_not_track == Some(deployment.do_not_track),
        finishes_with(
            name,
            options,
            GetOrCreateState::LookingUp,
            GetOrCreateEvent::Looked(Ok(deployment)),
            outcome,
        ),
    ensures
        outcome == Ok::<Deployment, GetOrCreateDeploymentError>(deployment),
        next_state(GetOrCreateState::LookingUp, GetOrCreateEvent::Looked(Ok(deployment))) is Done,
{
    requesting_held_values_is_no_conflict(deployment, options);
}

/// Only a lookup that finds no container of the name counts as "no
/// deployment"; a deployment found is kept, and every other failure is
/// reported as it is.
pub proof fn only_a_missing_container_means_no_deployment(
    found: Result<Deployment, GetDeploymentFailure>,
)
    ensures
        lookup_outcome(found) == Ok::<Option<Deployment>, GetDeploymentFailure>(None) <==> (
        found matches Err(f) && f.kind == GetErrorKind::NotFound),
        found matches Ok(d) ==> lookup_outcome(found) == Ok::<
            Option<Deployment>,
            GetDeploymentFailure,
        >(Some(d)),
        found is Err && found->Err_0.kind != GetErrorKind::NotFound ==> lookup_outcome(found)
            == Err::<Option<Deployment>, GetDeploymentFailure>(found->Err_0),
{
}

/// The first step: look the deployment up.
pub fn get_or_create_start() -> (start: (GetOrCreateState, GetOrCreateAction))
    ensures
        start.0 is LookingUp,
        start.1 is GetDeployment,
{
    (GetOrCreateState::LookingUp, GetOrCreateAction::GetDeployment)
}

/// Reuses the deployment found, where it holds the requested options.
fn reuse(name: &str, options: &CreateDeploymentOptions, deployment: Deployment) -> (outcome: Result<
    Deployment,
    GetOrCreateDeploymentError,
>)
    ensures
        reuse_outcome(name@, *options, deployment, outcome),
{
    match ensure_options_match(name, &deployment, options) {
        Ok(()) => Ok(deployment),
        Err(e) => Err(GetOrCreateDeploymentError::OptionsMismatch(e)),
    }
}

/// Decides, after `event` in `state`, where the reuse or creation of the
/// deployment `name` with `options` stands and what is to be done next.
pub fn get_or_create_step(
    name: &str,
    options: &CreateDeploymentOptions,
    state: GetOrCreateState,
    event: GetOrCreateEvent,
) -> (next: (GetOrCreateState, GetOrCreateAction))
    requires
        awaits(state, event),
    ensures
        next.0 == next_state(state, event),
        action_fits(next.0, next.1),
        next.1 matches GetOrCreateAction::Finish(outcome) ==> finishes_with(
            name@,
            *options,
            state,
            event,
            outcome,
        ),
{
    match (state, event) {
        (GetOrCreateState::LookingUp, GetOrCreateEvent::Looked(found)) => {
            match find_deployment(found) {
                Ok(Some(deployment)) => (
                    GetOrCreateState::Done,
                    GetOrCreateAction::Finish(reuse(name, options, deployment)),
                ),
                Ok(None) => (GetOrCreateState::Creating, GetOrCreateAction::CreateDeployment),
                Err(f) => (
                    GetOrCreateState::Done,
                    GetOrCreateAction::Finish(Err(GetOrCreateDeploymentError::Get(f))),
                ),
            }
        },
        (GetOrCreateState::Creating, GetOrCreateEvent::Created(created)) => match created {
            Ok(deployment) => (GetOrCreateState::Done, GetOrCreateAction::Finish(Ok(deployment))),
            Err(f) => match f.kind {
                // The deployment might have been created by another process after
                // the lookup: look it up again and check its options.
                CreateErrorKind::ContainerAlreadyExists(_) => (
                    GetOrCreateState::LookingUpAgain(f),
                    GetOrCreateAction::GetDeployment,
                ),
                _ => (
                    GetOrCreateState::Done,
                    GetOrCreateAction::Finish(Err(GetOrCreateDeploymentError::Create(f))),
                ),
            },
        },
        (GetOrCreateState::LookingUpAgain(creation), GetOrCreateEvent::Looked(found)) => {
            match find_deployment(found) {
                Ok(Some(deployment)) => (
                    GetOrCreateState::Done,
                    GetOrCreateAction::Finish(reuse(name, options, deployment)),
                ),
                Ok(None) => (
                    GetOrCreateState::Done,
                    GetOrCreateAction::Finish(Err(GetOrCreateDeploymentError::Create(creation))),
                ),
                Err(f) => (
                    GetOrCreateState::Done,
                    GetOrCreateAction::Finish(Err(GetOrCreateDeploymentError::Get(f))),
                ),
            }
        },
        _ => {
            proof {
                assert(false);
            }
            (GetOrCreateState::Done, GetOrCreateAction::GetDeployment)
        },
    }
}

} // verus!

//! The Python exceptions that the library raises: their class hierarchy, and
//! the error (class and message) raised for each failure of a deployment
//! operation.

use vstd::prelude::*;
use crate::outside::{
    create_deployment_kind, debug_quoted, debug_text, kind_of_create_deployment_error,
    kind_of_delete_deployment_error,
    kind_of_get_connection_string_error, kind_of_get_deployment_error, kind_of_get_logs_error,
    kind_of_pause_deployment_error, kind_of_start_deployment_error, kind_of_stop_deployment_error,
    kind_of_unpause_deployment_error, kind_of_watch_deployment_error,
};
use crate::outside::{
    delete_deployment_kind, get_connection_string_kind, get_deployment_kind, get_logs_kind,
    pause_deployment_kind, start_deployment_kind, stop_deployment_kind, unpause_deployment_kind,
    watch_deployment_kind,
};
use atlas_local::client::{
    CreateDeploymentError, DeleteDeploymentError, GetConnectionStringError, GetDeploymentError,
    GetLogsError, PauseDeploymentError, StartDeploymentError, StopDeploymentError,
    UnpauseDeploymentError, WatchDeploymentError,
};
use vstd::string::to_string_from_display_ensures;

verus! {

/// The Python exception classes that the library raises.
#[derive(Clone, Copy, Debug, PartialEq, Eq, Structural)]
pub enum ExceptionClass {
    /// Python's built-in `ValueError`, for arguments that are refused.
    ValueError,
    /// Python's built-in `RuntimeError`.
    RuntimeError,
    AtlasLocalError,
    DeploymentError,
    CreateDeploymentError,
    GetDeploymentError,
    DeleteDeploymentError,
    WatchDeploymentError,
    GetConnectionStringError,
    GetLogsError,
    PauseDeploymentError,
    StartDeploymentError,
    StopDeploymentError,
    UnpauseDeploymentError,
    UnhealthyDeploymentError,
    DeploymentTimeoutError,
    DockerConnectionError,
}

impl ExceptionClass {
    /// The class that this one derives from, where it is one of the library's
    /// classes (the root classes derive from Python's own exceptions).
    pub open spec fn parent(self) -> Option<ExceptionClass> {
        match self {
            ExceptionClass::ValueError => None,
            ExceptionClass::RuntimeError => None,
            ExceptionClass::AtlasLocalError => None,
            ExceptionClass::DeploymentError => Some(ExceptionClass::AtlasLocalError),
            ExceptionClass::DockerConnectionError => Some(ExceptionClass::AtlasLocalError),
            ExceptionClass::UnhealthyDeploymentError => Some(ExceptionClass::WatchDeploymentError),
            ExceptionClass::DeploymentTimeoutError => Some(ExceptionClass::WatchDeploymentError),
            _ => Some(ExceptionClass::DeploymentError),
        }
    }

    /// How many classes lie between this class and its root.
    pub open spec fn depth(self) -> nat {
        match self {
            ExceptionClass::ValueError => 0,
            ExceptionClass::RuntimeError => 0,
            ExceptionClass::AtlasLocalError => 0,
            ExceptionClass::DeploymentError => 1,
            ExceptionClass::DockerConnectionError => 1,
            ExceptionClass::UnhealthyDeploymentError => 3,
            ExceptionClass::DeploymentTimeoutError => 3,
            _ => 2,
        }
    }

    /// Whether this class is `ancestor` or derives from it.
    pub open spec fn is_subclass_of(self, ancestor: ExceptionClass) -> bool
        decreases self.depth(),
    {
        if self == ancestor {
            true
        } else {
            match self.parent() {
                Some(p) => p.is_subclass_of(ancestor),
                None => false,
            }
        }
    }

    /// The class that this one derives from, among the library's classes.
    pub fn base(&self) -> (parent: Option<ExceptionClass>)
        ensures
            parent == self.parent(),
    {
        match self {
            ExceptionClass::ValueError => None,
            ExceptionClass::RuntimeError => None,
            ExceptionClass::AtlasLocalError => None,
            ExceptionClass::DeploymentError => Some(ExceptionClass::AtlasLocalError),
            ExceptionClass::DockerConnectionError => Some(ExceptionClass::AtlasLocalError),
            ExceptionClass::UnhealthyDeploymentError => Some(ExceptionClass::WatchDeploymentError),
            ExceptionClass::DeploymentTimeoutError => Some(ExceptionClass::WatchDeploymentError),
            _ => Some(ExceptionClass::DeploymentError),
        }
    }

    /// Whether an exception of this class is an instance of `ancestor`.
    pub fn is_instance_of(&self, ancestor: &ExceptionClass) -> (is: bool)
        ensures
            is == self.is_subclass_of(*ancestor),
    {
        let mut current = *self;
        loop
            invariant
                current.is_subclass_of(*ancestor) == self.is_subclass_of(*ancestor),
            decreases current.depth(),
        {
            if current == *ancestor {
                return true;
            }
            match current.base() {
                Some(p) => {
                    current = p;
                },
                None => {
                    return false;
                },
            }
        }
    }

    /// The name of the class in Python.
    pub open spec fn python_name(self) -> Seq<char> {
        match self {
            ExceptionClass::AtlasLocalError => "AtlasLocalError"@,
            ExceptionClass::DeploymentError => "DeploymentError"@,
            ExceptionClass::CreateDeploymentError => "CreateDeploymentError"@,
            ExceptionClass::GetDeploymentError => "GetDeploymentError"@,
            ExceptionClass::DeleteDeploymentError => "DeleteDeploymentError"@,
            ExceptionClass::WatchDeploymentError => "WatchDeploymentError"@,
            ExceptionClass::GetConnectionStringError => "GetConnectionStringError"@,
            ExceptionClass::GetLogsError => "GetLogsError"@,
            ExceptionClass::PauseDeploymentError => "PauseDeploymentError"@,
            ExceptionClass::StartDeploymentError => "StartDeploymentError"@,
            ExceptionClass::StopDeploymentError => "StopDeploymentError"@,
            ExceptionClass::UnpauseDeploymentError => "UnpauseDeploymentError"@,
            ExceptionClass::UnhealthyDeploymentError => "UnhealthyDeploymentError"@,
            ExceptionClass::DeploymentTimeoutError => "DeploymentTimeoutError"@,
            ExceptionClass::DockerConnectionError => "DockerConnectionError"@,
            ExceptionClass::ValueError => "ValueError"@,
            ExceptionClass::RuntimeError => "RuntimeError"@,
        }
    }

    /// The name of the class in Python.
    pub fn name(&self) -> (name: &'static str)
        ensures
            name@ == self.python_name(),
    {
        proof {
            reveal_strlit("AtlasLocalError");
            reveal_strlit("DeploymentError");
            reveal_strlit("CreateDeploymentError");
            reveal_strlit("GetDeploymentError");
            reveal_strlit("DeleteDeploymentError");
            reveal_strlit("WatchDeploymentError");
            reveal_strlit("GetConnectionStringError");
            reveal_strlit("GetLogsError");
            reveal_strlit("PauseDeploymentError");
            reveal_strlit("StartDeploymentError");
            reveal_strlit("StopDeploymentError");
            reveal_strlit("UnpauseDeploymentError");
            reveal_strlit("UnhealthyDeploymentError");
            reveal_strlit("DeploymentTimeoutError");
            reveal_strlit("DockerConnectionError");
            reveal_strlit("ValueError");
            reveal_strlit("RuntimeError");
        }
        match self {
            ExceptionClass::AtlasLocalError => "AtlasLocalError",
            ExceptionClass::DeploymentError => "DeploymentError",
            ExceptionClass::CreateDeploymentError => "CreateDeploymentError",
            ExceptionClass::GetDeploymentError => "GetDeploymentError",
            ExceptionClass::DeleteDeploymentError => "DeleteDeploymentError",
            ExceptionClass::WatchDeploymentError => "WatchDeploymentError",
            ExceptionClass::GetConnectionStringError => "GetConnectionStringError",
            ExceptionClass::GetLogsError => "GetLogsError",
            ExceptionClass::PauseDeploymentError => "PauseDeploymentError",
            ExceptionClass::StartDeploymentError => "StartDeploymentError",
            ExceptionClass::StopDeploymentError => "StopDeploymentError",
            ExceptionClass::UnpauseDeploymentError => "UnpauseDeploymentError",
            ExceptionClass::UnhealthyDeploymentError => "UnhealthyDeploymentError",
            ExceptionClass::DeploymentTimeoutError => "DeploymentTimeoutError",
            ExceptionClass::DockerConnectionError => "DockerConnectionError",
            ExceptionClass::ValueError => "ValueError",
            ExceptionClass::RuntimeError => "RuntimeError",
        }
    }
}

/// The classes that the `atlas_local` module exports, in the order they are
/// registered: every class of the library but Python's built-in ones.
pub open spec fn exported_class_list() -> Seq<ExceptionClass> {
    seq![
            ExceptionClass::AtlasLocalError,
            ExceptionClass::DeploymentError,
            ExceptionClass::CreateDeploymentError,
            ExceptionClass::GetDeploymentError,
            ExceptionClass::DeleteDeploymentError,
            ExceptionClass::WatchDeploymentError,
            ExceptionClass::GetConnectionStringError,
            ExceptionClass::GetLogsError,
            ExceptionClass::PauseDeploymentError,
            ExceptionClass::StartDeploymentError,
            ExceptionClass::StopDeploymentError,
            ExceptionClass::UnpauseDeploymentError,
            ExceptionClass::UnhealthyDeploymentError,
            ExceptionClass::DeploymentTimeoutError,
            ExceptionClass::DockerConnectionError,
    ]
}

/// The classes that the `atlas_local` module exports, in the order they are
/// registered.
pub fn exported_classes() -> (classes: Vec<ExceptionClass>)
    ensures
        classes@ == exported_class_list(),
{
    let mut classes: Vec<ExceptionClass> = Vec::new();
    classes.push(ExceptionClass::AtlasLocalError);
    classes.push(ExceptionClass::DeploymentError);
    classes.push(ExceptionClass::CreateDeploymentError);
    classes.push(ExceptionClass::GetDeploymentError);
    classes.push(ExceptionClass::DeleteDeploymentError);
    classes.push(ExceptionClass::WatchDeploymentError);
    classes.push(ExceptionClass::GetConnectionStringError);
    classes.push(ExceptionClass::GetLogsError);
    classes.push(ExceptionClass::PauseDeploymentError);
    classes.push(ExceptionClass::StartDeploymentError);
    classes.push(ExceptionClass::StopDeploymentError);
    classes.push(ExceptionClass::UnpauseDeploymentError);
    classes.push(ExceptionClass::UnhealthyDeploymentError);
    classes.push(ExceptionClass::DeploymentTimeoutError);
    classes.push(ExceptionClass::DockerConnectionError);
    assert(classes@ =~= exported_class_list());
    classes
}

/// Every exported class is an `AtlasLocalError`, and no class is exported
/// twice.
pub proof fn exported_classes_are_atlas_local_errors()
    ensures
        forall|i: int|
            0 <= i < exported_class_list().len() ==> (#[trigger] exported_class_list()[i])
                .is_subclass_of(ExceptionClass::AtlasLocalError),
        forall|i: int, j: int|
            0 <= i < j < exported_class_list().len() ==> exported_class_list()[i]
                != exported_class_list()[j],
{
    assert forall|i: int| 0 <= i < exported_class_list().len() implies (
    #[trigger] exported_class_list()[i]).is_subclass_of(ExceptionClass::AtlasLocalError) by {
        library_classes_are_atlas_local_errors(exported_class_list()[i]);
    }
}

/// The error raised where Docker cannot be reached; `details` says why.
pub open spec fn docker_connection_message(details: Seq<char>) -> Seq<char> {
    "Could not connect to Docker.\nMake sure Docker is installed and running: https://docs.docker.com/get-docker/\nDetails: "@
        + details
}

/// The error raised where Docker cannot be reached; `details` says why.
pub fn docker_connection_error(details: &str) -> (error: PythonError)
    ensures
        error@ == python_error(
            ExceptionClass::DockerConnectionError,
            docker_connection_message(details@),
        ),
{
    let mut message =
        "Could not connect to Docker.\nMake sure Docker is installed and running: https://docs.docker.com/get-docker/\nDetails: ".to_owned();
    message.append(details);
    PythonError { class: ExceptionClass::DockerConnectionError, message }
}

/// The error raised where the runtime that runs the library's operations
/// failed to start; `details` says why.
pub open spec fn runtime_start_message(details: Seq<char>) -> Seq<char> {
    "Tokio runtime failed to initialize on first use and will not be retried for the lifetime of this process; the process must be restarted. Original error: "@
        + details
}

/// The error raised where the runtime that runs the library's operations
/// failed to start; `details` says why.
pub fn runtime_start_error(details: &str) -> (error: PythonError)
    ensures
        error@ == python_error(ExceptionClass::RuntimeError, runtime_start_message(details@)),
{
    let mut message =
        "Tokio runtime failed to initialize on first use and will not be retried for the lifetime of this process; the process must be restarted. Original error: ".to_owned();
    message.append(details);
    PythonError { class: ExceptionClass::RuntimeError, message }
}

/// Every exception that reports a failed deployment operation is a
/// `DeploymentError`, and so an `AtlasLocalError`, whatever the failure and
/// its description.
pub proof fn operation_errors_are_deployment_errors(
    create: CreateErrorKind,
    delete: DeleteErrorKind,
    connection_string: ConnectionStringErrorKind,
    get: GetErrorKind,
    logs: LogsErrorKind,
    watch: WatchErrorKind,
    start: StartErrorKind,
    stop: StopErrorKind,
    pause: PauseErrorKind,
    unpause: UnpauseErrorKind,
    text: Seq<char>,
)
    ensures
        create_error(create, text).class.is_subclass_of(ExceptionClass::DeploymentError),
        delete_error(delete, text).class.is_subclass_of(ExceptionClass::DeploymentError),
        connection_string_error(connection_string, text).class.is_subclass_of(
            ExceptionClass::DeploymentError,
        ),
        get_error(get, text).class.is_subclass_of(ExceptionClass::DeploymentError),
        logs_error(logs, text).class.is_subclass_of(ExceptionClass::DeploymentError),
        watch_error(watch, text).class.is_subclass_of(ExceptionClass::DeploymentError),
        start_error(start, text).class.is_subclass_of(ExceptionClass::DeploymentError),
        stop_error(stop, text).class.is_subclass_of(ExceptionClass::DeploymentError),
        pause_error(pause, text).class.is_subclass_of(ExceptionClass::DeploymentError),
        unpause_error(unpause, text).class.is_subclass_of(ExceptionClass::DeploymentError),
        ExceptionClass::DeploymentError.is_subclass_of(ExceptionClass::AtlasLocalError),
{
    reveal_with_fuel(ExceptionClass::is_subclass_of, 3);
}

/// Each operation reports its failures under its own class: the lookup of a
/// deployment as a `GetDeploymentError`, its deletion as a
/// `DeleteDeploymentError`, and so on; the wait for a healthy deployment,
/// and a creation that fails while waiting, under a `WatchDeploymentError`
/// or one of its subclasses; a creation that fails otherwise as a
/// `CreateDeploymentError`.
pub proof fn each_operation_raises_its_own_class(
    create: CreateErrorKind,
    delete: DeleteErrorKind,
    connection_string: ConnectionStringErrorKind,
    get: GetErrorKind,
    logs: LogsErrorKind,
    watch: WatchErrorKind,
    start: StartErrorKind,
    stop: StopErrorKind,
    pause: PauseErrorKind,
    unpause: UnpauseErrorKind,
    text: Seq<char>,
)
    ensures
        create_error(create, text).class == ExceptionClass::CreateDeploymentError
            || create_error(create, text).class.is_subclass_of(
            ExceptionClass::WatchDeploymentError,
        ),
        create_error(create, text).class == ExceptionClass::CreateDeploymentError <==> !(
        create is WatchTimeout || create is WatchUnhealthy),
        delete_error(delete, text).class == ExceptionClass::DeleteDeploymentError,
        connection_string_error(connection_string, text).class
            == ExceptionClass::GetConnectionStringError,
        get_error(get, text).class == ExceptionClass::GetDeploymentError,
        logs_error(logs, text).class == ExceptionClass::GetLogsError,
        watch_error(watch, text).class.is_subclass_of(ExceptionClass::WatchDeploymentError),
        start_error(start, text).class == ExceptionClass::StartDeploymentError,
        stop_error(stop, text).class == ExceptionClass::StopDeploymentError,
        pause_error(pause, text).class == ExceptionClass::PauseDeploymentError,
        unpause_error(unpause, text).class == ExceptionClass::UnpauseDeploymentError,
{
    reveal_with_fuel(ExceptionClass::is_subclass_of, 3);
}

/// Every class of the library but Python's built-in `ValueError` and
/// `RuntimeError` is an `AtlasLocalError`.
pub proof fn library_classes_are_atlas_local_errors(class: ExceptionClass)
    requires
        class != ExceptionClass::ValueError,
        class != ExceptionClass::RuntimeError,
    ensures
        class.is_subclass_of(ExceptionClass::AtlasLocalError),
{
    reveal_with_fuel(ExceptionClass::is_subclass_of, 4);
}

/// A Python exception: its class and its message.
#[derive(Debug)]
pub struct PythonError {
    pub class: ExceptionClass,
    pub message: String,
}

/// A Python exception with its message taken as characters.
pub struct PythonErrorView {
    pub class: ExceptionClass,
    pub message: Seq<char>,
}

impl View for PythonError {
    type V = PythonErrorView;

    open spec fn view(&self) -> PythonErrorView {
        PythonErrorView { class: self.class, message: self.message@ }
    }
}

/// The exception of class `class` with message `message`.
pub open spec fn python_error(class: ExceptionClass, message: Seq<char>) -> PythonErrorView {
    PythonErrorView { class, message }
}

/// A result whose error is taken by its view.
pub open spec fn result_view<T>(r: Result<T, PythonError>) -> Result<T, PythonErrorView> {
    match r {
        Ok(v) => Ok(v),
        Err(e) => Err(e@),
    }
}

impl PythonError {
    pub fn new(class: ExceptionClass, message: &str) -> (error: PythonError)
        ensures
            error@ == python_error(class, message@),
    {
        PythonError { class, message: message.to_owned() }
    }
}

/// A failure reported by a deployment operation: what went wrong (`kind`),
/// and the operation's own description of it (`text`).
#[derive(Debug)]
pub struct OperationFailure<K> {
    pub kind: K,
    pub text: String,
}

/// What can make the creation of a deployment fail.
#[derive(Debug, PartialEq, Eq)]
pub enum CreateErrorKind {
    /// The deployment did not become healthy in time.
    WatchTimeout,
    /// The deployment became unhealthy while it was being watched.
    WatchUnhealthy,
    /// The container could not be inspected while it was being watched.
    WatchInspect,
    CreateContainer,
    PullImage,
    /// A container of this name exists already.
    ContainerAlreadyExists(String),
    ContainerInspect,
    UnhealthyDeployment,
    GetDeployment,
    ReceiveDeployment,
    /// The image named includes a tag.
    InvalidImage(String),
}

/// What can make the deletion of a deployment fail.
#[derive(Clone, Copy, Debug, PartialEq, Eq, Structural)]
pub enum DeleteErrorKind {
    ContainerStop,
    ContainerRemove,
    GetDeployment,
}

/// What can make the connection string of a deployment unavailable.
#[derive(Clone, Copy, Debug, PartialEq, Eq, Structural)]
pub enum ConnectionStringErrorKind {
    GetDeployment,
    GetMongodbUsername,
    GetMongodbPassword,
    MissingPortBinding,
}

/// What can make the lookup of a deployment fail.
#[derive(Clone, Copy, Debug, PartialEq, Eq, Structural)]
pub enum GetErrorKind {
    /// No container has that name or ID.
    NotFound,
    /// The container could not be inspected for another reason.
    ContainerInspect,
    /// The container is not a local Atlas deployment.
    IntoDeployment,
}

/// What can make the reading of a deployment's logs fail.
#[derive(Clone, Copy, Debug, PartialEq, Eq, Structural)]
pub enum LogsErrorKind {
    ContainerLogs,
}

/// What can go wrong while waiting for a deployment to become healthy.
#[derive(Debug, PartialEq, Eq)]
pub enum WatchErrorKind {
    ContainerInspect,
    /// The deployment of that name did not become healthy in time.
    Timeout(String),
    Unhealthy,
}

/// What can make the start of a deployment fail.
#[derive(Clone, Copy, Debug, PartialEq, Eq, Structural)]
pub enum StartErrorKind {
    ContainerStart,
    GetDeployment,
    WatchDeployment,
}

/// What can make the stop of a deployment fail.
#[derive(Clone, Copy, Debug, PartialEq, Eq, Structural)]
pub enum StopErrorKind {
    ContainerStop,
    GetDeployment,
}

/// What can make the pause of a deployment fail.
#[derive(Clone, Copy, Debug, PartialEq, Eq, Structural)]
pub enum PauseErrorKind {
    ContainerPause,
    GetDeployment,
}

/// What can make the unpause of a deployment fail.
#[derive(Clone, Copy, Debug, PartialEq, Eq, Structural)]
pub enum UnpauseErrorKind {
    ContainerUnpause,
    GetDeployment,
}

pub type CreateDeploymentFailure = OperationFailure<CreateErrorKind>;

pub type DeleteDeploymentFailure = OperationFailure<DeleteErrorKind>;

pub type ConnectionStringFailure = OperationFailure<ConnectionStringErrorKind>;

pub type GetDeploymentFailure = OperationFailure<GetErrorKind>;

pub type LogsFailure = OperationFailure<LogsErrorKind>;

pub type WatchDeploymentFailure = OperationFailure<WatchErrorKind>;

pub type StartDeploymentFailure = OperationFailure<StartErrorKind>;

pub type StopDeploymentFailure = OperationFailure<StopErrorKind>;

pub type PauseDeploymentFailure = OperationFailure<PauseErrorKind>;

pub type UnpauseDeploymentFailure = OperationFailure<UnpauseErrorKind>;

/// The exception raised when the creation of a deployment fails with `kind`, which the
/// operation describes as `text`.
pub open spec fn create_error(kind: CreateErrorKind, text: Seq<char>) -> PythonErrorView {
    match kind {
        CreateErrorKind::WatchTimeout => python_error(ExceptionClass::DeploymentTimeoutError, text),
        CreateErrorKind::WatchUnhealthy => python_error(
            ExceptionClass::UnhealthyDeploymentError,
            text,
        ),
        CreateErrorKind::WatchInspect => python_error(
            ExceptionClass::CreateDeploymentError,
            "The deployment was created but its status could not be verified"@,
        ),
        CreateErrorKind::CreateContainer => python_error(
            ExceptionClass::CreateDeploymentError,
            text,
        ),
        CreateErrorKind::PullImage => python_error(
            ExceptionClass::CreateDeploymentError,
            "Failed to pull the deployment's image.\nCheck your network connection and that the image and image_tag exist."@,
        ),
        CreateErrorKind::ContainerAlreadyExists(name) => python_error(
            ExceptionClass::CreateDeploymentError,
            "A deployment named "@
                + debug_quoted(name@)
                + " already exists.\nDelete it first, or use get_or_create() to reuse it."@,
        ),
        CreateErrorKind::ContainerInspect => python_error(
            ExceptionClass::CreateDeploymentError,
            "Failed to inspect the deployment's container"@,
        ),
        CreateErrorKind::UnhealthyDeployment => python_error(
            ExceptionClass::CreateDeploymentError,
            "The deployment was created but ended up in an unhealthy state. \nInspect logs() for additional details."@,
        ),
        CreateErrorKind::GetDeployment => python_error(
            ExceptionClass::CreateDeploymentError,
            "The deployment was created but its status could not be verified"@,
        ),
        CreateErrorKind::ReceiveDeployment => python_error(
            ExceptionClass::CreateDeploymentError,
            "Failed to receive confirmation of the created deployment"@,
        ),
        CreateErrorKind::InvalidImage(image) => python_error(
            ExceptionClass::CreateDeploymentError,
            "The image "@
                + debug_quoted(image@)
                + " must not include a tag.\nUse the `image_tag` field to specify a tag."@,
        ),
    }
}

impl OperationFailure<CreateErrorKind> {
    /// The Python exception that reports this failure.
    pub fn into_python_error(&self) -> (error: PythonError)
        ensures
            error@ == create_error(self.kind, self.text@),
    {
        match &self.kind {
            CreateErrorKind::WatchTimeout => PythonError::new(
                ExceptionClass::DeploymentTimeoutError,
                self.text.as_str(),
            ),
            CreateErrorKind::WatchUnhealthy => PythonError::new(
                ExceptionClass::UnhealthyDeploymentError,
                self.text.as_str(),
            ),
            CreateErrorKind::WatchInspect => PythonError::new(
                ExceptionClass::CreateDeploymentError,
                "The deployment was created but its status could not be verified",
            ),
            CreateErrorKind::CreateContainer => PythonError::new(
                ExceptionClass::CreateDeploymentError,
                self.text.as_str(),
            ),
            CreateErrorKind::PullImage => PythonError::new(
                ExceptionClass::CreateDeploymentError,
                "Failed to pull the deployment's image.\nCheck your network connection and that the image and image_tag exist.",
            ),
            CreateErrorKind::ContainerAlreadyExists(name) => {
                let mut message = "A deployment named ".to_owned();
                message.append(debug_text(name.as_str()).as_str());
                message.append(" already exists.\nDelete it first, or use get_or_create() to reuse it.");
                PythonError { class: ExceptionClass::CreateDeploymentError, message }
            },
            CreateErrorKind::ContainerInspect => PythonError::new(
                ExceptionClass::CreateDeploymentError,
                "Failed to inspect the deployment's container",
            ),
            CreateErrorKind::UnhealthyDeployment => PythonError::new(
                ExceptionClass::CreateDeploymentError,
                "The deployment was created but ended up in an unhealthy state. \nInspect logs() for additional details.",
            ),
            CreateErrorKind::GetDeployment => PythonError::new(
                ExceptionClass::CreateDeploymentError,
                "The deployment was created but its status could not be verified",
            ),
            CreateErrorKind::ReceiveDeployment => PythonError::new(
                ExceptionClass::CreateDeploymentError,
                "Failed to receive confirmation of the created deployment",
            ),
            CreateErrorKind::InvalidImage(image) => {
                let mut message = "The image ".to_owned();
                message.append(debug_text(image.as_str()).as_str());
                message.append(" must not include a tag.\nUse the `image_tag` field to specify a tag.");
                PythonError { class: ExceptionClass::CreateDeploymentError, message }
            },
        }
    }
}

/// The exception raised when the deletion of a deployment fails with `kind`, which the
/// operation describes as `text`.
pub open spec fn delete_error(kind: DeleteErrorKind, text: Seq<char>) -> PythonErrorView {
    match kind {
        DeleteErrorKind::ContainerStop => python_error(
            ExceptionClass::DeleteDeploymentError,
            "Failed to stop the deployment's container"@,
        ),
        DeleteErrorKind::ContainerRemove => python_error(
            ExceptionClass::DeleteDeploymentError,
            "Failed to remove the deployment's container"@,
        ),
        DeleteErrorKind::GetDeployment => python_error(
            ExceptionClass::DeleteDeploymentError,
            "Failed to verify the deployment's status"@,
        ),
    }
}

impl OperationFailure<DeleteErrorKind> {
    /// The Python exception that reports this failure.
    pub fn into_python_error(&self) -> (error: PythonError)
        ensures
            error@ == delete_error(self.kind, self.text@),
    {
        match &self.kind {
            DeleteErrorKind::ContainerStop => PythonError::new(
                ExceptionClass::DeleteDeploymentError,
                "Failed to stop the deployment's container",
            ),
            DeleteErrorKind::ContainerRemove => PythonError::new(
                ExceptionClass::DeleteDeploymentError,
                "Failed to remove the deployment's container",
            ),
            DeleteErrorKind::GetDeployment => PythonError::new(
                ExceptionClass::DeleteDeploymentError,
                "Failed to verify the deployment's status",
            ),
        }
    }
}

/// The exception raised when the lookup of a connection string fails with `kind`, which the
/// operation describes as `text`.
pub open spec fn connection_string_error(
    kind: ConnectionStringErrorKind,
    text: Seq<char>,
) -> PythonErrorView {
    match kind {
        ConnectionStringErrorKind::GetDeployment => python_error(
            ExceptionClass::GetConnectionStringError,
            "Failed to verify the deployment's status"@,
        ),
        ConnectionStringErrorKind::GetMongodbUsername => python_error(
            ExceptionClass::GetConnectionStringError,
            "Failed to retrieve the deployment's MongoDB username"@,
        ),
        ConnectionStringErrorKind::GetMongodbPassword => python_error(
            ExceptionClass::GetConnectionStringError,
            "Failed to retrieve the deployment's MongoDB password"@,
        ),
        ConnectionStringErrorKind::MissingPortBinding => python_error(
            ExceptionClass::GetConnectionStringError,
            "The deployment does not publish a MongoDB port, so it is only reachable from inside Docker.\nRecreate it with the port argument to connect from the host."@,
        ),
    }
}

impl OperationFailure<ConnectionStringErrorKind> {
    /// The Python exception that reports this failure.
    pub fn into_python_error(&self) -> (error: PythonError)
        ensures
            error@ == connection_string_error(self.kind, self.text@),
    {
        match &self.kind {
            ConnectionStringErrorKind::GetDeployment => PythonError::new(
                ExceptionClass::GetConnectionStringError,
                "Failed to verify the deployment's status",
            ),
            ConnectionStringErrorKind::GetMongodbUsername => PythonError::new(
                ExceptionClass::GetConnectionStringError,
                "Failed to retrieve the deployment's MongoDB username",
            ),
            ConnectionStringErrorKind::GetMongodbPassword => PythonError::new(
                ExceptionClass::GetConnectionStringError,
                "Failed to retrieve the deployment's MongoDB password",
            ),
            ConnectionStringErrorKind::MissingPortBinding => PythonError::new(
                ExceptionClass::GetConnectionStringError,
                "The deployment does not publish a MongoDB port, so it is only reachable from inside Docker.\nRecreate it with the port argument to connect from the host.",
            ),
        }
    }
}

/// The exception raised when the lookup of a deployment fails with `kind`, which the
/// operation describes as `text`.
pub open spec fn get_error(kind: GetErrorKind, text: Seq<char>) -> PythonErrorView {
    match kind {
        GetErrorKind::NotFound => python_error(
            ExceptionClass::GetDeploymentError,
            "No local Atlas deployment found with that name or container ID.\nUse list() to see the existing deployments."@,
        ),
        GetErrorKind::ContainerInspect => python_error(
            ExceptionClass::GetDeploymentError,
            "Failed to inspect the deployment's container"@,
        ),
        GetErrorKind::IntoDeployment => python_error(
            ExceptionClass::GetDeploymentError,
            "The container is not a local Atlas deployment"@,
        ),
    }
}

impl OperationFailure<GetErrorKind> {
    /// The Python exception that reports this failure.
    pub fn into_python_error(&self) -> (error: PythonError)
        ensures
            error@ == get_error(self.kind, self.text@),
    {
        match &self.kind {
            GetErrorKind::NotFound => PythonError::new(
                ExceptionClass::GetDeploymentError,
                "No local Atlas deployment found with that name or container ID.\nUse list() to see the existing deployments.",
            ),
            GetErrorKind::ContainerInspect => PythonError::new(
                ExceptionClass::GetDeploymentError,
                "Failed to inspect the deployment's container",
            ),
            GetErrorKind::IntoDeployment => PythonError::new(
                ExceptionClass::GetDeploymentError,
                "The container is not a local Atlas deployment",
            ),
        }
    }
}

/// The exception raised when the reading of logs fails with `kind`, which the
/// operation describes as `text`.
pub open spec fn logs_error(kind: LogsErrorKind, text: Seq<char>) -> PythonErrorView {
    match kind {
        LogsErrorKind::ContainerLogs => python_error(
            ExceptionClass::GetLogsError,
            "Failed to retrieve the deployment's logs"@,
        ),
    }
}

impl OperationFailure<LogsErrorKind> {
    /// The Python exception that reports this failure.
    pub fn into_python_error(&self) -> (error: PythonError)
        ensures
            error@ == logs_error(self.kind, self.text@),
    {
        match &self.kind {
            LogsErrorKind::ContainerLogs => PythonError::new(
                ExceptionClass::GetLogsError,
                "Failed to retrieve the deployment's logs",
            ),
        }
    }
}

/// The exception raised when the wait for a healthy deployment fails with `kind`, which the
/// operation describes as `text`.
pub open spec fn watch_error(kind: WatchErrorKind, text: Seq<char>) -> PythonErrorView {
    match kind {
        WatchErrorKind::ContainerInspect => python_error(
            ExceptionClass::WatchDeploymentError,
            "Failed to inspect the deployment's container"@,
        ),
        WatchErrorKind::Timeout(name) => python_error(
            ExceptionClass::DeploymentTimeoutError,
            "Deployment "@
                + name@
                + " did not become healthy within the expected time.\nIncrease wait_until_healthy_timeout, or check logs() to see what it is doing."@,
        ),
        WatchErrorKind::Unhealthy => python_error(ExceptionClass::UnhealthyDeploymentError, text),
    }
}

impl OperationFailure<WatchErrorKind> {
    /// The Python exception that reports this failure.
    pub fn into_python_error(&self) -> (error: PythonError)
        ensures
            error@ == watch_error(self.kind, self.text@),
    {
        match &self.kind {
            WatchErrorKind::ContainerInspect => PythonError::new(
                ExceptionClass::WatchDeploymentError,
                "Failed to inspect the deployment's container",
            ),
            WatchErrorKind::Timeout(name) => {
                let mut message = "Deployment ".to_owned();
                message.append(name.as_str());
                message.append(" did not become healthy within the expected time.\nIncrease wait_until_healthy_timeout, or check logs() to see what it is doing.");
                PythonError { class: ExceptionClass::DeploymentTimeoutError, message }
            },
            WatchErrorKind::Unhealthy => PythonError::new(
                ExceptionClass::UnhealthyDeploymentError,
                self.text.as_str(),
            ),
        }
    }
}

/// The exception raised when the start of a deployment fails with `kind`, which the
/// operation describes as `text`.
pub open spec fn start_error(kind: StartErrorKind, text: Seq<char>) -> PythonErrorView {
    match kind {
        StartErrorKind::ContainerStart => python_error(
            ExceptionClass::StartDeploymentError,
            "Failed to start the deployment.\nA paused deployment cannot be started; use unpause() instead."@,
        ),
        StartErrorKind::GetDeployment => python_error(
            ExceptionClass::StartDeploymentError,
            "Failed to verify the deployment's status"@,
        ),
        StartErrorKind::WatchDeployment => python_error(
            ExceptionClass::StartDeploymentError,
            "The deployment was started but did not become healthy within the expected time"@,
        ),
    }
}

impl OperationFailure<StartErrorKind> {
    /// The Python exception that reports this failure.
    pub fn into_python_error(&self) -> (error: PythonError)
        ensures
            error@ == start_error(self.kind, self.text@),
    {
        match &self.kind {
            StartErrorKind::ContainerStart => PythonError::new(
                ExceptionClass::StartDeploymentError,
                "Failed to start the deployment.\nA paused deployment cannot be started; use unpause() instead.",
            ),
            StartErrorKind::GetDeployment => PythonError::new(
                ExceptionClass::StartDeploymentError,
                "Failed to verify the deployment's status",
            ),
            StartErrorKind::WatchDeployment => PythonError::new(
                ExceptionClass::StartDeploymentError,
                "The deployment was started but did not become healthy within the expected time",
            ),
        }
    }
}

/// The exception raised when the stop of a deployment fails with `kind`, which the
/// operation describes as `text`.
pub open spec fn stop_error(kind: StopErrorKind, text: Seq<char>) -> PythonErrorView {
    match kind {
        StopErrorKind::ContainerStop => python_error(
            ExceptionClass::StopDeploymentError,
            "Failed to stop the deployment's container"@,
        ),
        StopErrorKind::GetDeployment => python_error(
            ExceptionClass::StopDeploymentError,
            "Failed to verify the deployment's status"@,
        ),
    }
}

impl OperationFailure<StopErrorKind> {
    /// The Python exception that reports this failure.
    pub fn into_python_error(&self) -> (error: PythonError)
        ensures
            error@ == stop_error(self.kind, self.text@),
    {
        match &self.kind {
            StopErrorKind::ContainerStop => PythonError::new(
                ExceptionClass::StopDeploymentError,
                "Failed to stop the deployment's container",
            ),
            StopErrorKind::GetDeployment => PythonError::new(
                ExceptionClass::StopDeploymentError,
                "Failed to verify the deployment's status",
            ),
        }
    }
}

/// The exception raised when the pause of a deployment fails with `kind`, which the
/// operation describes as `text`.
pub open spec fn pause_error(kind: PauseErrorKind, text: Seq<char>) -> PythonErrorView {
    match kind {
        PauseErrorKind::ContainerPause => python_error(
            ExceptionClass::PauseDeploymentError,
            "Failed to pause the deployment's container"@,
        ),
        PauseErrorKind::GetDeployment => python_error(
            ExceptionClass::PauseDeploymentError,
            "Failed to verify the deployment's status"@,
        ),
    }
}

impl OperationFailure<PauseErrorKind> {
    /// The Python exception that reports this failure.
    pub fn into_python_error(&self) -> (error: PythonError)
        ensures
            error@ == pause_error(self.kind, self.text@),
    {
        match &self.kind {
            PauseErrorKind::ContainerPause => PythonError::new(
                ExceptionClass::PauseDeploymentError,
                "Failed to pause the deployment's container",
            ),
            PauseErrorKind::GetDeployment => PythonError::new(
                ExceptionClass::PauseDeploymentError,
                "Failed to verify the deployment's status",
            ),
        }
    }
}

/// The exception raised when the unpause of a deployment fails with `kind`, which the
/// operation describes as `text`.
pub open spec fn unpause_error(kind: UnpauseErrorKind, text: Seq<char>) -> PythonErrorView {
    match kind {
        UnpauseErrorKind::ContainerUnpause => python_error(
            ExceptionClass::UnpauseDeploymentError,
            text,
        ),
        UnpauseErrorKind::GetDeployment => python_error(
            ExceptionClass::UnpauseDeploymentError,
            "Failed to verify the deployment's status"@,
        ),
    }
}

impl OperationFailure<UnpauseErrorKind> {
    /// The Python exception that reports this failure.
    pub fn into_python_error(&self) -> (error: PythonError)
        ensures
            error@ == unpause_error(self.kind, self.text@),
    {
        match &self.kind {
            UnpauseErrorKind::ContainerUnpause => PythonError::new(
                ExceptionClass::UnpauseDeploymentError,
                self.text.as_str(),
            ),
            UnpauseErrorKind::GetDeployment => PythonError::new(
                ExceptionClass::UnpauseDeploymentError,
                "Failed to verify the deployment's status",
            ),
        }
    }
}

impl OperationFailure<CreateErrorKind> {
    /// Describes a failure of `atlas_local`'s creation of a deployment: its kind, as the
    /// classifier of the error's variants names it, and the text that the error's `Display`
    /// gives.
    pub fn from_atlas(error: CreateDeploymentError) -> (failure: Self)
        ensures
            to_string_from_display_ensures::<CreateDeploymentError>(&error, failure.text),
            failure.kind == create_deployment_kind(error),
    {
        let text = error.to_string();
        OperationFailure { kind: kind_of_create_deployment_error(error), text }
    }
}

impl OperationFailure<DeleteErrorKind> {
    /// Describes a failure of `atlas_local`'s deletion of a deployment: its kind, as the
    /// classifier of the error's variants names it, and the text that the error's `Display`
    /// gives.
    pub fn from_atlas(error: DeleteDeploymentError) -> (failure: Self)
        ensures
            to_string_from_display_ensures::<DeleteDeploymentError>(&error, failure.text),
            failure.kind == delete_deployment_kind(error),
    {
        let text = error.to_string();
        OperationFailure { kind: kind_of_delete_deployment_error(error), text }
    }
}

impl OperationFailure<ConnectionStringErrorKind> {
    /// Describes a failure of `atlas_local`'s lookup of a connection string: its kind, as the
    /// classifier of the error's variants names it, and the text that the error's `Display`
    /// gives.
    pub fn from_atlas(error: GetConnectionStringError) -> (failure: Self)
        ensures
            to_string_from_display_ensures::<GetConnectionStringError>(&error, failure.text),
            failure.kind == get_connection_string_kind(error),
    {
        let text = error.to_string();
        OperationFailure { kind: kind_of_get_connection_string_error(error), text }
    }
}

impl OperationFailure<GetErrorKind> {
    /// Describes a failure of `atlas_local`'s lookup of a deployment: its kind, as the
    /// classifier of the error's variants names it, and the text that the error's `Display`
    /// gives.
    pub fn from_atlas(error: GetDeploymentError) -> (failure: Self)
        ensures
            to_string_from_display_ensures::<GetDeploymentError>(&error, failure.text),
            failure.kind == get_deployment_kind(error),
    {
        let text = error.to_string();
        OperationFailure { kind: kind_of_get_deployment_error(error), text }
    }
}

impl OperationFailure<LogsErrorKind> {
    /// Describes a failure of `atlas_local`'s reading of logs: its kind, as the classifier of
    /// the error's variants names it, and the text that the error's `Display` gives.
    pub fn from_atlas(error: GetLogsError) -> (failure: Self)
        ensures
            to_string_from_display_ensures::<GetLogsError>(&error, failure.text),
            failure.kind == get_logs_kind(error),
    {
        let text = error.to_string();
        OperationFailure { kind: kind_of_get_logs_error(error), text }
    }
}

impl OperationFailure<WatchErrorKind> {
    /// Describes a failure of `atlas_local`'s wait for a healthy deployment: its kind, as the
    /// classifier of the error's variants names it, and the text that the error's `Display`
    /// gives.
    pub fn from_atlas(error: WatchDeploymentError) -> (failure: Self)
        ensures
            to_string_from_display_ensures::<WatchDeploymentError>(&error, failure.text),
            failure.kind == watch_deployment_kind(error),
    {
        let text = error.to_string();
        OperationFailure { kind: kind_of_watch_deployment_error(error), text }
    }
}

impl OperationFailure<StartErrorKind> {
    /// Describes a failure of `atlas_local`'s start of a deployment: its kind, as the
    /// classifier of the error's variants names it, and the text that the error's `Display`
    /// gives.
    pub fn from_atlas(error: StartDeploymentError) -> (failure: Self)
        ensures
            to_string_from_display_ensures::<StartDeploymentError>(&error, failure.text),
            failure.kind == start_deployment_kind(error),
    {
        let text = error.to_string();
        OperationFailure { kind: kind_of_start_deployment_error(error), text }
    }
}

impl OperationFailure<StopErrorKind> {
    /// Describes a failure of `atlas_local`'s stop of a deployment: its kind, as the classifier
    /// of the error's variants names it, and the text that the error's `Display` gives.
    pub fn from_atlas(error: StopDeploymentError) -> (failure: Self)
        ensures
            to_string_from_display_ensures::<StopDeploymentError>(&error, failure.text),
            failure.kind == stop_deployment_kind(error),
    {
        let text = error.to_string();
        OperationFailure { kind: kind_of_stop_deployment_error(error), text }
    }
}

impl OperationFailure<PauseErrorKind> {
    /// Describes a failure of `atlas_local`'s pause of a deployment: its kind, as the
    /// classifier of the error's variants names it, and the text that the error's `Display`
    /// gives.
    pub fn from_atlas(error: PauseDeploymentError) -> (failure: Self)
        ensures
            to_string_from_display_ensures::<PauseDeploymentError>(&error, failure.text),
            failure.kind == pause_deployment_kind(error),
    {
        let text = error.to_string();
        OperationFailure { kind: kind_of_pause_deployment_error(error), text }
    }
}

impl OperationFailure<UnpauseErrorKind> {
    /// Describes a failure of `atlas_local`'s unpause of a deployment: its kind, as the
    /// classifier of the error's variants names it, and the text that the error's `Display`
    /// gives.
    pub fn from_atlas(error: UnpauseDeploymentError) -> (failure: Self)
        ensures
            to_string_from_display_ensures::<UnpauseDeploymentError>(&error, failure.text),
            failure.kind == unpause_deployment_kind(error),
    {
        let text = error.to_string();
        OperationFailure { kind: kind_of_unpause_deployment_error(error), text }
    }
}
} // verus!

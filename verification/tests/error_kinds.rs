use atlas_local_lib_py::python_error::{
    ConnectionStringErrorKind, CreateErrorKind, DeleteErrorKind, ExceptionClass, GetErrorKind,
    LogsErrorKind, OperationFailure, PauseErrorKind, PythonError, StartErrorKind, StopErrorKind,
    UnpauseErrorKind, WatchErrorKind,
};

const TEXT: &str = "what the operation said";

fn failure<K>(kind: K) -> OperationFailure<K> {
    OperationFailure {
        kind,
        text: TEXT.to_owned(),
    }
}

fn check(error: PythonError, class: ExceptionClass, message: &str) {
    assert_eq!(error.class, class);
    assert_eq!(error.message, message);
    assert!(error.class.is_instance_of(&ExceptionClass::DeploymentError));
}

#[test]
fn test_every_create_failure() {
    let verify = "The deployment was created but its status could not be verified";
    check(failure(CreateErrorKind::WatchTimeout).into_python_error(), ExceptionClass::DeploymentTimeoutError, TEXT);
    check(failure(CreateErrorKind::WatchUnhealthy).into_python_error(), ExceptionClass::UnhealthyDeploymentError, TEXT);
    check(failure(CreateErrorKind::WatchInspect).into_python_error(), ExceptionClass::CreateDeploymentError, verify);
    check(failure(CreateErrorKind::CreateContainer).into_python_error(), ExceptionClass::CreateDeploymentError, TEXT);
    check(
        failure(CreateErrorKind::PullImage).into_python_error(),
        ExceptionClass::CreateDeploymentError,
        "Failed to pull the deployment's image.\nCheck your network connection and that the image and image_tag exist.",
    );
    check(
        failure(CreateErrorKind::ContainerAlreadyExists("db".to_owned())).into_python_error(),
        ExceptionClass::CreateDeploymentError,
        "A deployment named \"db\" already exists.\nDelete it first, or use get_or_create() to reuse it.",
    );
    check(
        failure(CreateErrorKind::ContainerInspect).into_python_error(),
        ExceptionClass::CreateDeploymentError,
        "Failed to inspect the deployment's container",
    );
    check(
        failure(CreateErrorKind::UnhealthyDeployment).into_python_error(),
        ExceptionClass::CreateDeploymentError,
        "The deployment was created but ended up in an unhealthy state. \nInspect logs() for additional details.",
    );
    check(failure(CreateErrorKind::GetDeployment).into_python_error(), ExceptionClass::CreateDeploymentError, verify);
    check(
        failure(CreateErrorKind::ReceiveDeployment).into_python_error(),
        ExceptionClass::CreateDeploymentError,
        "Failed to receive confirmation of the created deployment",
    );
    check(
        failure(CreateErrorKind::InvalidImage("mongo:8".to_owned())).into_python_error(),
        ExceptionClass::CreateDeploymentError,
        "The image \"mongo:8\" must not include a tag.\nUse the `image_tag` field to specify a tag.",
    );
}

#[test]
fn test_every_lifecycle_failure() {
    let verify = "Failed to verify the deployment's status";
    check(failure(DeleteErrorKind::ContainerStop).into_python_error(), ExceptionClass::DeleteDeploymentError, "Failed to stop the deployment's container");
    check(failure(DeleteErrorKind::ContainerRemove).into_python_error(), ExceptionClass::DeleteDeploymentError, "Failed to remove the deployment's container");
    check(failure(DeleteErrorKind::GetDeployment).into_python_error(), ExceptionClass::DeleteDeploymentError, verify);
    check(failure(StartErrorKind::ContainerStart).into_python_error(), ExceptionClass::StartDeploymentError, "Failed to start the deployment.\nA paused deployment cannot be started; use unpause() instead.");
    check(failure(StartErrorKind::GetDeployment).into_python_error(), ExceptionClass::StartDeploymentError, verify);
    check(failure(StartErrorKind::WatchDeployment).into_python_error(), ExceptionClass::StartDeploymentError, "The deployment was started but did not become healthy within the expected time");
    check(failure(StopErrorKind::ContainerStop).into_python_error(), ExceptionClass::StopDeploymentError, "Failed to stop the deployment's container");
    check(failure(StopErrorKind::GetDeployment).into_python_error(), ExceptionClass::StopDeploymentError, verify);
    check(failure(PauseErrorKind::ContainerPause).into_python_error(), ExceptionClass::PauseDeploymentError, "Failed to pause the deployment's container");
    check(failure(PauseErrorKind::GetDeployment).into_python_error(), ExceptionClass::PauseDeploymentError, verify);
    check(failure(UnpauseErrorKind::ContainerUnpause).into_python_error(), ExceptionClass::UnpauseDeploymentError, TEXT);
    check(failure(UnpauseErrorKind::GetDeployment).into_python_error(), ExceptionClass::UnpauseDeploymentError, verify);
}

#[test]
fn test_every_lookup_failure() {
    check(
        failure(GetErrorKind::NotFound).into_python_error(),
        ExceptionClass::GetDeploymentError,
        "No local Atlas deployment found with that name or container ID.\nUse list() to see the existing deployments.",
    );
    check(failure(GetErrorKind::ContainerInspect).into_python_error(), ExceptionClass::GetDeploymentError, "Failed to inspect the deployment's container");
    check(failure(GetErrorKind::IntoDeployment).into_python_error(), ExceptionClass::GetDeploymentError, "The container is not a local Atlas deployment");
    check(failure(LogsErrorKind::ContainerLogs).into_python_error(), ExceptionClass::GetLogsError, "Failed to retrieve the deployment's logs");
    check(failure(ConnectionStringErrorKind::GetDeployment).into_python_error(), ExceptionClass::GetConnectionStringError, "Failed to verify the deployment's status");
    check(failure(ConnectionStringErrorKind::GetMongodbUsername).into_python_error(), ExceptionClass::GetConnectionStringError, "Failed to retrieve the deployment's MongoDB username");
    check(failure(ConnectionStringErrorKind::GetMongodbPassword).into_python_error(), ExceptionClass::GetConnectionStringError, "Failed to retrieve the deployment's MongoDB password");
    check(
        failure(ConnectionStringErrorKind::MissingPortBinding).into_python_error(),
        ExceptionClass::GetConnectionStringError,
        "The deployment does not publish a MongoDB port, so it is only reachable from inside Docker.\nRecreate it with the port argument to connect from the host.",
    );
    check(failure(WatchErrorKind::ContainerInspect).into_python_error(), ExceptionClass::WatchDeploymentError, "Failed to inspect the deployment's container");
    check(
        failure(WatchErrorKind::Timeout("db".to_owned())).into_python_error(),
        ExceptionClass::DeploymentTimeoutError,
        "Deployment db did not become healthy within the expected time.\nIncrease wait_until_healthy_timeout, or check logs() to see what it is doing.",
    );
    check(failure(WatchErrorKind::Unhealthy).into_python_error(), ExceptionClass::UnhealthyDeploymentError, TEXT);
}

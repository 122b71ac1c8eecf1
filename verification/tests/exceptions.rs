use atlas_local::ContainerHealthStatus;
use atlas_local::DockerError as RsDockerError;
use atlas_local::client::{
    CreateDeploymentError as RsCreateDeploymentError,
    DeleteDeploymentError as RsDeleteDeploymentError,
    GetConnectionStringError as RsGetConnectionStringError,
    GetDeploymentError as RsGetDeploymentError, GetLogsError as RsGetLogsError,
    PauseDeploymentError as RsPauseDeploymentError,
    StartDeploymentError as RsStartDeploymentError,
    StopDeploymentError as RsStopDeploymentError,
    UnpauseDeploymentError as RsUnpauseDeploymentError,
    WatchDeploymentError as RsWatchDeploymentError,
};
use atlas_local_lib_py::python_error::{
    ConnectionStringFailure, CreateDeploymentFailure, DeleteDeploymentFailure, ExceptionClass,
    GetDeploymentFailure, LogsFailure, PauseDeploymentFailure, StartDeploymentFailure,
    StopDeploymentFailure, UnpauseDeploymentFailure, WatchDeploymentFailure,
    docker_connection_error, exported_classes, runtime_start_error,
};

#[test]
fn test_create_deployment_server_error_into_pyerr() {
    let error = RsCreateDeploymentError::CreateContainer(RsDockerError::ServerError);

    let py_error = CreateDeploymentFailure::from_atlas(error).into_python_error();
    assert!(py_error.class.is_instance_of(&ExceptionClass::CreateDeploymentError));
    assert_eq!(py_error.message, "Failed to create container: internal server error");
}

#[test]
fn test_create_deployment_other_error_into_pyerr() {
    let error = RsCreateDeploymentError::CreateContainer(RsDockerError::Other {
        status_code: Some(503),
        message: ("Service Unavailable").to_string(),
    });

    let py_error = CreateDeploymentFailure::from_atlas(error).into_python_error();
    assert!(py_error.class.is_instance_of(&ExceptionClass::CreateDeploymentError));
    assert_eq!(
        py_error.message,
        "Failed to create container: docker error (status Some(503)): Service Unavailable"
    );
}

#[test]
fn test_container_unpause_error_into_pyerr() {
    let error = RsUnpauseDeploymentError::ContainerUnpause("container is not paused".to_string());

    let py_error = UnpauseDeploymentFailure::from_atlas(error).into_python_error();
    assert!(py_error.class.is_instance_of(&ExceptionClass::UnpauseDeploymentError));
    assert_eq!(py_error.message, "Failed to unpause container: container is not paused");
}

#[test]
fn test_watch_deployment_unhealthy_error_into_pyerr() {
    let error = RsWatchDeploymentError::UnhealthyDeployment {
        deployment_name: "test_deployment".to_string(),
        status: (ContainerHealthStatus::Unhealthy),
    };

    let py_error = WatchDeploymentFailure::from_atlas(error).into_python_error();
    assert!(py_error.class.is_instance_of(&ExceptionClass::UnhealthyDeploymentError));
    assert_eq!(
        py_error.message,
        "Deployment test_deployment is not healthy [status: unhealthy]"
    );
}

#[test]
fn test_create_timeout_maps_to_timeout_error() {
    let error = RsCreateDeploymentError::WatchDeployment(RsWatchDeploymentError::Timeout {
        deployment_name: "test_deployment".to_owned(),
    });

    let py_error = CreateDeploymentFailure::from_atlas(error).into_python_error();

    assert!(py_error.class.is_instance_of(&ExceptionClass::DeploymentTimeoutError));
    assert_eq!(
        py_error.message,
        "Error when waiting for deployment to become healthy: \
        Timeout while waiting for container test_deployment to become healthy"
    );
}

#[test]
fn test_create_unhealthy_maps_to_unhealthy_error() {
    let error =
        RsCreateDeploymentError::WatchDeployment(RsWatchDeploymentError::UnhealthyDeployment {
            deployment_name: "test_deployment".to_owned(),
            status: ContainerHealthStatus::Unhealthy,
        });

    let py_error = CreateDeploymentFailure::from_atlas(error).into_python_error();

    assert!(py_error.class.is_instance_of(&ExceptionClass::UnhealthyDeploymentError));
    assert_eq!(
        py_error.message,
        "Error when waiting for deployment to become healthy: \
        Deployment test_deployment is not healthy [status: unhealthy]"
    );
}

#[test]
fn test_macro_generated_mappings() {
    let docker_error = || RsDockerError::ServerError;

    assert!(
        GetDeploymentFailure::from_atlas(RsGetDeploymentError::ContainerInspect(docker_error()))
            .into_python_error()
            .class
            .is_instance_of(&ExceptionClass::GetDeploymentError)
    );
    assert!(
        StartDeploymentFailure::from_atlas(RsStartDeploymentError::ContainerStart("error".into()))
            .into_python_error()
            .class
            .is_instance_of(&ExceptionClass::StartDeploymentError)
    );
    assert!(
        StopDeploymentFailure::from_atlas(RsStopDeploymentError::ContainerStop("error".into()))
            .into_python_error()
            .class
            .is_instance_of(&ExceptionClass::StopDeploymentError)
    );
    assert!(
        LogsFailure::from_atlas(RsGetLogsError::ContainerLogs("error".into()))
            .into_python_error()
            .class
            .is_instance_of(&ExceptionClass::GetLogsError)
    );
}

#[test]
fn test_container_already_exists_names_the_deployment() {
    let error = RsCreateDeploymentError::ContainerAlreadyExists("my \"db\"".to_owned());

    let py_error = CreateDeploymentFailure::from_atlas(error).into_python_error();
    assert_eq!(py_error.class, ExceptionClass::CreateDeploymentError);
    assert_eq!(
        py_error.message,
        "A deployment named \"my \\\"db\\\"\" already exists.\n\
         Delete it first, or use get_or_create() to reuse it."
    );
}

#[test]
fn test_invalid_image_names_the_image() {
    let error = RsCreateDeploymentError::InvalidImage("mongo:8".to_owned());

    let py_error = CreateDeploymentFailure::from_atlas(error).into_python_error();
    assert_eq!(py_error.class, ExceptionClass::CreateDeploymentError);
    assert_eq!(
        py_error.message,
        "The image \"mongo:8\" must not include a tag.\n\
         Use the `image_tag` field to specify a tag."
    );
}

#[test]
fn test_missing_deployment_is_reported() {
    let error = RsGetDeploymentError::ContainerInspect(RsDockerError::NotFound);

    let py_error = GetDeploymentFailure::from_atlas(error).into_python_error();
    assert_eq!(py_error.class, ExceptionClass::GetDeploymentError);
    assert_eq!(
        py_error.message,
        "No local Atlas deployment found with that name or container ID.\n\
         Use list() to see the existing deployments."
    );
}

#[test]
fn test_watch_timeout_names_the_deployment() {
    let error = RsWatchDeploymentError::Timeout {
        deployment_name: "db".to_owned(),
    };

    let py_error = WatchDeploymentFailure::from_atlas(error).into_python_error();
    assert!(py_error.class.is_instance_of(&ExceptionClass::WatchDeploymentError));
    assert_eq!(py_error.class, ExceptionClass::DeploymentTimeoutError);
    assert_eq!(
        py_error.message,
        "Deployment db did not become healthy within the expected time.\n\
         Increase wait_until_healthy_timeout, or check logs() to see what it is doing."
    );
}

#[test]
fn test_other_operation_errors() {
    let delete = DeleteDeploymentFailure::from_atlas(RsDeleteDeploymentError::ContainerRemove(
        RsDockerError::Conflict,
    ))
    .into_python_error();
    assert_eq!(delete.class, ExceptionClass::DeleteDeploymentError);
    assert_eq!(delete.message, "Failed to remove the deployment's container");

    let connection = ConnectionStringFailure::from_atlas(
        RsGetConnectionStringError::MissingPortBinding,
    )
    .into_python_error();
    assert_eq!(connection.class, ExceptionClass::GetConnectionStringError);
    assert!(connection.message.starts_with("The deployment does not publish a MongoDB port"));

    let pause = PauseDeploymentFailure::from_atlas(RsPauseDeploymentError::ContainerPause(
        "busy".into(),
    ))
    .into_python_error();
    assert_eq!(pause.class, ExceptionClass::PauseDeploymentError);
    assert_eq!(pause.message, "Failed to pause the deployment's container");

    let start = StartDeploymentFailure::from_atlas(RsStartDeploymentError::ContainerStart(
        "paused".into(),
    ))
    .into_python_error();
    assert_eq!(
        start.message,
        "Failed to start the deployment.\n\
         A paused deployment cannot be started; use unpause() instead."
    );
}

#[test]
fn test_class_hierarchy() {
    assert!(ExceptionClass::DeploymentTimeoutError.is_instance_of(&ExceptionClass::AtlasLocalError));
    assert!(ExceptionClass::UnhealthyDeploymentError
        .is_instance_of(&ExceptionClass::WatchDeploymentError));
    assert!(!ExceptionClass::DockerConnectionError.is_instance_of(&ExceptionClass::DeploymentError));
    assert!(!ExceptionClass::ValueError.is_instance_of(&ExceptionClass::AtlasLocalError));
    assert_eq!(ExceptionClass::GetLogsError.base(), Some(ExceptionClass::DeploymentError));
    for class in exported_classes() {
        assert!(class.is_instance_of(&ExceptionClass::AtlasLocalError), "{}", class.name());
    }
    assert_eq!(exported_classes().len(), 15);
}

#[test]
fn test_connection_and_runtime_errors() {
    let error = docker_connection_error("socket missing");
    assert_eq!(error.class, ExceptionClass::DockerConnectionError);
    assert_eq!(
        error.message,
        "Could not connect to Docker.\nMake sure Docker is installed and running: \
         https://docs.docker.com/get-docker/\nDetails: socket missing"
    );

    let error = runtime_start_error("no threads");
    assert_eq!(error.class, ExceptionClass::RuntimeError);
    assert!(error.message.ends_with("Original error: no threads"));
}

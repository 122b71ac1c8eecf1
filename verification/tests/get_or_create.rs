use atlas_local::DockerError;
use atlas_local::client::{CreateDeploymentError, GetDeploymentError};
use atlas_local_lib_py::get_or_create::{
    GetOrCreateAction, GetOrCreateDeploymentError, GetOrCreateEvent, GetOrCreateState,
    find_deployment, get_or_create_start, get_or_create_step,
};
use atlas_local_lib_py::models::{
    BindingType, CreateDeploymentOptions, Deployment, MongodbType, PortBinding, State,
};
use atlas_local_lib_py::python_error::{
    CreateDeploymentFailure, ExceptionClass, GetDeploymentFailure, GetErrorKind,
};

fn deployment(name: &str) -> Deployment {
    Deployment {
        container_id: "id-1".to_owned(),
        name: Some(name.to_owned()),
        state: State::Running,
        port_bindings: Some(PortBinding::new(Some(27017), BindingType::Loopback)),
        image: None,
        image_tag: None,
        mongodb_type: MongodbType::Community,
        mongodb_version: "8.0.4".to_owned(),
        creation_source: None,
        local_seed_location: None,
        mongodb_initdb_database: None,
        mongodb_initdb_root_password_file: None,
        mongodb_initdb_root_password: None,
        mongodb_initdb_root_username_file: None,
        mongodb_initdb_root_username: None,
        mongodb_load_sample_data: None,
        voyage_api_key: None,
        embedding_provider_endpoint: None,
        mongot_log_file: None,
        runner_log_file: None,
        do_not_track: false,
        telemetry_base_url: None,
    }
}

fn not_found() -> GetDeploymentFailure {
    GetDeploymentFailure::from_atlas(GetDeploymentError::ContainerInspect(DockerError::NotFound))
}

fn options_asking_for_port(port: u16) -> CreateDeploymentOptions {
    CreateDeploymentOptions {
        name: Some("db".to_owned()),
        mongodb_port_binding: Some(PortBinding::new(Some(port), BindingType::Loopback)),
        ..CreateDeploymentOptions::empty()
    }
}

#[test]
fn test_not_found_is_no_deployment() {
    assert!(matches!(find_deployment(Err(not_found())), Ok(None)));
    assert_eq!(not_found().kind, GetErrorKind::NotFound);

    let failure = GetDeploymentFailure::from_atlas(GetDeploymentError::ContainerInspect(
        DockerError::ServerError,
    ));
    assert!(matches!(find_deployment(Err(failure)), Err(_)));
    assert!(matches!(find_deployment(Ok(deployment("db"))), Ok(Some(_))));
}

#[test]
fn test_existing_matching_deployment_is_reused() {
    let options = options_asking_for_port(27017);
    let (state, action) = get_or_create_start();
    assert!(matches!(action, GetOrCreateAction::GetDeployment));

    let (state, action) =
        get_or_create_step("db", &options, state, GetOrCreateEvent::Looked(Ok(deployment("db"))));
    assert!(matches!(state, GetOrCreateState::Done));
    match action {
        GetOrCreateAction::Finish(Ok(found)) => assert_eq!(found.container_id, "id-1"),
        _ => panic!("the deployment should be reused"),
    }
}

#[test]
fn test_existing_mismatching_deployment_is_refused() {
    let options = options_asking_for_port(27018);
    let (state, _) = get_or_create_start();

    let (_, action) =
        get_or_create_step("db", &options, state, GetOrCreateEvent::Looked(Ok(deployment("db"))));
    match action {
        GetOrCreateAction::Finish(Err(error)) => {
            let error = error.into_python_error();
            assert_eq!(error.class, ExceptionClass::ValueError);
            assert_eq!(
                error.message,
                "Deployment \"db\" already exists and does not match the requested options: \
                 port. Delete it first or omit the conflicting options."
            );
        }
        _ => panic!("the deployment should be refused"),
    }
}

#[test]
fn test_missing_deployment_is_created() {
    let options = options_asking_for_port(27017);
    let (state, _) = get_or_create_start();

    let (state, action) =
        get_or_create_step("db", &options, state, GetOrCreateEvent::Looked(Err(not_found())));
    assert!(matches!(state, GetOrCreateState::Creating));
    assert!(matches!(action, GetOrCreateAction::CreateDeployment));

    let (state, action) =
        get_or_create_step("db", &options, state, GetOrCreateEvent::Created(Ok(deployment("db"))));
    assert!(matches!(state, GetOrCreateState::Done));
    assert!(matches!(action, GetOrCreateAction::Finish(Ok(_))));
}

#[test]
fn test_deployment_created_meanwhile_is_looked_up_again() {
    let options = options_asking_for_port(27017);
    let (state, _) = get_or_create_start();
    let (state, _) =
        get_or_create_step("db", &options, state, GetOrCreateEvent::Looked(Err(not_found())));

    let exists = CreateDeploymentFailure::from_atlas(
        CreateDeploymentError::ContainerAlreadyExists("db".to_owned()),
    );
    let (state, action) =
        get_or_create_step("db", &options, state, GetOrCreateEvent::Created(Err(exists)));
    assert!(matches!(state, GetOrCreateState::LookingUpAgain(_)));
    assert!(matches!(action, GetOrCreateAction::GetDeployment));

    let (state, action) =
        get_or_create_step("db", &options, state, GetOrCreateEvent::Looked(Ok(deployment("db"))));
    assert!(matches!(state, GetOrCreateState::Done));
    assert!(matches!(action, GetOrCreateAction::Finish(Ok(_))));
}

#[test]
fn test_vanished_deployment_reports_the_creation_failure() {
    let options = options_asking_for_port(27017);
    let exists = CreateDeploymentFailure::from_atlas(
        CreateDeploymentError::ContainerAlreadyExists("db".to_owned()),
    );
    let (state, action) = get_or_create_step(
        "db",
        &options,
        GetOrCreateState::LookingUpAgain(exists),
        GetOrCreateEvent::Looked(Err(not_found())),
    );
    assert!(matches!(state, GetOrCreateState::Done));
    match action {
        GetOrCreateAction::Finish(Err(GetOrCreateDeploymentError::Create(failure))) => {
            let error = failure.into_python_error();
            assert_eq!(error.class, ExceptionClass::CreateDeploymentError);
            assert!(error.message.starts_with("A deployment named \"db\" already exists."));
        }
        _ => panic!("the creation failure should be reported"),
    }
}

#[test]
fn test_other_failures_end_the_attempt() {
    let options = options_asking_for_port(27017);
    let failure = GetDeploymentFailure::from_atlas(GetDeploymentError::ContainerInspect(
        DockerError::Unauthorized,
    ));
    let (state, action) = get_or_create_step(
        "db",
        &options,
        GetOrCreateState::LookingUp,
        GetOrCreateEvent::Looked(Err(failure)),
    );
    assert!(matches!(state, GetOrCreateState::Done));
    match action {
        GetOrCreateAction::Finish(Err(error)) => {
            let error = error.into_python_error();
            assert_eq!(error.class, ExceptionClass::GetDeploymentError);
            assert_eq!(error.message, "Failed to inspect the deployment's container");
        }
        _ => panic!("the lookup failure should be reported"),
    }

    let failure = CreateDeploymentFailure::from_atlas(CreateDeploymentError::InvalidImage(
        "mongo:8".to_owned(),
    ));
    let (state, action) = get_or_create_step(
        "db",
        &options,
        GetOrCreateState::Creating,
        GetOrCreateEvent::Created(Err(failure)),
    );
    assert!(matches!(state, GetOrCreateState::Done));
    assert!(matches!(
        action,
        GetOrCreateAction::Finish(Err(GetOrCreateDeploymentError::Create(_)))
    ));
}

#[test]
fn test_reuse_is_repeatable() {
    let options = options_asking_for_port(27017);
    for _ in 0..2 {
        let (state, _) = get_or_create_start();
        let (state, action) = get_or_create_step(
            "db",
            &options,
            state,
            GetOrCreateEvent::Looked(Ok(deployment("db"))),
        );
        assert!(matches!(state, GetOrCreateState::Done));
        match action {
            GetOrCreateAction::Finish(Ok(found)) => assert_eq!(found.container_id, "id-1"),
            _ => panic!("the deployment should be reused every time"),
        }
    }
}

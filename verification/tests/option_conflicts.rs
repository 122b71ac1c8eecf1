use atlas_local_lib_py::models::{
    BindingType, CreateDeploymentOptions, Deployment, ImageTag, IpAddress, MongodbType,
    PortBinding, State,
};
use atlas_local_lib_py::option_conflicts::{compare, compare_port_binding, ensure_options_match};
use atlas_local_lib_py::python_error::ExceptionClass;

fn ipv4(a: u8, b: u8, c: u8, d: u8) -> IpAddress {
    IpAddress::V4(u32::from_be_bytes([a, b, c, d]))
}

fn deployment_fixture() -> Deployment {
    Deployment {
        container_id: "a-container-id".to_owned(),
        name: Some("a-deployment".to_owned()),
        state: State::Running,
        port_bindings: Some(PortBinding::new(
            Some(27017),
            BindingType::Specific { ip: ipv4(1, 2, 3, 4) },
        )),
        image: Some("an-image".to_owned()),
        image_tag: Some(ImageTag::Latest),
        mongodb_type: MongodbType::Community,
        mongodb_version: "8.0.0".to_owned(),
        creation_source: None,
        local_seed_location: Some("/seed".to_owned()),
        mongodb_initdb_database: None,
        mongodb_initdb_root_password_file: None,
        mongodb_initdb_root_password: Some("a-password".to_owned()),
        mongodb_initdb_root_username_file: None,
        mongodb_initdb_root_username: Some("a-username".to_owned()),
        mongodb_load_sample_data: Some(true),
        voyage_api_key: Some("a-key".to_owned()),
        embedding_provider_endpoint: None,
        mongot_log_file: None,
        runner_log_file: None,
        do_not_track: true,
        telemetry_base_url: None,
    }
}

fn requested_options_matching() -> CreateDeploymentOptions {
    CreateDeploymentOptions {
        name: Some("a-deployment".to_owned()),
        image: Some("an-image".to_owned()),
        image_tag: Some(ImageTag::Latest),
        mongodb_port_binding: Some(PortBinding::new(
            Some(27017),
            BindingType::Specific { ip: ipv4(1, 2, 3, 4) },
        )),
        local_seed_location: Some("/seed".to_owned()),
        load_sample_data: Some(true),
        mongodb_initdb_root_username: Some("a-username".to_owned()),
        mongodb_initdb_root_password: Some("a-password".to_owned()),
        voyage_api_key: Some("a-key".to_owned()),
        do_not_track: Some(true),
        ..CreateDeploymentOptions::empty()
    }
}

fn requested_options_not_matching() -> CreateDeploymentOptions {
    CreateDeploymentOptions {
        name: Some("another-deployment".to_owned()),
        image: Some("another-image".to_owned()),
        image_tag: Some(ImageTag::Preview),
        mongodb_port_binding: Some(PortBinding::new(Some(27018), BindingType::AnyInterface)),
        local_seed_location: Some("/another_seed".to_owned()),
        load_sample_data: Some(false),
        mongodb_initdb_root_username: Some("another-username".to_owned()),
        mongodb_initdb_root_password: Some("another-password".to_owned()),
        voyage_api_key: Some("another-key".to_owned()),
        do_not_track: Some(false),
        ..CreateDeploymentOptions::empty()
    }
}

#[test]
fn test_fully_matching_deployment_accepted() {
    let result = ensure_options_match(
        "a-deployment",
        &deployment_fixture(),
        &requested_options_matching(),
    );

    assert!(result.is_ok());
}

#[test]
fn test_not_matching_deployment_rejected() {
    let error = ensure_options_match(
        "a-deployment",
        &deployment_fixture(),
        &requested_options_not_matching(),
    )
    .unwrap_err();

    assert_eq!(
        error.message,
        "Deployment \"a-deployment\" already exists and does not match the requested \
         options: image, image_tag, port, ip (the deployment is bound to a different \
         address), local_seed_location, load_sample_data, mongodb_initdb_root_username, \
         mongodb_initdb_root_password, voyage_api_key, do_not_track. Delete it first or \
         omit the conflicting options."
    );
}

fn conflicts_of(requested: Option<PortBinding>, existing: Option<PortBinding>) -> Vec<String> {
    let mut conflicts = Vec::new();

    compare_port_binding(requested.as_ref(), existing.as_ref(), &mut conflicts);

    conflicts
}

#[test]
fn test_option_not_requested_is_ignored() {
    let mut conflicts = Vec::new();

    compare("image", None, Some(&"an-image"), &mut conflicts);

    assert!(conflicts.is_empty());
}

#[test]
fn test_option_missing_from_deployment_is_conflict() {
    let mut conflicts = Vec::new();

    compare("image", Some(&"an-image"), None, &mut conflicts);

    assert_eq!(conflicts, vec!["image".to_owned()]);
}

#[test]
fn test_binding_without_port_does_not_compare_port() {
    let conflicts = conflicts_of(
        Some(PortBinding::new(None, BindingType::AnyInterface)),
        Some(PortBinding::new(Some(27018), BindingType::AnyInterface)),
    );

    assert!(conflicts.is_empty());
}

#[test]
fn test_a_deployment_without_a_binding_is_a_conflict() {
    let conflicts = conflicts_of(
        Some(PortBinding::new(Some(27017), BindingType::Loopback)),
        None,
    );

    assert_eq!(conflicts, vec!["port/ip".to_owned()]);
}

#[test]
fn test_different_specific_ip_reported() {
    let conflicts = conflicts_of(
        Some(PortBinding::new(
            Some(27017),
            BindingType::Specific { ip: ipv4(1, 2, 3, 4) },
        )),
        Some(PortBinding::new(
            Some(27017),
            BindingType::Specific { ip: ipv4(5, 6, 7, 8) },
        )),
    );

    assert_eq!(
        conflicts,
        vec!["ip (the deployment is bound to a different address)".to_owned()]
    );
}

#[test]
fn test_binding_not_requested_ignored() {
    let conflicts = conflicts_of(
        None,
        Some(PortBinding::new(Some(27017), BindingType::Loopback)),
    );

    assert!(conflicts.is_empty());
}

#[test]
fn test_nothing_requested_matches_any_deployment() {
    let result = ensure_options_match(
        "a-deployment",
        &deployment_fixture(),
        &CreateDeploymentOptions::empty(),
    );

    assert!(result.is_ok());
}

#[test]
fn test_single_conflict_and_conflicts_appended_in_order() {
    let options = CreateDeploymentOptions {
        voyage_api_key: Some("another-key".to_owned()),
        ..requested_options_matching()
    };
    let error = ensure_options_match("db", &deployment_fixture(), &options).unwrap_err();
    assert_eq!(error.class, ExceptionClass::ValueError);
    assert_eq!(
        error.message,
        "Deployment \"db\" already exists and does not match the requested options: \
         voyage_api_key. Delete it first or omit the conflicting options."
    );

    let mut conflicts = vec!["first".to_owned()];
    compare("flag", Some(&true), Some(&false), &mut conflicts);
    compare("flag", Some(&true), Some(&true), &mut conflicts);
    assert_eq!(conflicts, vec!["first".to_owned(), "flag".to_owned()]);
}

#[test]
fn test_conflicts_are_listed_once_each() {
    let error = ensure_options_match(
        "a-deployment",
        &deployment_fixture(),
        &requested_options_not_matching(),
    )
    .unwrap_err();
    let listed = error
        .message
        .split(": ")
        .nth(1)
        .unwrap()
        .split(". Delete")
        .next()
        .unwrap()
        .to_owned();
    let names: Vec<&str> = listed.split(", ").collect();
    for (i, a) in names.iter().enumerate() {
        for b in &names[i + 1..] {
            assert_ne!(a, b);
        }
    }
}

use atlas_local_lib_py::deployment::LocalDeployment;
use atlas_local_lib_py::models::{
    BindingType, Deployment, IpAddress, MongodbType, PortBinding, State,
};

fn deployment() -> Deployment {
    Deployment {
        container_id: "abc123".to_owned(),
        name: Some("local1".to_owned()),
        state: State::Paused,
        port_bindings: Some(PortBinding::new(Some(27017), BindingType::AnyInterface)),
        image: None,
        image_tag: None,
        mongodb_type: MongodbType::Enterprise,
        mongodb_version: "8.0.4".to_owned(),
        creation_source: None,
        local_seed_location: Some("/seed".to_owned()),
        mongodb_initdb_database: Some("admin".to_owned()),
        mongodb_initdb_root_password_file: None,
        mongodb_initdb_root_password: Some("secret".to_owned()),
        mongodb_initdb_root_username_file: None,
        mongodb_initdb_root_username: Some("root".to_owned()),
        mongodb_load_sample_data: Some(false),
        voyage_api_key: None,
        embedding_provider_endpoint: None,
        mongot_log_file: None,
        runner_log_file: None,
        do_not_track: true,
        telemetry_base_url: None,
    }
}

#[test]
fn test_getters() {
    let local = LocalDeployment::new(deployment());
    assert_eq!(local.container_id(), "abc123");
    assert_eq!(local.name(), Some("local1"));
    assert_eq!(local.local_seed_location(), Some("/seed"));
    assert_eq!(local.mongodb_initdb_database(), Some("admin"));
    assert_eq!(local.mongodb_initdb_root_username(), Some("root"));
    assert_eq!(local.mongodb_initdb_root_password(), Some("secret"));
    assert_eq!(local.voyage_api_key(), None);
    assert_eq!(local.state(), "paused");
    assert_eq!(local.mongodb_version(), "8.0.4");
    assert_eq!(local.mongodb_type(), "enterprise");
    assert_eq!(local.mongodb_load_sample_data(), Some(false));
    assert_eq!(local.port_bindings(), Some("0.0.0.0".to_owned()));
    assert!(local.do_not_track());
    assert_eq!(local.inner().container_id, "abc123");
}

#[test]
fn test_port_binding_addresses() {
    let with = |binding_type| {
        LocalDeployment::new(Deployment {
            port_bindings: Some(PortBinding::new(None, binding_type)),
            ..deployment()
        })
        .port_bindings()
    };
    assert_eq!(with(BindingType::Loopback), Some("127.0.0.1".to_owned()));
    assert_eq!(
        with(BindingType::Specific { ip: IpAddress::V4(u32::from_be_bytes([10, 0, 0, 7])) }),
        Some("10.0.0.7".to_owned())
    );
    assert_eq!(
        with(BindingType::Specific { ip: IpAddress::V6(1) }),
        Some("::1".to_owned())
    );
    let unbound = LocalDeployment::new(Deployment {
        port_bindings: None,
        ..deployment()
    });
    assert_eq!(unbound.port_bindings(), None);
}

#[test]
fn test_repr() {
    let local = LocalDeployment::new(deployment());
    assert_eq!(
        local.__repr__(),
        "LocalDeployment(name=Some(\"local1\"), container_id=\"abc123\", state=\"paused\", mongodb_version=\"8.0.4\")"
    );
    let unnamed = LocalDeployment::new(Deployment {
        name: None,
        state: State::Running,
        ..deployment()
    });
    assert_eq!(
        unnamed.__repr__(),
        "LocalDeployment(name=None, container_id=\"abc123\", state=\"running\", mongodb_version=\"8.0.4\")"
    );
}

#[test]
fn test_equality() {
    let a = LocalDeployment::new(deployment());
    let b = LocalDeployment::new(deployment());
    assert!(a.__eq__(&a));
    assert!(a.__eq__(&b));
    assert!(b.__eq__(&a));
    let c = LocalDeployment::new(Deployment {
        mongodb_initdb_root_password: None,
        ..deployment()
    });
    assert!(!a.__eq__(&c));
    assert!(!c.__eq__(&a));
}

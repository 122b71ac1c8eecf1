//! A local Atlas deployment, as the library hands it to Python, and what
//! Python reads of it.

use vstd::prelude::*;
use crate::models::{
    BindingType, Deployment, MongodbType, PortBinding, option_is_same, same_option, same_text,
    state_name, str_view, text_matches, text_ref, text_view,
};
use crate::create_deployment_options::binding_type_for;
use crate::python_error::PythonErrorView;
use crate::outside::{debug_quoted, debug_text, display_ip_address, ip_address_text};

verus! {

/// Whether two deployments are the same in every field.
pub open spec fn same_deployment(a: Deployment, b: Deployment) -> bool {
    &&& a.container_id@ == b.container_id@
    &&& same_text(a.name, b.name)
    &&& a.state == b.state
    &&& a.port_bindings == b.port_bindings
    &&& same_text(a.image, b.image)
    &&& same_option(a.image_tag, b.image_tag)
    &&& a.mongodb_type == b.mongodb_type
    &&& a.mongodb_version@ == b.mongodb_version@
    &&& same_option(a.creation_source, b.creation_source)
    &&& same_text(a.local_seed_location, b.local_seed_location)
    &&& same_text(a.mongodb_initdb_database, b.mongodb_initdb_database)
    &&& same_text(a.mongodb_initdb_root_password_file, b.mongodb_initdb_root_password_file)
    &&& same_text(a.mongodb_initdb_root_password, b.mongodb_initdb_root_password)
    &&& same_text(a.mongodb_initdb_root_username_file, b.mongodb_initdb_root_username_file)
    &&& same_text(a.mongodb_initdb_root_username, b.mongodb_initdb_root_username)
    &&& a.mongodb_load_sample_data == b.mongodb_load_sample_data
    &&& same_text(a.voyage_api_key, b.voyage_api_key)
    &&& same_text(a.embedding_provider_endpoint, b.embedding_provider_endpoint)
    &&& same_text(a.mongot_log_file, b.mongot_log_file)
    &&& same_text(a.runner_log_file, b.runner_log_file)
    &&& a.do_not_track == b.do_not_track
    &&& same_text(a.telemetry_base_url, b.telemetry_base_url)
}

/// The address that a port binding publishes MongoDB on, as text.
pub open spec fn binding_address(binding: Option<PortBinding>) -> Option<Seq<char>> {
    match binding {
        None => None,
        Some(b) => Some(
            match b.binding_type {
                BindingType::Loopback => "127.0.0.1"@,
                BindingType::AnyInterface => "0.0.0.0"@,
                BindingType::Specific { ip } => ip_address_text(ip),
            },
        ),
    }
}

/// An optional text as `Debug` shows it: `None`, or `Some("...")`.
pub open spec fn debug_option_text(text: Option<String>) -> Seq<char> {
    match text {
        None => "None"@,
        Some(t) => "Some("@ + debug_quoted(t@) + ")"@,
    }
}

/// How a deployment is shown: its name, container ID, state and MongoDB
/// version.
pub open spec fn deployment_repr(d: Deployment) -> Seq<char> {
    "LocalDeployment(name="@ + debug_option_text(d.name) + ", container_id="@ + debug_quoted(
        d.container_id@,
    ) + ", state="@ + debug_quoted(state_name(d.state)) + ", mongodb_version="@ + debug_quoted(
        d.mongodb_version@,
    ) + ")"@
}

/// A local Atlas deployment.
pub struct LocalDeployment {
    inner: Deployment,
}

impl LocalDeployment {
    /// The deployment's data.
    pub closed spec fn deployment(self) -> Deployment {
        self.inner
    }

    pub fn new(inner: Deployment) -> (local: LocalDeployment)
        ensures
            local.deployment() == inner,
    {
        LocalDeployment { inner }
    }

    pub fn inner(&self) -> (inner: &Deployment)
        ensures
            *inner == self.deployment(),
    {
        &self.inner
    }

    pub fn container_id(&self) -> (id: &str)
        ensures
            id@ == self.deployment().container_id@,
    {
        self.inner.container_id.as_str()
    }

    pub fn name(&self) -> (name: Option<&str>)
        ensures
            str_view(name) == text_view(self.deployment().name),
    {
        text_ref(&self.inner.name)
    }

    pub fn local_seed_location(&self) -> (location: Option<&str>)
        ensures
            str_view(location) == text_view(self.deployment().local_seed_location),
    {
        text_ref(&self.inner.local_seed_location)
    }

    pub fn mongodb_initdb_database(&self) -> (database: Option<&str>)
        ensures
            str_view(database) == text_view(self.deployment().mongodb_initdb_database),
    {
        text_ref(&self.inner.mongodb_initdb_database)
    }

    pub fn mongodb_initdb_root_username(&self) -> (username: Option<&str>)
        ensures
            str_view(username) == text_view(self.deployment().mongodb_initdb_root_username),
    {
        text_ref(&self.inner.mongodb_initdb_root_username)
    }

    pub fn mongodb_initdb_root_password(&self) -> (password: Option<&str>)
        ensures
            str_view(password) == text_view(self.deployment().mongodb_initdb_root_password),
    {
        text_ref(&self.inner.mongodb_initdb_root_password)
    }

    pub fn voyage_api_key(&self) -> (key: Option<&str>)
        ensures
            str_view(key) == text_view(self.deployment().voyage_api_key),
    {
        text_ref(&self.inner.voyage_api_key)
    }

    /// The container's state: `created`, `dead`, `exited`, `paused`,
    /// `removing`, `restarting` or `running`.
    pub fn state(&self) -> (state: String)
        ensures
            state@ == state_name(self.deployment().state),
    {
        self.inner.state.name().to_owned()
    }

    pub fn mongodb_version(&self) -> (version: String)
        ensures
            version@ == self.deployment().mongodb_version@,
    {
        self.inner.mongodb_version.as_str().to_owned()
    }

    /// `community` or `enterprise`.
    pub fn mongodb_type(&self) -> (edition: &'static str)
        ensures
            edition@ == match self.deployment().mongodb_type {
                MongodbType::Community => "community"@,
                MongodbType::Enterprise => "enterprise"@,
            },
    {
        proof {
            reveal_strlit("community");
            reveal_strlit("enterprise");
        }
        match self.inner.mongodb_type {
            MongodbType::Community => "community",
            MongodbType::Enterprise => "enterprise",
        }
    }

    pub fn mongodb_load_sample_data(&self) -> (load: Option<bool>)
        ensures
            load == self.deployment().mongodb_load_sample_data,
    {
        self.inner.mongodb_load_sample_data
    }

    /// The address that MongoDB is published on, if it is published.
    pub fn port_bindings(&self) -> (address: Option<String>)
        ensures
            text_view(address) == binding_address(self.deployment().port_bindings),
    {
        match &self.inner.port_bindings {
            None => None,
            Some(binding) => Some(
                match &binding.binding_type {
                    BindingType::Loopback => "127.0.0.1".to_owned(),
                    BindingType::AnyInterface => "0.0.0.0".to_owned(),
                    BindingType::Specific { ip } => display_ip_address(ip),
                },
            ),
        }
    }

    pub fn do_not_track(&self) -> (do_not_track: bool)
        ensures
            do_not_track == self.deployment().do_not_track,
    {
        self.inner.do_not_track
    }

    /// How the deployment is shown in Python.
    pub fn __repr__(&self) -> (repr: String)
        ensures
            repr@ == deployment_repr(self.deployment()),
    {
        let mut repr = "LocalDeployment(name=".to_owned();
        match &self.inner.name {
            None => repr.append("None"),
            Some(name) => {
                repr.append("Some(");
                repr.append(debug_text(name.as_str()).as_str());
                repr.append(")");
            },
        }
        repr.append(", container_id=");
        repr.append(debug_text(self.inner.container_id.as_str()).as_str());
        repr.append(", state=");
        repr.append(debug_text(self.inner.state.name()).as_str());
        repr.append(", mongodb_version=");
        repr.append(debug_text(self.inner.mongodb_version.as_str()).as_str());
        repr.append(")");
        repr
    }

    /// Whether two deployments are the same in every field.
    pub fn __eq__(&self, other: &Self) -> (same: bool)
        ensures
            same == same_deployment(self.deployment(), other.deployment()),
    {
        let a = &self.inner;
        let b = &other.inner;
        a.container_id.eq(&b.container_id) && text_matches(&a.name, &b.name) && a.state == b.state
            && a.port_bindings == b.port_bindings && text_matches(&a.image, &b.image)
            && option_is_same(&a.image_tag, &b.image_tag) && a.mongodb_type == b.mongodb_type
            && a.mongodb_version.eq(&b.mongodb_version) && option_is_same(
            &a.creation_source,
            &b.creation_source,
        ) && text_matches(&a.local_seed_location, &b.local_seed_location) && text_matches(
            &a.mongodb_initdb_database,
            &b.mongodb_initdb_database,
        ) && text_matches(
            &a.mongodb_initdb_root_password_file,
            &b.mongodb_initdb_root_password_file,
        ) && text_matches(&a.mongodb_initdb_root_password, &b.mongodb_initdb_root_password)
            && text_matches(
            &a.mongodb_initdb_root_username_file,
            &b.mongodb_initdb_root_username_file,
        ) && text_matches(&a.mongodb_initdb_root_username, &b.mongodb_initdb_root_username)
            && a.mongodb_load_sample_data == b.mongodb_load_sample_data && text_matches(
            &a.voyage_api_key,
            &b.voyage_api_key,
        ) && text_matches(&a.embedding_provider_endpoint, &b.embedding_provider_endpoint)
            && text_matches(&a.mongot_log_file, &b.mongot_log_file) && text_matches(
            &a.runner_log_file,
            &b.runner_log_file,
        ) && a.do_not_track == b.do_not_track && text_matches(
            &a.telemetry_base_url,
            &b.telemetry_base_url,
        )
    }
}

/// Deployments compare as Python's `==` requires: every deployment equals
/// itself, and equality is symmetric and transitive.
pub proof fn deployment_equality_is_an_equivalence(a: Deployment, b: Deployment, c: Deployment)
    ensures
        same_deployment(a, a),
        same_deployment(a, b) == same_deployment(b, a),
        same_deployment(a, b) && same_deployment(b, c) ==> same_deployment(a, c),
{
}

/// Two deployments compare equal exactly when every field is equal, texts
/// compared by their characters: deployments that differ in any field, their
/// state among them, are told apart.
pub proof fn deployment_equality_is_fieldwise(a: Deployment, b: Deployment)
    ensures
        same_deployment(a, b) <==> {
            &&& a.container_id@ == b.container_id@
            &&& text_view(a.name) == text_view(b.name)
            &&& a.state == b.state
            &&& a.port_bindings == b.port_bindings
            &&& text_view(a.image) == text_view(b.image)
            &&& a.image_tag is Some <==> b.image_tag is Some
            &&& a.image_tag is Some ==> a.image_tag->Some_0@ == b.image_tag->Some_0@
            &&& a.mongodb_type == b.mongodb_type
            &&& a.mongodb_version@ == b.mongodb_version@
            &&& a.creation_source is Some <==> b.creation_source is Some
            &&& a.creation_source is Some ==> a.creation_source->Some_0@
                == b.creation_source->Some_0@
            &&& text_view(a.local_seed_location) == text_view(b.local_seed_location)
            &&& text_view(a.mongodb_initdb_database) == text_view(b.mongodb_initdb_database)
            &&& text_view(a.mongodb_initdb_root_password_file) == text_view(
                b.mongodb_initdb_root_password_file,
            )
            &&& text_view(a.mongodb_initdb_root_password) == text_view(
                b.mongodb_initdb_root_password,
            )
            &&& text_view(a.mongodb_initdb_root_username_file) == text_view(
                b.mongodb_initdb_root_username_file,
            )
            &&& text_view(a.mongodb_initdb_root_username) == text_view(
                b.mongodb_initdb_root_username,
            )
            &&& a.mongodb_load_sample_data == b.mongodb_load_sample_data
            &&& text_view(a.voyage_api_key) == text_view(b.voyage_api_key)
            &&& text_view(a.embedding_provider_endpoint) == text_view(
                b.embedding_provider_endpoint,
            )
            &&& text_view(a.mongot_log_file) == text_view(b.mongot_log_file)
            &&& text_view(a.runner_log_file) == text_view(b.runner_log_file)
            &&& a.do_not_track == b.do_not_track
            &&& text_view(a.telemetry_base_url) == text_view(b.telemetry_base_url)
        },
        a.state != b.state ==> !same_deployment(a, b),
{
}

/// The address shown for a deployment's binding is the one it was asked for:
/// a deployment published on loopback or on every interface shows the
/// address that asks for that same binding, and one with no binding shows
/// none.
pub proof fn shown_address_asks_for_the_same_binding(binding: Option<PortBinding>)
    ensures
        binding is None <==> binding_address(binding) is None,
        binding is Some && (binding->Some_0.binding_type is Loopback
            || binding->Some_0.binding_type is AnyInterface) ==> binding_type_for(
            binding_address(binding),
        ) == Ok::<BindingType, PythonErrorView>(binding->Some_0.binding_type),
{
    reveal_strlit("127.0.0.1");
    reveal_strlit("0.0.0.0");
    assert("127.0.0.1"@.len() == 9);
    assert("0.0.0.0"@.len() == 7);
}

} // verus!

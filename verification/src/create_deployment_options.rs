//! The options a deployment is created with, checked and built from the
//! arguments a caller gives.

use vstd::prelude::*;
use crate::models::{
    BindingType, CreateDeploymentOptions, CreationSource, ImageTag, ImageTagView, Matches,
    PortBinding, str_view, text_view,
};
use crate::outside::{
    debug_quoted, debug_text, parse_image_tag, parse_ip_address, parsed_image_tag,
    parsed_ip_address,
};
use crate::python_error::{
    ExceptionClass, PythonError, PythonErrorView, python_error, result_view,
};
use crate::start::{parse_timeout, timeout_outcome};

verus! {

/// The arguments a caller gives to create a deployment. An absent argument
/// is left to the deployment's defaults.
pub struct CreateArgs {
    pub name: Option<String>,
    pub image: Option<String>,
    pub skip_pull_image: Option<bool>,
    pub image_tag: Option<String>,
    pub load_sample_data: Option<bool>,
    pub port: Option<u16>,
    pub ip: Option<String>,
    pub wait_until_healthy: Option<bool>,
    /// In seconds.
    pub wait_until_healthy_timeout: Option<i64>,
    pub local_seed_location: Option<String>,
    pub mongodb_initdb_root_username: Option<String>,
    pub mongodb_initdb_root_password: Option<String>,
    pub voyage_api_key: Option<String>,
    pub do_not_track: Option<bool>,
}

/// The message that refuses a text that is no IP address.
pub open spec fn ip_error_message(ip: Seq<char>) -> Seq<char> {
    "ip must be an IP address such as '127.0.0.1' or '0.0.0.0', got "@ + debug_quoted(ip)
}

/// The binding type that an address given as text asks for: loopback when
/// none is given, or `127.0.0.1`; any interface for `0.0.0.0`; else the
/// address that the text parses to, or an error where it parses to none.
pub open spec fn binding_type_for(ip: Option<Seq<char>>) -> Result<BindingType, PythonErrorView> {
    match ip {
        None => Ok(BindingType::Loopback),
        Some(t) => if t == "127.0.0.1"@ {
            Ok(BindingType::Loopback)
        } else if t == "0.0.0.0"@ {
            Ok(BindingType::AnyInterface)
        } else {
            match parsed_ip_address(t) {
                Some(a) => Ok(BindingType::Specific { ip: a }),
                None => Err(python_error(ExceptionClass::ValueError, ip_error_message(t))),
            }
        },
    }
}

/// The port binding that a port and an address ask for: none when neither is
/// given, which leaves the binding to the deployment.
pub open spec fn binding_for(port: Option<u16>, ip: Option<Seq<char>>) -> Result<
    Option<PortBinding>,
    PythonErrorView,
> {
    if port.is_none() && ip.is_none() {
        Ok(None)
    } else {
        match binding_type_for(ip) {
            Ok(b) => Ok(Some(PortBinding { port, binding_type: b })),
            Err(e) => Err(e),
        }
    }
}

/// The port binding that a port and an address (as text) ask for.
pub fn port_binding(port: Option<u16>, ip: Option<&str>) -> (binding: Result<
    Option<PortBinding>,
    PythonError,
>)
    ensures
        result_view(binding) == binding_for(port, str_view(ip)),
{
    if port.is_none() && ip.is_none() {
        return Ok(None);
    }
    let binding_type = match ip {
        None => BindingType::Loopback,
        Some(text) => if Matches::is_same(&text, &"127.0.0.1") {
            BindingType::Loopback
        } else if Matches::is_same(&text, &"0.0.0.0") {
            BindingType::AnyInterface
        } else {
            match parse_ip_address(text) {
                Some(address) => BindingType::Specific { ip: address },
                None => {
                    let mut message = "ip must be an IP address such as '127.0.0.1' or '0.0.0.0', got "
                        .to_owned();
                    message.append(debug_text(text).as_str());
                    return Err(PythonError { class: ExceptionClass::ValueError, message });
                },
            }
        },
    };
    Ok(Some(PortBinding::new(port, binding_type)))
}

/// The name under which the library reports itself as a deployment's
/// creator.
pub open spec fn tool_name(in_jupyter: bool) -> Seq<char> {
    if in_jupyter {
        "PYTHON_LIB_JUPYTER"@
    } else {
        "PYTHON_LIB"@
    }
}

/// The library as a deployment's creator, within Jupyter or without.
pub fn tool_identifier(in_jupyter: bool) -> (source: CreationSource)
    ensures
        source matches CreationSource::Unknown(tool) && tool@ == tool_name(in_jupyter),
{
    let tool = if in_jupyter {
        "PYTHON_LIB_JUPYTER"
    } else {
        "PYTHON_LIB"
    };
    CreationSource::Unknown(tool.to_owned())
}

/// A port and an address ask for a binding on that very port: no port and no
/// address leave the binding to the deployment; a port alone, or with
/// `127.0.0.1`, is published on loopback; `0.0.0.0` on every interface; any
/// other address that parses, on that address. Only an address that parses
/// to none is refused, with a `ValueError`.
pub proof fn requested_binding_is_kept(port: Option<u16>, ip: Option<Seq<char>>)
    ensures
        port is None && ip is None ==> binding_for(port, ip) == Ok::<
            Option<PortBinding>,
            PythonErrorView,
        >(None),
        binding_for(port, ip) is Ok && !(port is None && ip is None) ==> binding_for(
            port,
            ip,
        )->Ok_0 is Some,
        binding_for(port, ip) matches Ok(Some(b)) ==> b.port == port,
        port is Some && ip is None ==> binding_for(port, ip) == Ok::<
            Option<PortBinding>,
            PythonErrorView,
        >(Some(PortBinding { port, binding_type: BindingType::Loopback })),
        ip == Some("127.0.0.1"@) ==> binding_for(port, ip) == Ok::<
            Option<PortBinding>,
            PythonErrorView,
        >(Some(PortBinding { port, binding_type: BindingType::Loopback })),
        ip == Some("0.0.0.0"@) ==> binding_for(port, ip) == Ok::<
            Option<PortBinding>,
            PythonErrorView,
        >(Some(PortBinding { port, binding_type: BindingType::AnyInterface })),
        ip is Some && ip->Some_0 != "127.0.0.1"@ && ip->Some_0 != "0.0.0.0"@ && parsed_ip_address(
            ip->Some_0,
        ) is Some ==> binding_for(port, ip) == Ok::<Option<PortBinding>, PythonErrorView>(
            Some(
                PortBinding {
                    port,
                    binding_type: BindingType::Specific { ip: parsed_ip_address(ip->Some_0)->Some_0 },
                },
            ),
        ),
        binding_for(port, ip) is Err ==> {
            &&& ip is Some
            &&& parsed_ip_address(ip->Some_0) is None
            &&& binding_for(port, ip)->Err_0.class == ExceptionClass::ValueError
        },
{
    reveal_strlit("127.0.0.1");
    reveal_strlit("0.0.0.0");
    assert("127.0.0.1"@.len() == 9);
    assert("0.0.0.0"@.len() == 7);
}

/// The library names itself differently as a deployment's creator within
/// Jupyter and without.
pub proof fn tool_names_tell_jupyter_apart(in_jupyter: bool)
    ensures
        tool_name(in_jupyter) != tool_name(!in_jupyter),
        tool_name(true) == "PYTHON_LIB_JUPYTER"@,
        tool_name(false) == "PYTHON_LIB"@,
{
    reveal_strlit("PYTHON_LIB_JUPYTER");
    reveal_strlit("PYTHON_LIB");
    assert("PYTHON_LIB_JUPYTER"@.len() == 18);
    assert("PYTHON_LIB"@.len() == 10);
}

/// The image tag that an optional text asks for, or the error that refuses
/// the text.
pub open spec fn image_tag_for(text: Option<Seq<char>>) -> Result<
    Option<ImageTagView>,
    PythonErrorView,
> {
    match text {
        None => Ok(None),
        Some(t) => match parsed_image_tag(t) {
            Ok(tag) => Ok(Some(tag)),
            Err(m) => Err(python_error(ExceptionClass::ValueError, m)),
        },
    }
}

/// The view of an optional image tag.
pub open spec fn tag_view(tag: Option<ImageTag>) -> Option<ImageTagView> {
    match tag {
        Some(t) => Some(t@),
        None => None,
    }
}

/// The first argument that is refused, in the order image tag, timeout, port
/// binding; none where every argument is accepted.
pub open spec fn create_args_error(args: CreateArgs) -> Option<PythonErrorView> {
    match image_tag_for(text_view(args.image_tag)) {
        Err(e) => Some(e),
        Ok(_) => match timeout_outcome(args.wait_until_healthy_timeout) {
            Err(e) => Some(e),
            Ok(_) => match binding_for(args.port, text_view(args.ip)) {
                Err(e) => Some(e),
                Ok(_) => None,
            },
        },
    }
}

/// Whether `options` carries each argument over: the texts and flags as
/// they are, the image tag, timeout and port binding as checked, and the
/// library as the deployment's creator.
pub open spec fn options_from_args(
    options: CreateDeploymentOptions,
    args: CreateArgs,
    in_jupyter: bool,
) -> bool {
    &&& options.name == args.name
    &&& options.image == args.image
    &&& options.skip_pull_image == args.skip_pull_image
    &&& image_tag_for(text_view(args.image_tag)) == Ok::<
        Option<ImageTagView>,
        PythonErrorView,
    >(tag_view(options.image_tag))
    &&& options.load_sample_data == args.load_sample_data
    &&& binding_for(args.port, text_view(args.ip)) == Ok::<
        Option<PortBinding>,
        PythonErrorView,
    >(options.mongodb_port_binding)
    &&& options.wait_until_healthy == args.wait_until_healthy
    &&& timeout_outcome(args.wait_until_healthy_timeout) == Ok::<Option<u64>, PythonErrorView>(
        options.wait_until_healthy_timeout,
    )
    &&& options.creation_source matches Some(CreationSource::Unknown(tool)) && tool@ == tool_name(
        in_jupyter,
    )
    &&& options.local_seed_location == args.local_seed_location
    &&& options.mongodb_initdb_root_username == args.mongodb_initdb_root_username
    &&& options.mongodb_initdb_root_password == args.mongodb_initdb_root_password
    &&& options.voyage_api_key == args.voyage_api_key
    &&& options.do_not_track == args.do_not_track
}

/// Checks the arguments a caller gives and builds the options to create a
/// deployment with.
pub fn build_create_deployment_options(args: CreateArgs, in_jupyter: bool) -> (options: Result<
    CreateDeploymentOptions,
    PythonError,
>)
    ensures
        options.is_err() == create_args_error(args).is_some(),
        options matches Err(e) ==> Some(e@) == create_args_error(args),
        options matches Ok(o) ==> options_from_args(o, args, in_jupyter),
{
    let image_tag = match &args.image_tag {
        None => None,
        Some(text) => match parse_image_tag(text.as_str()) {
            Ok(tag) => Some(tag),
            Err(message) => {
                return Err(PythonError { class: ExceptionClass::ValueError, message });
            },
        },
    };
    let wait_until_healthy_timeout = parse_timeout(args.wait_until_healthy_timeout)?;
    let ip = match &args.ip {
        Some(text) => Some(text.as_str()),
        None => None,
    };
    let mongodb_port_binding = port_binding(args.port, ip)?;
    let creation_source = Some(tool_identifier(in_jupyter));

    Ok(
        CreateDeploymentOptions {
            name: args.name,
            image: args.image,
            skip_pull_image: args.skip_pull_image,
            image_tag,
            wait_until_healthy: args.wait_until_healthy,
            wait_until_healthy_timeout,
            creation_source,
            local_seed_location: args.local_seed_location,
            mongodb_initdb_root_password: args.mongodb_initdb_root_password,
            mongodb_initdb_root_username: args.mongodb_initdb_root_username,
            voyage_api_key: args.voyage_api_key,
            load_sample_data: args.load_sample_data,
            do_not_track: args.do_not_track,
            mongodb_port_binding,
        },
    )
}

} // verus!

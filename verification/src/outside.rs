//! What the library takes from outside its own code: the parsing and
//! formatting of IP addresses by `core::net`, the parsing of image tags by
//! `atlas_local`, `str`'s `Debug` formatting, and the errors of
//! `atlas_local`'s deployment operations. These items' contracts are taken
//! on trust; they describe the outside code and nothing here is proved.

use vstd::prelude::*;
use crate::models::{ImageTag, ImageTagView, IpAddress};
use crate::python_error::{
    ConnectionStringErrorKind, CreateErrorKind, DeleteErrorKind, GetErrorKind, LogsErrorKind,
    PauseErrorKind, StartErrorKind, StopErrorKind, UnpauseErrorKind, WatchErrorKind,
};
use atlas_local::DockerError;
use atlas_local::models::ImageTag as Tag;
use atlas_local::client::CreateDeploymentError as Create;
use atlas_local::client::WatchDeploymentError as Watch;
use atlas_local::client::{
    CreateDeploymentError, DeleteDeploymentError, GetConnectionStringError, GetDeploymentError,
    GetLogsError, PauseDeploymentError, StartDeploymentError, StopDeploymentError,
    UnpauseDeploymentError, WatchDeploymentError,
};

verus! {

/// What `str::parse::<core::net::IpAddr>` makes of a text.
pub uninterp spec fn parsed_ip_address(text: Seq<char>) -> Option<IpAddress>;

/// Parses an IP address with `core::net::IpAddr`'s `FromStr`.
#[verifier::external_body]
pub(crate) fn parse_ip_address(text: &str) -> (parsed: Option<IpAddress>)
    ensures
        parsed == parsed_ip_address(text@),
{
    match text.parse::<core::net::IpAddr>() {
        Ok(core::net::IpAddr::V4(address)) => Some(IpAddress::V4(address.to_bits())),
        Ok(core::net::IpAddr::V6(address)) => Some(IpAddress::V6(address.to_bits())),
        Err(_) => None,
    }
}

/// What `core::net::IpAddr`'s `Display` makes of an address.
pub uninterp spec fn ip_address_text(address: IpAddress) -> Seq<char>;

/// Formats an address with `core::net::Ipv4Addr`'s or `Ipv6Addr`'s
/// `Display`, after taking it back from its bits.
#[verifier::external_body]
pub(crate) fn display_ip_address(address: &IpAddress) -> (text: String)
    ensures
        text@ == ip_address_text(*address),
{
    match address {
        IpAddress::V4(bits) => core::net::Ipv4Addr::from_bits(*bits).to_string(),
        IpAddress::V6(bits) => core::net::Ipv6Addr::from_bits(*bits).to_string(),
    }
}

/// What `atlas_local`'s `ImageTag::try_from(&str)` makes of a text: the
/// tag, or the message that refuses the text.
pub uninterp spec fn parsed_image_tag(text: Seq<char>) -> Result<ImageTagView, Seq<char>>;

/// Parses an image tag with `atlas_local`'s `ImageTag::try_from(&str)` and
/// takes the tag into the library's `ImageTag` (the version and the
/// timestamp by their `Display`). The contract names the result; besides, as
/// `ImageTag::try_from`'s code shows, `latest` and `preview` give those
/// tags.
#[verifier::external_body]
pub(crate) fn parse_image_tag(text: &str) -> (tag: Result<ImageTag, String>)
    ensures
        match tag {
            Ok(t) => parsed_image_tag(text@) == Ok::<ImageTagView, Seq<char>>(t@),
            Err(m) => parsed_image_tag(text@) == Err::<ImageTagView, Seq<char>>(m@),
        },
        text@ == "latest"@ ==> tag matches Ok(ImageTag::Latest),
        text@ == "preview"@ ==> tag matches Ok(ImageTag::Preview),
{
    match Tag::try_from(text) {
        Ok(Tag::Preview) => Ok(ImageTag::Preview),
        Ok(Tag::Latest) => Ok(ImageTag::Latest),
        Ok(Tag::Semver(v)) => Ok(ImageTag::Semver(v.to_string())),
        Ok(Tag::SemverTimestamp(v, t)) => {
            Ok(ImageTag::SemverTimestamp(v.to_string(), t.to_string()))
        },
        Err(message) => Err(message),
    }
}

/// What `format!("{:?}", text)` makes of a text: the text in double quotes,
/// with the characters that `str::escape_debug` escapes escaped.
pub uninterp spec fn debug_quoted(text: Seq<char>) -> Seq<char>;

/// Formats a text with `str`'s `Debug` implementation.
#[verifier::external_body]
pub(crate) fn debug_text(text: &str) -> (quoted: String)
    ensures
        quoted@ == debug_quoted(text@),
{
    format!("{:?}", text)
}

// The errors of `atlas_local`'s deployment operations, carried through
// opaque.
#[verifier::external_type_specification]
#[verifier::external_body]
pub struct ExCreateDeploymentError(atlas_local::client::CreateDeploymentError);

#[verifier::external_type_specification]
#[verifier::external_body]
pub struct ExDeleteDeploymentError(atlas_local::client::DeleteDeploymentError);

#[verifier::external_type_specification]
#[verifier::external_body]
pub struct ExGetConnectionStringError(atlas_local::client::GetConnectionStringError);

#[verifier::external_type_specification]
#[verifier::external_body]
pub struct ExGetDeploymentError(atlas_local::client::GetDeploymentError);

#[verifier::external_type_specification]
#[verifier::external_body]
pub struct ExGetLogsError(atlas_local::client::GetLogsError);

#[verifier::external_type_specification]
#[verifier::external_body]
pub struct ExWatchDeploymentError(atlas_local::client::WatchDeploymentError);

#[verifier::external_type_specification]
#[verifier::external_body]
pub struct ExStartDeploymentError(atlas_local::client::StartDeploymentError);

#[verifier::external_type_specification]
#[verifier::external_body]
pub struct ExStopDeploymentError(atlas_local::client::StopDeploymentError);

#[verifier::external_type_specification]
#[verifier::external_body]
pub struct ExPauseDeploymentError(atlas_local::client::PauseDeploymentError);

#[verifier::external_type_specification]
#[verifier::external_body]
pub struct ExUnpauseDeploymentError(atlas_local::client::UnpauseDeploymentError);

/// The kind that `kind_of_create_deployment_error` gives an `atlas_local` `CreateDeploymentError`:
/// a function of the error alone.
pub uninterp spec fn create_deployment_kind(error: CreateDeploymentError) -> CreateErrorKind;

/// Tells apart the variants of `atlas_local`'s `CreateDeploymentError`, the error of the creation
/// of a deployment, one variant of `CreateErrorKind` for each (the `WatchDeployment` variants by
/// the variant of the `WatchDeploymentError` they hold), keeping the names that a variant carries.
/// The contract names the result (`create_deployment_kind`).
#[verifier::external_body]
pub(crate) fn kind_of_create_deployment_error(
    error: CreateDeploymentError,
) -> (kind: CreateErrorKind)
    ensures
        kind == create_deployment_kind(error),
{
    match error {
        Create::WatchDeployment(Watch::Timeout { .. }) => CreateErrorKind::WatchTimeout,
        Create::WatchDeployment(Watch::UnhealthyDeployment { .. }) => {
            CreateErrorKind::WatchUnhealthy
        },
        Create::WatchDeployment(Watch::ContainerInspect(_)) => CreateErrorKind::WatchInspect,
        Create::CreateContainer(_) => CreateErrorKind::CreateContainer,
        Create::PullImage(_) => CreateErrorKind::PullImage,
        Create::ContainerAlreadyExists(name) => CreateErrorKind::ContainerAlreadyExists(name),
        Create::ContainerInspect(_) => CreateErrorKind::ContainerInspect,
        Create::UnhealthyDeployment(_) => CreateErrorKind::UnhealthyDeployment,
        Create::GetDeploymentError(_) => CreateErrorKind::GetDeployment,
        Create::ReceiveDeployment(_) => CreateErrorKind::ReceiveDeployment,
        Create::InvalidImage(image) => CreateErrorKind::InvalidImage(image),
    }
}

/// The kind that `kind_of_delete_deployment_error` gives an `atlas_local` `DeleteDeploymentError`:
/// a function of the error alone.
pub uninterp spec fn delete_deployment_kind(error: DeleteDeploymentError) -> DeleteErrorKind;

/// Tells apart the variants of `atlas_local`'s `DeleteDeploymentError`, the error of the deletion
/// of a deployment, one variant of `DeleteErrorKind` for each. The contract names the result
/// (`delete_deployment_kind`).
#[verifier::external_body]
pub(crate) fn kind_of_delete_deployment_error(
    error: DeleteDeploymentError,
) -> (kind: DeleteErrorKind)
    ensures
        kind == delete_deployment_kind(error),
{
    match error {
        DeleteDeploymentError::ContainerStop(_) => DeleteErrorKind::ContainerStop,
        DeleteDeploymentError::ContainerRemove(_) => DeleteErrorKind::ContainerRemove,
        DeleteDeploymentError::GetDeployment(_) => DeleteErrorKind::GetDeployment,
    }
}

/// The kind that `kind_of_get_connection_string_error` gives an `atlas_local`
/// `GetConnectionStringError`: a function of the error alone.
pub uninterp spec fn get_connection_string_kind(
    error: GetConnectionStringError,
) -> ConnectionStringErrorKind;

/// Tells apart the variants of `atlas_local`'s `GetConnectionStringError`, the error of the lookup
/// of a connection string, one variant of `ConnectionStringErrorKind` for each. The contract names
/// the result (`get_connection_string_kind`).
#[verifier::external_body]
pub(crate) fn kind_of_get_connection_string_error(
    error: GetConnectionStringError,
) -> (kind: ConnectionStringErrorKind)
    ensures
        kind == get_connection_string_kind(error),
{
    match error {
        GetConnectionStringError::GetDeployment(_) => ConnectionStringErrorKind::GetDeployment,
        GetConnectionStringError::GetMongodbUsername(_) => {
            ConnectionStringErrorKind::GetMongodbUsername
        },
        GetConnectionStringError::GetMongodbPassword(_) => {
            ConnectionStringErrorKind::GetMongodbPassword
        },
        GetConnectionStringError::MissingPortBinding => {
            ConnectionStringErrorKind::MissingPortBinding
        },
    }
}

/// The kind that `kind_of_get_deployment_error` gives an `atlas_local` `GetDeploymentError`: a
/// function of the error alone.
pub uninterp spec fn get_deployment_kind(error: GetDeploymentError) -> GetErrorKind;

/// Tells apart the variants of `atlas_local`'s `GetDeploymentError`, the error of the lookup of a
/// deployment, one variant of `GetErrorKind` for each (`ContainerInspect` holding
/// `DockerError::NotFound` apart from the other `ContainerInspect`s). The contract names the result
/// (`get_deployment_kind`).
#[verifier::external_body]
pub(crate) fn kind_of_get_deployment_error(error: GetDeploymentError) -> (kind: GetErrorKind)
    ensures
        kind == get_deployment_kind(error),
{
    match error {
        GetDeploymentError::ContainerInspect(DockerError::NotFound) => GetErrorKind::NotFound,
        GetDeploymentError::ContainerInspect(_) => GetErrorKind::ContainerInspect,
        GetDeploymentError::IntoDeployment(_) => GetErrorKind::IntoDeployment,
    }
}

/// The kind that `kind_of_get_logs_error` gives an `atlas_local` `GetLogsError`: a function of the
/// error alone.
pub uninterp spec fn get_logs_kind(error: GetLogsError) -> LogsErrorKind;

/// Tells apart the variants of `atlas_local`'s `GetLogsError`, the error of the reading of logs,
/// one variant of `LogsErrorKind` for each. The contract names the result (`get_logs_kind`).
#[verifier::external_body]
pub(crate) fn kind_of_get_logs_error(error: GetLogsError) -> (kind: LogsErrorKind)
    ensures
        kind == get_logs_kind(error),
{
    match error {
        GetLogsError::ContainerLogs(_) => LogsErrorKind::ContainerLogs,
    }
}

/// The kind that `kind_of_watch_deployment_error` gives an `atlas_local` `WatchDeploymentError`: a
/// function of the error alone.
pub uninterp spec fn watch_deployment_kind(error: WatchDeploymentError) -> WatchErrorKind;

/// Tells apart the variants of `atlas_local`'s `WatchDeploymentError`, the error of the wait for a
/// healthy deployment, one variant of `WatchErrorKind` for each, keeping the name that `Timeout`
/// carries. The contract names the result (`watch_deployment_kind`).
#[verifier::external_body]
pub(crate) fn kind_of_watch_deployment_error(error: WatchDeploymentError) -> (kind: WatchErrorKind)
    ensures
        kind == watch_deployment_kind(error),
{
    match error {
        WatchDeploymentError::ContainerInspect(_) => WatchErrorKind::ContainerInspect,
        WatchDeploymentError::Timeout { deployment_name } => {
            WatchErrorKind::Timeout(deployment_name)
        },
        WatchDeploymentError::UnhealthyDeployment { .. } => WatchErrorKind::Unhealthy,
    }
}

/// The kind that `kind_of_start_deployment_error` gives an `atlas_local` `StartDeploymentError`: a
/// function of the error alone.
pub uninterp spec fn start_deployment_kind(error: StartDeploymentError) -> StartErrorKind;

/// Tells apart the variants of `atlas_local`'s `StartDeploymentError`, the error of the start of a
/// deployment, one variant of `StartErrorKind` for each. The contract names the result
/// (`start_deployment_kind`).
#[verifier::external_body]
pub(crate) fn kind_of_start_deployment_error(error: StartDeploymentError) -> (kind: StartErrorKind)
    ensures
        kind == start_deployment_kind(error),
{
    match error {
        StartDeploymentError::ContainerStart(_) => StartErrorKind::ContainerStart,
        StartDeploymentError::GetDeployment(_) => StartErrorKind::GetDeployment,
        StartDeploymentError::WatchDeployment(_) => StartErrorKind::WatchDeployment,
    }
}

/// The kind that `kind_of_stop_deployment_error` gives an `atlas_local` `StopDeploymentError`: a
/// function of the error alone.
pub uninterp spec fn stop_deployment_kind(error: StopDeploymentError) -> StopErrorKind;

/// Tells apart the variants of `atlas_local`'s `StopDeploymentError`, the error of the stop of a
/// deployment, one variant of `StopErrorKind` for each. The contract names the result
/// (`stop_deployment_kind`).
#[verifier::external_body]
pub(crate) fn kind_of_stop_deployment_error(error: StopDeploymentError) -> (kind: StopErrorKind)
    ensures
        kind == stop_deployment_kind(error),
{
    match error {
        StopDeploymentError::ContainerStop(_) => StopErrorKind::ContainerStop,
        StopDeploymentError::GetDeployment(_) => StopErrorKind::GetDeployment,
    }
}

/// The kind that `kind_of_pause_deployment_error` gives an `atlas_local` `PauseDeploymentError`: a
/// function of the error alone.
pub uninterp spec fn pause_deployment_kind(error: PauseDeploymentError) -> PauseErrorKind;

/// Tells apart the variants of `atlas_local`'s `PauseDeploymentError`, the error of the pause of a
/// deployment, one variant of `PauseErrorKind` for each. The contract names the result
/// (`pause_deployment_kind`).
#[verifier::external_body]
pub(crate) fn kind_of_pause_deployment_error(error: PauseDeploymentError) -> (kind: PauseErrorKind)
    ensures
        kind == pause_deployment_kind(error),
{
    match error {
        PauseDeploymentError::ContainerPause(_) => PauseErrorKind::ContainerPause,
        PauseDeploymentError::GetDeployment(_) => PauseErrorKind::GetDeployment,
    }
}

/// The kind that `kind_of_unpause_deployment_error` gives an `atlas_local`
/// `UnpauseDeploymentError`: a function of the error alone.
pub uninterp spec fn unpause_deployment_kind(error: UnpauseDeploymentError) -> UnpauseErrorKind;

/// Tells apart the variants of `atlas_local`'s `UnpauseDeploymentError`, the error of the unpause
/// of a deployment, one variant of `UnpauseErrorKind` for each. The contract names the result
/// (`unpause_deployment_kind`).
#[verifier::external_body]
pub(crate) fn kind_of_unpause_deployment_error(
    error: UnpauseDeploymentError,
) -> (kind: UnpauseErrorKind)
    ensures
        kind == unpause_deployment_kind(error),
{
    match error {
        UnpauseDeploymentError::ContainerUnpause(_) => UnpauseErrorKind::ContainerUnpause,
        UnpauseDeploymentError::GetDeployment(_) => UnpauseErrorKind::GetDeployment,
    }
}
} // verus!

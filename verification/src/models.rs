//! Plain-value models of the deployment data that the library reasons about:
//! port bindings, image tags, the options a deployment is created with, and
//! the deployment itself as Docker reports it.

use vstd::prelude::*;

verus! {

/// Two optional texts are the same when both are absent, or both are present
/// with the same characters.
pub open spec fn same_text(a: Option<String>, b: Option<String>) -> bool {
    match (a, b) {
        (None, None) => true,
        (Some(x), Some(y)) => x@ == y@,
        _ => false,
    }
}

/// The characters of an optional text.
pub open spec fn text_view(text: Option<String>) -> Option<Seq<char>> {
    match text {
        Some(t) => Some(t@),
        None => None,
    }
}

/// The characters of an optional borrowed text.
pub open spec fn str_view(text: Option<&str>) -> Option<Seq<char>> {
    match text {
        Some(t) => Some(t@),
        None => None,
    }
}

/// Compares two optional texts character by character.
pub fn text_matches(a: &Option<String>, b: &Option<String>) -> (same: bool)
    ensures
        same == same_text(*a, *b),
{
    match (a, b) {
        (None, None) => true,
        (Some(x), Some(y)) => x.eq(y),
        _ => false,
    }
}

/// Borrows the text inside an optional `String`.
pub fn text_ref(text: &Option<String>) -> (r: Option<&str>)
    ensures
        r.is_some() == text.is_some(),
        r.is_some() ==> r.unwrap()@ == text.unwrap()@,
{
    match text {
        Some(s) => Some(s.as_str()),
        None => None,
    }
}

/// An IP address, held as the bits that identify it: `V4` for an IPv4
/// address, `V6` for an IPv6 address.
#[derive(Clone, Copy, Debug, PartialEq, Eq, Structural)]
pub enum IpAddress {
    V4(u32),
    V6(u128),
}

/// How the MongoDB port of a deployment is published on the host.
#[derive(Clone, Copy, Debug, PartialEq, Eq, Structural)]
pub enum BindingType {
    /// Published on 127.0.0.1.
    Loopback,
    /// Published on 0.0.0.0.
    AnyInterface,
    /// Published on one given address.
    Specific { ip: IpAddress },
}

/// The host port (if fixed) and the address that MongoDB is published on.
#[derive(Clone, Copy, Debug, PartialEq, Eq, Structural)]
pub struct PortBinding {
    pub port: Option<u16>,
    pub binding_type: BindingType,
}

impl PortBinding {
    pub fn new(port: Option<u16>, binding_type: BindingType) -> (binding: PortBinding)
        ensures
            binding.port == port,
            binding.binding_type == binding_type,
    {
        PortBinding { port, binding_type }
    }
}

/// The tag of the MongoDB Atlas Local image.
#[derive(Debug, PartialEq, Eq)]
pub enum ImageTag {
    Preview,
    Latest,
    /// A MongoDB version: `8`, `8.2` or `8.2.4`.
    Semver(String),
    /// A MongoDB version followed by a build timestamp `YYYYMMDDTHHMMSSZ`.
    SemverTimestamp(String, String),
}

/// An image tag with its texts taken as characters.
pub enum ImageTagView {
    Preview,
    Latest,
    Semver(Seq<char>),
    SemverTimestamp(Seq<char>, Seq<char>),
}

impl View for ImageTag {
    type V = ImageTagView;

    open spec fn view(&self) -> ImageTagView {
        match self {
            ImageTag::Preview => ImageTagView::Preview,
            ImageTag::Latest => ImageTagView::Latest,
            ImageTag::Semver(v) => ImageTagView::Semver(v@),
            ImageTag::SemverTimestamp(v, t) => ImageTagView::SemverTimestamp(v@, t@),
        }
    }
}

/// Values that can be compared for sameness.
pub trait Matches {
    /// Whether `self` and `other` are the same value.
    spec fn same_as(&self, other: &Self) -> bool;

    /// Compares `self` with `other`.
    fn is_same(&self, other: &Self) -> (same: bool)
        ensures
            same == self.same_as(other),
    ;
}

impl Matches for String {
    open spec fn same_as(&self, other: &Self) -> bool {
        self@ == other@
    }

    fn is_same(&self, other: &Self) -> (same: bool) {
        self.eq(other)
    }
}

impl<'a> Matches for &'a str {
    open spec fn same_as(&self, other: &Self) -> bool {
        (**self)@ == (**other)@
    }

    fn is_same(&self, other: &Self) -> (same: bool) {
        let a = (**self).to_owned();
        let b = (**other).to_owned();
        a.eq(&b)
    }
}

impl Matches for bool {
    open spec fn same_as(&self, other: &Self) -> bool {
        *self == *other
    }

    fn is_same(&self, other: &Self) -> (same: bool) {
        *self == *other
    }
}

/// Sameness is reflexive: every flag, text, image tag and creation source is
/// the same as itself.
pub proof fn sameness_is_reflexive(
    flag: bool,
    text: String,
    word: &str,
    tag: ImageTag,
    source: CreationSource,
)
    ensures
        flag.same_as(&flag),
        text.same_as(&text),
        word.same_as(&word),
        tag.same_as(&tag),
        source.same_as(&source),
{
}

/// Two flags are the same exactly when they are equal.
pub proof fn flags_are_the_same_exactly_when_equal(a: bool, b: bool)
    ensures
        a.same_as(&b) <==> a == b,
{
}

impl Matches for ImageTag {
    open spec fn same_as(&self, other: &Self) -> bool {
        self@ == other@
    }

    fn is_same(&self, other: &Self) -> (same: bool) {
        match (self, other) {
            (ImageTag::Preview, ImageTag::Preview) => true,
            (ImageTag::Latest, ImageTag::Latest) => true,
            (ImageTag::Semver(a), ImageTag::Semver(b)) => a.eq(b),
            (ImageTag::SemverTimestamp(a, s), ImageTag::SemverTimestamp(b, t)) => {
                a.eq(b) && s.eq(t)
            },
            _ => false,
        }
    }
}

/// The tool that created a deployment.
#[derive(Debug, PartialEq, Eq)]
pub enum CreationSource {
    AtlasCli,
    Container,
    McpServer,
    AtlasLocal,
    Unknown(String),
}

/// A creation source with its texts taken as characters.
pub enum CreationSourceView {
    AtlasCli,
    Container,
    McpServer,
    AtlasLocal,
    Unknown(Seq<char>),
}

impl View for CreationSource {
    type V = CreationSourceView;

    open spec fn view(&self) -> CreationSourceView {
        match self {
            CreationSource::AtlasCli => CreationSourceView::AtlasCli,
            CreationSource::Container => CreationSourceView::Container,
            CreationSource::McpServer => CreationSourceView::McpServer,
            CreationSource::AtlasLocal => CreationSourceView::AtlasLocal,
            CreationSource::Unknown(t) => CreationSourceView::Unknown(t@),
        }
    }
}

impl Matches for CreationSource {
    open spec fn same_as(&self, other: &Self) -> bool {
        self@ == other@
    }

    fn is_same(&self, other: &Self) -> (same: bool) {
        match (self, other) {
            (CreationSource::AtlasCli, CreationSource::AtlasCli) => true,
            (CreationSource::Container, CreationSource::Container) => true,
            (CreationSource::McpServer, CreationSource::McpServer) => true,
            (CreationSource::AtlasLocal, CreationSource::AtlasLocal) => true,
            (CreationSource::Unknown(a), CreationSource::Unknown(b)) => a.eq(b),
            _ => false,
        }
    }
}

/// Whether two optional values are both absent, or both present and the
/// same.
pub open spec fn same_option<T: Matches>(a: Option<T>, b: Option<T>) -> bool {
    match (a, b) {
        (None, None) => true,
        (Some(x), Some(y)) => x.same_as(&y),
        _ => false,
    }
}

/// Compares two optional values.
pub fn option_is_same<T: Matches>(a: &Option<T>, b: &Option<T>) -> (same: bool)
    ensures
        same == same_option(*a, *b),
{
    match (a, b) {
        (None, None) => true,
        (Some(x), Some(y)) => x.is_same(y),
        _ => false,
    }
}

/// The state of a deployment's container, as Docker reports it.
#[derive(Clone, Copy, Debug, PartialEq, Eq, Structural)]
pub enum State {
    Created,
    Dead,
    Exited,
    Paused,
    Removing,
    Restarting,
    Running,
}

/// The name that each state is shown under.
pub open spec fn state_name(state: State) -> Seq<char> {
    match state {
        State::Created => "created"@,
        State::Dead => "dead"@,
        State::Exited => "exited"@,
        State::Paused => "paused"@,
        State::Removing => "removing"@,
        State::Restarting => "restarting"@,
        State::Running => "running"@,
    }
}

impl State {
    /// The state's name: `created`, `dead`, `exited`, `paused`, `removing`,
    /// `restarting` or `running`.
    pub fn name(&self) -> (name: &'static str)
        ensures
            name@ == state_name(*self),
    {
        proof {
            reveal_strlit("created");
            reveal_strlit("dead");
            reveal_strlit("exited");
            reveal_strlit("paused");
            reveal_strlit("removing");
            reveal_strlit("restarting");
            reveal_strlit("running");
        }
        match self {
            State::Created => "created",
            State::Dead => "dead",
            State::Exited => "exited",
            State::Paused => "paused",
            State::Removing => "removing",
            State::Restarting => "restarting",
            State::Running => "running",
        }
    }
}

/// Each state is shown under a name of its own, the state's name in lower
/// case: two states shown under the same name are the same state.
pub proof fn states_have_distinct_names(a: State, b: State)
    ensures
        state_name(a) == state_name(b) ==> a == b,
        state_name(State::Created) == "created"@,
        state_name(State::Dead) == "dead"@,
        state_name(State::Exited) == "exited"@,
        state_name(State::Paused) == "paused"@,
        state_name(State::Removing) == "removing"@,
        state_name(State::Restarting) == "restarting"@,
        state_name(State::Running) == "running"@,
{
    reveal_strlit("created");
    reveal_strlit("dead");
    reveal_strlit("exited");
    reveal_strlit("paused");
    reveal_strlit("removing");
    reveal_strlit("restarting");
    reveal_strlit("running");
    assert("created"@.len() == 7);
    assert("dead"@.len() == 4);
    assert("exited"@.len() == 6);
    assert("paused"@.len() == 6);
    assert("removing"@.len() == 8);
    assert("restarting"@.len() == 10);
    assert("running"@.len() == 7);
    assert("created"@[0] == 'c');
    assert("running"@[0] == 'r');
    assert("exited"@[0] == 'e');
    assert("paused"@[0] == 'p');
}

/// The MongoDB edition that a deployment runs.
#[derive(Clone, Copy, Debug, PartialEq, Eq, Structural)]
pub enum MongodbType {
    Community,
    Enterprise,
}

/// The options a deployment is created with. An absent option is left to
/// the deployment's defaults.
#[derive(Debug)]
pub struct CreateDeploymentOptions {
    pub name: Option<String>,
    pub image: Option<String>,
    pub skip_pull_image: Option<bool>,
    pub image_tag: Option<ImageTag>,
    pub wait_until_healthy: Option<bool>,
    /// In seconds.
    pub wait_until_healthy_timeout: Option<u64>,
    pub creation_source: Option<CreationSource>,
    pub local_seed_location: Option<String>,
    pub mongodb_initdb_root_password: Option<String>,
    pub mongodb_initdb_root_username: Option<String>,
    pub voyage_api_key: Option<String>,
    pub load_sample_data: Option<bool>,
    pub do_not_track: Option<bool>,
    pub mongodb_port_binding: Option<PortBinding>,
}

impl CreateDeploymentOptions {
    /// Options that ask for nothing in particular.
    pub fn empty() -> (options: CreateDeploymentOptions)
        ensures
            options.name.is_none(),
            options.image.is_none(),
            options.skip_pull_image.is_none(),
            options.image_tag.is_none(),
            options.wait_until_healthy.is_none(),
            options.wait_until_healthy_timeout.is_none(),
            options.creation_source.is_none(),
            options.local_seed_location.is_none(),
            options.mongodb_initdb_root_password.is_none(),
            options.mongodb_initdb_root_username.is_none(),
            options.voyage_api_key.is_none(),
            options.load_sample_data.is_none(),
            options.do_not_track.is_none(),
            options.mongodb_port_binding.is_none(),
    {
        CreateDeploymentOptions {
            name: None,
            image: None,
            skip_pull_image: None,
            image_tag: None,
            wait_until_healthy: None,
            wait_until_healthy_timeout: None,
            creation_source: None,
            local_seed_location: None,
            mongodb_initdb_root_password: None,
            mongodb_initdb_root_username: None,
            voyage_api_key: None,
            load_sample_data: None,
            do_not_track: None,
            mongodb_port_binding: None,
        }
    }
}

/// A local Atlas deployment as Docker reports it.
#[derive(Debug)]
pub struct Deployment {
    pub container_id: String,
    pub name: Option<String>,
    pub state: State,
    pub port_bindings: Option<PortBinding>,
    pub image: Option<String>,
    pub image_tag: Option<ImageTag>,
    pub mongodb_type: MongodbType,
    /// The MongoDB version, as text.
    pub mongodb_version: String,
    pub creation_source: Option<CreationSource>,
    pub local_seed_location: Option<String>,
    pub mongodb_initdb_database: Option<String>,
    pub mongodb_initdb_root_password_file: Option<String>,
    pub mongodb_initdb_root_password: Option<String>,
    pub mongodb_initdb_root_username_file: Option<String>,
    pub mongodb_initdb_root_username: Option<String>,
    pub mongodb_load_sample_data: Option<bool>,
    pub voyage_api_key: Option<String>,
    /// The embedding gateway URL, as text.
    pub embedding_provider_endpoint: Option<String>,
    pub mongot_log_file: Option<String>,
    pub runner_log_file: Option<String>,
    pub do_not_track: bool,
    pub telemetry_base_url: Option<String>,
}

/// How many log lines to read from the end of a container's log.
#[derive(Clone, Copy, Debug, PartialEq, Eq, Structural)]
pub enum Tail {
    All,
    Number(u64),
}

/// The options an existing deployment is started with.
#[derive(Clone, Copy, Debug, PartialEq, Eq, Structural)]
pub struct StartDeploymentOptions {
    pub wait_until_healthy: Option<bool>,
    /// In seconds.
    pub wait_until_healthy_timeout: Option<u64>,
}

} // verus!

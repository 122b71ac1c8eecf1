//! Comparison between the options a caller asked for and the deployment that
//! already exists under that name.

use vstd::prelude::*;
use crate::models::{CreateDeploymentOptions, Deployment, Matches, PortBinding, text_view};
use crate::outside::{debug_quoted, debug_text};
use crate::python_error::{ExceptionClass, PythonError, PythonErrorView, python_error};

verus! {

/// The characters of each text in `texts`.
pub open spec fn texts(texts: Seq<String>) -> Seq<Seq<char>> {
    texts.map_values(|t: String| t@)
}

/// The value an optional reference points to.
pub open spec fn deref_option<T>(o: Option<&T>) -> Option<T> {
    match o {
        Some(x) => Some(*x),
        None => None,
    }
}

/// Whether the existing value holds what was requested: nothing was
/// requested, or the existing value is present and the same.
pub open spec fn holds<T: Matches>(requested: Option<T>, existing: Option<T>) -> bool {
    match requested {
        None => true,
        Some(r) => match existing {
            Some(e) => e.same_as(&r),
            None => false,
        },
    }
}

/// The conflict reported for `field`: the field's name when the existing
/// value does not hold what was requested, nothing otherwise.
pub open spec fn field_conflict<T: Matches>(
    field: Seq<char>,
    requested: Option<T>,
    existing: Option<T>,
) -> Seq<Seq<char>> {
    if holds(requested, existing) {
        Seq::empty()
    } else {
        seq![field]
    }
}

/// Whether an existing port binding holds the requested one: nothing was
/// requested, or a binding exists on the same address and, where a port was
/// requested, on the same port.
pub open spec fn binding_holds(
    requested: Option<PortBinding>,
    existing: Option<PortBinding>,
) -> bool {
    match requested {
        None => true,
        Some(r) => match existing {
            None => false,
            Some(e) => (r.port.is_none() || r.port == e.port) && r.binding_type == e.binding_type,
        },
    }
}

/// The conflicts between a requested port binding and the existing one.
pub open spec fn binding_conflicts(
    requested: Option<PortBinding>,
    existing: Option<PortBinding>,
) -> Seq<Seq<char>> {
    match requested {
        None => Seq::empty(),
        Some(r) => match existing {
            None => seq!["port/ip"@],
            Some(e) => (if r.port.is_some() && r.port != e.port {
                seq!["port"@]
            } else {
                Seq::empty()
            }) + (if r.binding_type != e.binding_type {
                seq!["ip (the deployment is bound to a different address)"@]
            } else {
                Seq::empty()
            }),
        },
    }
}

/// Every option that `options` requests, which the deployment does not hold,
/// in the order: image, image tag, port binding, local seed location, sample
/// data, root username, root password, Voyage API key, telemetry.
pub open spec fn option_conflicts(deployment: Deployment, options: CreateDeploymentOptions) -> Seq<
    Seq<char>,
> {
    field_conflict("image"@, options.image, deployment.image) + field_conflict(
        "image_tag"@,
        options.image_tag,
        deployment.image_tag,
    ) + binding_conflicts(options.mongodb_port_binding, deployment.port_bindings) + field_conflict(
        "local_seed_location"@,
        options.local_seed_location,
        deployment.local_seed_location,
    ) + field_conflict(
        "load_sample_data"@,
        options.load_sample_data,
        deployment.mongodb_load_sample_data,
    ) + field_conflict(
        "mongodb_initdb_root_username"@,
        options.mongodb_initdb_root_username,
        deployment.mongodb_initdb_root_username,
    ) + field_conflict(
        "mongodb_initdb_root_password"@,
        options.mongodb_initdb_root_password,
        deployment.mongodb_initdb_root_password,
    ) + field_conflict("voyage_api_key"@, options.voyage_api_key, deployment.voyage_api_key)
        + field_conflict("do_not_track"@, options.do_not_track, Some(deployment.do_not_track))
}

/// Whether the deployment holds every option that `options` requests.
pub open spec fn deployment_satisfies(
    deployment: Deployment,
    options: CreateDeploymentOptions,
) -> bool {
    &&& holds(options.image, deployment.image)
    &&& holds(options.image_tag, deployment.image_tag)
    &&& binding_holds(options.mongodb_port_binding, deployment.port_bindings)
    &&& holds(options.local_seed_location, deployment.local_seed_location)
    &&& holds(options.load_sample_data, deployment.mongodb_load_sample_data)
    &&& holds(options.mongodb_initdb_root_username, deployment.mongodb_initdb_root_username)
    &&& holds(options.mongodb_initdb_root_password, deployment.mongodb_initdb_root_password)
    &&& holds(options.voyage_api_key, deployment.voyage_api_key)
    &&& holds(options.do_not_track, Some(deployment.do_not_track))
}

/// The texts of `parts`, with `separator` between each two.
pub open spec fn joined(parts: Seq<Seq<char>>, separator: Seq<char>) -> Seq<char>
    decreases parts.len(),
{
    if parts.len() == 0 {
        Seq::empty()
    } else if parts.len() == 1 {
        parts[0]
    } else {
        joined(parts.drop_last(), separator) + separator + parts.last()
    }
}

/// The message that refuses to reuse the deployment `name`, whose options
/// conflict with the requested ones on `conflicts`.
pub open spec fn mismatch_message(name: Seq<char>, conflicts: Seq<Seq<char>>) -> Seq<char> {
    "Deployment "@ + debug_quoted(name)
        + " already exists and does not match the requested options: "@ + joined(
        conflicts,
        ", "@,
    ) + ". Delete it first or omit the conflicting options."@
}

/// The error that `ensure_options_match` gives for the deployment `name`, or
/// none where the deployment holds every requested option.
pub open spec fn mismatch_error(
    name: Seq<char>,
    deployment: Deployment,
    options: CreateDeploymentOptions,
) -> Option<PythonErrorView> {
    let conflicts = option_conflicts(deployment, options);
    if conflicts.len() == 0 {
        None
    } else {
        Some(python_error(ExceptionClass::ValueError, mismatch_message(name, conflicts)))
    }
}

/// A deployment is refused exactly when it does not hold some option that
/// was requested: the list of conflicts is empty if and only if the
/// deployment holds every requested option.
pub proof fn conflicts_are_empty_exactly_when_satisfied(
    deployment: Deployment,
    options: CreateDeploymentOptions,
)
    ensures
        (option_conflicts(deployment, options).len() == 0) == deployment_satisfies(
            deployment,
            options,
        ),
{
    let d = deployment;
    let o = options;
    assert(binding_conflicts(o.mongodb_port_binding, d.port_bindings).len() == 0
        <==> binding_holds(o.mongodb_port_binding, d.port_bindings));
}

/// Where a field stands in the order in which conflicts are reported.
pub open spec fn field_position(field: Seq<char>) -> int {
    if false {
        0
    } else if field == "image"@ {
        0
    } else if field == "image_tag"@ {
        1
    } else if field == "port/ip"@ {
        2
    } else if field == "port"@ {
        3
    } else if field == "ip (the deployment is bound to a different address)"@ {
        4
    } else if field == "local_seed_location"@ {
        5
    } else if field == "load_sample_data"@ {
        6
    } else if field == "mongodb_initdb_root_username"@ {
        7
    } else if field == "mongodb_initdb_root_password"@ {
        8
    } else if field == "voyage_api_key"@ {
        9
    } else if field == "do_not_track"@ {
        10
    } else {
        11
    }
}

/// Appending conflicts that stand later in the order to conflicts that stand
/// earlier keeps them free of duplicates.
proof fn append_later_conflicts(earlier: Seq<Seq<char>>, later: Seq<Seq<char>>, from: int, to: int)
    requires
        from <= to,
        earlier.no_duplicates(),
        later.no_duplicates(),
        forall|i: int| 0 <= i < earlier.len() ==> field_position(#[trigger] earlier[i]) < from,
        forall|i: int|
            0 <= i < later.len() ==> from <= field_position(#[trigger] later[i]) < to,
    ensures
        (earlier + later).no_duplicates(),
        forall|i: int|
            0 <= i < (earlier + later).len() ==> field_position(#[trigger] (earlier + later)[i])
                < to,
{
    assert forall|i: int, j: int| 0 <= i < earlier.len() && 0 <= j < later.len() implies earlier[i]
        != later[j] by {
        assert(field_position(earlier[i]) < from);
        assert(from <= field_position(later[j]));
    }
    vstd::seq_lib::lemma_no_dup_in_concat(earlier, later);
    assert forall|i: int| 0 <= i < (earlier + later).len() implies field_position(
        #[trigger] (earlier + later)[i],
    ) < to by {
        if i < earlier.len() {
            assert((earlier + later)[i] == earlier[i]);
        } else {
            assert((earlier + later)[i] == later[i - earlier.len()]);
        }
    }
}

/// No option is reported twice among the conflicts.
pub proof fn conflicts_have_no_duplicates(deployment: Deployment, options: CreateDeploymentOptions)
    ensures
        option_conflicts(deployment, options).no_duplicates(),
{
    reveal_strlit("image");
    reveal_strlit("image_tag");
    reveal_strlit("port/ip");
    reveal_strlit("port");
    reveal_strlit("ip (the deployment is bound to a different address)");
    reveal_strlit("local_seed_location");
    reveal_strlit("load_sample_data");
    reveal_strlit("mongodb_initdb_root_username");
    reveal_strlit("mongodb_initdb_root_password");
    reveal_strlit("voyage_api_key");
    reveal_strlit("do_not_track");
    assert("image"@.len() == 5);
    assert("image_tag"@.len() == 9);
    assert("port/ip"@.len() == 7);
    assert("port"@.len() == 4);
    assert("ip (the deployment is bound to a different address)"@.len() == 51);
    assert("local_seed_location"@.len() == 19);
    assert("load_sample_data"@.len() == 16);
    assert("mongodb_initdb_root_username"@.len() == 28);
    assert("mongodb_initdb_root_password"@.len() == 28);
    assert("voyage_api_key"@.len() == 14);
    assert("do_not_track"@.len() == 12);
    assert("mongodb_initdb_root_username"@[20] != "mongodb_initdb_root_password"@[20]);
    assert(field_position("image"@) == 0);
    assert(field_position("image_tag"@) == 1);
    assert(field_position("port/ip"@) == 2);
    assert(field_position("port"@) == 3);
    assert(field_position("ip (the deployment is bound to a different address)"@) == 4);
    assert(field_position("local_seed_location"@) == 5);
    assert(field_position("load_sample_data"@) == 6);
    assert(field_position("mongodb_initdb_root_username"@) == 7);
    assert(field_position("mongodb_initdb_root_password"@) == 8);
    assert(field_position("voyage_api_key"@) == 9);
    assert(field_position("do_not_track"@) == 10);
    let d = deployment;
    let o = options;
    let p0 = field_conflict("image"@, o.image, d.image);
    let p1 = field_conflict("image_tag"@, o.image_tag, d.image_tag);
    let p2 = binding_conflicts(o.mongodb_port_binding, d.port_bindings);
    let p3 = field_conflict("local_seed_location"@, o.local_seed_location, d.local_seed_location);
    let p4 = field_conflict("load_sample_data"@, o.load_sample_data, d.mongodb_load_sample_data);
    let p5 = field_conflict(
        "mongodb_initdb_root_username"@,
        o.mongodb_initdb_root_username,
        d.mongodb_initdb_root_username,
    );
    let p6 = field_conflict(
        "mongodb_initdb_root_password"@,
        o.mongodb_initdb_root_password,
        d.mongodb_initdb_root_password,
    );
    let p7 = field_conflict("voyage_api_key"@, o.voyage_api_key, d.voyage_api_key);
    let p8 = field_conflict("do_not_track"@, o.do_not_track, Some(d.do_not_track));
    let empty: Seq<Seq<char>> = Seq::empty();
    assert(empty + p0 =~= p0);
    append_later_conflicts(empty, p0, 0, 1);
    append_later_conflicts(p0, p1, 1, 2);
    append_later_conflicts(p0 + p1, p2, 2, 5);
    append_later_conflicts(p0 + p1 + p2, p3, 5, 6);
    append_later_conflicts(p0 + p1 + p2 + p3, p4, 6, 7);
    append_later_conflicts(p0 + p1 + p2 + p3 + p4, p5, 7, 8);
    append_later_conflicts(p0 + p1 + p2 + p3 + p4 + p5, p6, 8, 9);
    append_later_conflicts(p0 + p1 + p2 + p3 + p4 + p5 + p6, p7, 9, 10);
    append_later_conflicts(p0 + p1 + p2 + p3 + p4 + p5 + p6 + p7, p8, 10, 11);
}

/// Options that request nothing are held by every deployment.
pub proof fn nothing_requested_matches_any_deployment(
    deployment: Deployment,
    options: CreateDeploymentOptions,
)
    requires
        options.image.is_none(),
        options.image_tag.is_none(),
        options.mongodb_port_binding.is_none(),
        options.local_seed_location.is_none(),
        options.load_sample_data.is_none(),
        options.mongodb_initdb_root_username.is_none(),
        options.mongodb_initdb_root_password.is_none(),
        options.voyage_api_key.is_none(),
        options.do_not_track.is_none(),
    ensures
        option_conflicts(deployment, options).len() == 0,
        forall|name: Seq<char>| #[trigger] mismatch_error(name, deployment, options).is_none(),
{
    conflicts_are_empty_exactly_when_satisfied(deployment, options);
}

/// Requesting an option with the very value that the deployment already
/// holds is never a conflict: a deployment is reused by every request whose
/// options are each absent or equal to the deployment's own value.
pub proof fn requesting_held_values_is_no_conflict(
    deployment: Deployment,
    options: CreateDeploymentOptions,
)
    requires
        options.image is None || options.image == deployment.image,
        options.image_tag is None || options.image_tag == deployment.image_tag,
        options.mongodb_port_binding is None || options.mongodb_port_binding
            == deployment.port_bindings,
        options.local_seed_location is None || options.local_seed_location
            == deployment.local_seed_location,
        options.load_sample_data is None || options.load_sample_data
            == deployment.mongodb_load_sample_data,
        options.mongodb_initdb_root_username is None || options.mongodb_initdb_root_username
            == deployment.mongodb_initdb_root_username,
        options.mongodb_initdb_root_password is None || options.mongodb_initdb_root_password
            == deployment.mongodb_initdb_root_password,
        options.voyage_api_key is None || options.voyage_api_key == deployment.voyage_api_key,
        options.do_not_track is None || options.do_not_track == Some(deployment.do_not_track),
    ensures
        deployment_satisfies(deployment, options),
        option_conflicts(deployment, options).len() == 0,
        forall|name: Seq<char>| #[trigger] mismatch_error(name, deployment, options).is_none(),
{
    conflicts_are_empty_exactly_when_satisfied(deployment, options);
}

/// A value found in either part of a concatenation is found in the whole.
proof fn found_in_concat(x: Seq<Seq<char>>, y: Seq<Seq<char>>, f: Seq<char>)
    ensures
        x.contains(f) ==> (x + y).contains(f),
        y.contains(f) ==> (x + y).contains(f),
{
    if x.contains(f) {
        let i = choose|i: int| 0 <= i < x.len() && x[i] == f;
        assert((x + y)[i] == f);
    }
    if y.contains(f) {
        let j = choose|j: int| 0 <= j < y.len() && y[j] == f;
        assert((x + y)[x.len() + j] == f);
    }
}

/// Whatever the check of one requested option reports is among the
/// conflicts.
proof fn field_conflicts_are_reported(
    deployment: Deployment,
    options: CreateDeploymentOptions,
    f: Seq<char>,
)
    ensures
        field_conflict("image"@, options.image, deployment.image).contains(f)
            ==> option_conflicts(deployment, options).contains(f),
        field_conflict("image_tag"@, options.image_tag, deployment.image_tag).contains(f)
            ==> option_conflicts(deployment, options).contains(f),
        binding_conflicts(options.mongodb_port_binding, deployment.port_bindings).contains(f)
            ==> option_conflicts(deployment, options).contains(f),
        field_conflict(
            "local_seed_location"@,
            options.local_seed_location,
            deployment.local_seed_location,
        ).contains(f) ==> option_conflicts(deployment, options).contains(f),
        field_conflict(
            "load_sample_data"@,
            options.load_sample_data,
            deployment.mongodb_load_sample_data,
        ).contains(f) ==> option_conflicts(deployment, options).contains(f),
        field_conflict(
            "mongodb_initdb_root_username"@,
            options.mongodb_initdb_root_username,
            deployment.mongodb_initdb_root_username,
        ).contains(f) ==> option_conflicts(deployment, options).contains(f),
        field_conflict(
            "mongodb_initdb_root_password"@,
            options.mongodb_initdb_root_password,
            deployment.mongodb_initdb_root_password,
        ).contains(f) ==> option_conflicts(deployment, options).contains(f),
        field_conflict("voyage_api_key"@, options.voyage_api_key, deployment.voyage_api_key).contains(
            f,
        ) ==> option_conflicts(deployment, options).contains(f),
        field_conflict("do_not_track"@, options.do_not_track, Some(deployment.do_not_track)).contains(
            f,
        ) ==> option_conflicts(deployment, options).contains(f),
{
    let d = deployment;
    let o = options;
    let p0 = field_conflict("image"@, o.image, d.image);
    let p1 = field_conflict("image_tag"@, o.image_tag, d.image_tag);
    let p2 = binding_conflicts(o.mongodb_port_binding, d.port_bindings);
    let p3 = field_conflict("local_seed_location"@, o.local_seed_location, d.local_seed_location);
    let p4 = field_conflict("load_sample_data"@, o.load_sample_data, d.mongodb_load_sample_data);
    let p5 = field_conflict(
        "mongodb_initdb_root_username"@,
        o.mongodb_initdb_root_username,
        d.mongodb_initdb_root_username,
    );
    let p6 = field_conflict(
        "mongodb_initdb_root_password"@,
        o.mongodb_initdb_root_password,
        d.mongodb_initdb_root_password,
    );
    let p7 = field_conflict("voyage_api_key"@, o.voyage_api_key, d.voyage_api_key);
    let p8 = field_conflict("do_not_track"@, o.do_not_track, Some(d.do_not_track));
    found_in_concat(p0, p1, f);
    found_in_concat(p0 + p1, p2, f);
    found_in_concat(p0 + p1 + p2, p3, f);
    found_in_concat(p0 + p1 + p2 + p3, p4, f);
    found_in_concat(p0 + p1 + p2 + p3 + p4, p5, f);
    found_in_concat(p0 + p1 + p2 + p3 + p4 + p5, p6, f);
    found_in_concat(p0 + p1 + p2 + p3 + p4 + p5 + p6, p7, f);
    found_in_concat(p0 + p1 + p2 + p3 + p4 + p5 + p6 + p7, p8, f);
}

/// An option requested with a value other than the deployment's is reported
/// under the option's name: a flag whose value differs, or a text whose
/// characters differ.
pub proof fn differing_values_are_conflicts(
    deployment: Deployment,
    options: CreateDeploymentOptions,
)
    ensures
        options.load_sample_data is Some && options.load_sample_data
            != deployment.mongodb_load_sample_data ==> option_conflicts(
            deployment,
            options,
        ).contains("load_sample_data"@),
        options.do_not_track is Some && options.do_not_track != Some(deployment.do_not_track)
            ==> option_conflicts(deployment, options).contains("do_not_track"@),
        options.image is Some && text_view(options.image) != text_view(deployment.image)
            ==> option_conflicts(deployment, options).contains("image"@),
        options.local_seed_location is Some && text_view(options.local_seed_location)
            != text_view(deployment.local_seed_location) ==> option_conflicts(
            deployment,
            options,
        ).contains("local_seed_location"@),
        options.mongodb_initdb_root_username is Some && text_view(
            options.mongodb_initdb_root_username,
        ) != text_view(deployment.mongodb_initdb_root_username) ==> option_conflicts(
            deployment,
            options,
        ).contains("mongodb_initdb_root_username"@),
        options.mongodb_initdb_root_password is Some && text_view(
            options.mongodb_initdb_root_password,
        ) != text_view(deployment.mongodb_initdb_root_password) ==> option_conflicts(
            deployment,
            options,
        ).contains("mongodb_initdb_root_password"@),
        options.voyage_api_key is Some && text_view(options.voyage_api_key) != text_view(
            deployment.voyage_api_key,
        ) ==> option_conflicts(deployment, options).contains("voyage_api_key"@),
{
    let fields = seq![
        "load_sample_data"@,
        "do_not_track"@,
        "image"@,
        "local_seed_location"@,
        "mongodb_initdb_root_username"@,
        "mongodb_initdb_root_password"@,
        "voyage_api_key"@,
    ];
    field_conflicts_are_reported(deployment, options, fields[0]);
    field_conflicts_are_reported(deployment, options, fields[1]);
    field_conflicts_are_reported(deployment, options, fields[2]);
    field_conflicts_are_reported(deployment, options, fields[3]);
    field_conflicts_are_reported(deployment, options, fields[4]);
    field_conflicts_are_reported(deployment, options, fields[5]);
    field_conflicts_are_reported(deployment, options, fields[6]);
    assert(seq![fields[0]][0] == fields[0]);
    assert(seq![fields[1]][0] == fields[1]);
    assert(seq![fields[2]][0] == fields[2]);
    assert(seq![fields[3]][0] == fields[3]);
    assert(seq![fields[4]][0] == fields[4]);
    assert(seq![fields[5]][0] == fields[5]);
    assert(seq![fields[6]][0] == fields[6]);
}

/// Appends `field` to `conflicts` when the existing value does not hold what
/// was requested.
pub fn compare<T: Matches>(
    field: &str,
    requested: Option<&T>,
    existing: Option<&T>,
    conflicts: &mut Vec<String>,
)
    ensures
        texts(final(conflicts)@) == texts(old(conflicts)@) + field_conflict(
            field@,
            deref_option(requested),
            deref_option(existing),
        ),
{
    let ghost before = conflicts@;
    let requested = match requested {
        Some(r) => r,
        None => {
            assert(texts(conflicts@) =~= texts(before) + Seq::empty());
            return ;
        },
    };
    let held = match existing {
        Some(e) => e.is_same(requested),
        None => false,
    };
    if !held {
        conflicts.push(field.to_owned());
        assert(texts(conflicts@) =~= texts(before) + seq![field@]);
    } else {
        assert(texts(conflicts@) =~= texts(before) + Seq::empty());
    }
}

/// Appends the conflicts between a requested port binding and the existing
/// one to `conflicts`.
pub fn compare_port_binding(
    requested: Option<&PortBinding>,
    existing: Option<&PortBinding>,
    conflicts: &mut Vec<String>,
)
    ensures
        texts(final(conflicts)@) == texts(old(conflicts)@) + binding_conflicts(
            deref_option(requested),
            deref_option(existing),
        ),
{
    let ghost before = conflicts@;
    let requested = match requested {
        Some(r) => r,
        None => {
            assert(texts(conflicts@) =~= texts(before) + Seq::empty());
            return ;
        },
    };
    let existing = match existing {
        Some(e) => e,
        None => {
            conflicts.push("port/ip".to_owned());
            assert(texts(conflicts@) =~= texts(before) + seq!["port/ip"@]);
            return ;
        },
    };
    let ghost port_part: Seq<Seq<char>> = if requested.port.is_some() && requested.port
        != existing.port {
        seq!["port"@]
    } else {
        Seq::empty()
    };
    let ghost ip_part: Seq<Seq<char>> = if requested.binding_type != existing.binding_type {
        seq!["ip (the deployment is bound to a different address)"@]
    } else {
        Seq::empty()
    };
    // Only compare the port when the caller explicitly provided one.
    if requested.port.is_some() && requested.port != existing.port {
        conflicts.push("port".to_owned());
    }
    assert(texts(conflicts@) =~= texts(before) + port_part);
    if requested.binding_type != existing.binding_type {
        conflicts.push("ip (the deployment is bound to a different address)".to_owned());
    }
    assert(texts(conflicts@) =~= texts(before) + port_part + ip_part);
}

/// Joins `parts` with `separator` between each two.
pub fn join(parts: &Vec<String>, separator: &str) -> (all: String)
    ensures
        all@ == joined(texts(parts@), separator@),
{
    let mut all = String::new();
    let ghost parts_texts = texts(parts@);
    let mut i: usize = 0;
    while i < parts.len()
        invariant
            i <= parts.len(),
            parts_texts == texts(parts@),
            all@ == joined(parts_texts.take(i as int), separator@),
        decreases parts.len() - i,
    {
        if i != 0 {
            all.append(separator);
        }
        all.append(parts[i].as_str());
        assert(parts_texts.take(i + 1).drop_last() =~= parts_texts.take(i as int));
        i = i + 1;
    }
    assert(parts_texts.take(parts.len() as int) =~= parts_texts);
    all
}

/// Refuses to reuse the deployment `name` unless it holds every option that
/// `options` requests; the error lists each conflicting option.
pub fn ensure_options_match(
    name: &str,
    deployment: &Deployment,
    options: &CreateDeploymentOptions,
) -> (outcome: Result<(), PythonError>)
    ensures
        outcome.is_ok() == mismatch_error(name@, *deployment, *options).is_none(),
        outcome matches Err(e) ==> Some(e@) == mismatch_error(name@, *deployment, *options),
{
    let mut conflicts: Vec<String> = Vec::new();
    assert(texts(conflicts@) =~= Seq::empty());

    compare("image", options.image.as_ref(), deployment.image.as_ref(), &mut conflicts);
    compare("image_tag", options.image_tag.as_ref(), deployment.image_tag.as_ref(), &mut conflicts);
    compare_port_binding(
        options.mongodb_port_binding.as_ref(),
        deployment.port_bindings.as_ref(),
        &mut conflicts,
    );
    compare(
        "local_seed_location",
        options.local_seed_location.as_ref(),
        deployment.local_seed_location.as_ref(),
        &mut conflicts,
    );
    compare(
        "load_sample_data",
        options.load_sample_data.as_ref(),
        deployment.mongodb_load_sample_data.as_ref(),
        &mut conflicts,
    );
    compare(
        "mongodb_initdb_root_username",
        options.mongodb_initdb_root_username.as_ref(),
        deployment.mongodb_initdb_root_username.as_ref(),
        &mut conflicts,
    );
    compare(
        "mongodb_initdb_root_password",
        options.mongodb_initdb_root_password.as_ref(),
        deployment.mongodb_initdb_root_password.as_ref(),
        &mut conflicts,
    );
    compare(
        "voyage_api_key",
        options.voyage_api_key.as_ref(),
        deployment.voyage_api_key.as_ref(),
        &mut conflicts,
    );
    compare(
        "do_not_track",
        options.do_not_track.as_ref(),
        Some(&deployment.do_not_track),
        &mut conflicts,
    );

    assert(texts(conflicts@) =~= option_conflicts(*deployment, *options));

    if conflicts.len() == 0 {
        return Ok(());
    }
    let mut message = "Deployment ".to_owned();
    message.append(debug_text(name).as_str());
    message.append(" already exists and does not match the requested options: ");
    message.append(join(&conflicts, ", ").as_str());
    message.append(". Delete it first or omit the conflicting options.");
    Err(PythonError { class: ExceptionClass::ValueError, message })
}

} // verus!

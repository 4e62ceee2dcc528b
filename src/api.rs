//! The public operations: parse, expand, their JSON forms, normalisation and
//! the outcome of a data download.

use vstd::prelude::*;
use crate::address::ParsedAddress;
use crate::error::{prefixed, PostalError};
use crate::json::{
    expanded_to_json, item_views, json_array_text, json_object_text,
    parsed_to_json,
};
use crate::parser::{
    blank_message, expand_address_string, expand_context, expand_outcome, is_invalid_input,
    parse_address_with_options, parse_context, parse_outcome,
};
use crate::text::{is_blank, join_comma, join_with_comma, to_upper, upper_of};

verus! {

/// Parses an address into its components.
pub fn parse_address(address: &str) -> (r: Result<ParsedAddress, PostalError>)
    ensures
        parse_outcome(address@, r),
{
    parse_address_with_options(address)
}

/// Parses an address and writes its components as a JSON object.
pub fn parse_address_to_json(address: &str) -> (r: Result<String, PostalError>)
    ensures
        is_blank(address@) ==> (r matches Err(e) && is_invalid_input(
            e,
            blank_message(),
            parse_context(),
        )),
        r matches Ok(s) ==> exists|p: ParsedAddress|
            parse_outcome(address@, Ok(p)) && s@ == json_object_text(#[trigger] p.pairs()),
        r matches Err(e) ==> parse_outcome(address@, Err(e)),
{
    match parse_address_with_options(address) {
        Ok(p) => parsed_to_json(&p),
        Err(e) => Err(e),
    }
}

/// Expands the abbreviations of an address into its variants, in libpostal's
/// order.
pub fn expand_address(address: &str) -> (r: Result<Vec<String>, PostalError>)
    ensures
        expand_outcome(address@, r),
{
    expand_address_string(address)
}

/// Expands an address and writes its variants as a JSON array, in their
/// order.
pub fn expand_address_to_json(address: &str) -> (r: Result<String, PostalError>)
    ensures
        is_blank(address@) ==> (r matches Err(e) && is_invalid_input(
            e,
            blank_message(),
            expand_context(),
        )),
        r matches Ok(s) ==> exists|v: Vec<String>|
            expand_outcome(address@, Ok(v)) && s@ == json_array_text(#[trigger] item_views(v@)),
        r matches Err(e) ==> expand_outcome(address@, Err(e)),
{
    match expand_address_string(address) {
        Ok(v) => expanded_to_json(&v),
        Err(e) => Err(e),
    }
}

/// The text of an optional string.
pub open spec fn opt_view(o: Option<&str>) -> Option<Seq<char>> {
    match o {
        Some(t) => Some(t@),
        None => None,
    }
}

/// A part as a list of one, or no part when absent or empty.
pub open spec fn opt_part(o: Option<Seq<char>>) -> Seq<Seq<char>> {
    match o {
        Some(t) => if t.len() > 0 {
            seq![t]
        } else {
            Seq::empty()
        },
        None => Seq::empty(),
    }
}

/// "Unit " and the unit, if present.
pub open spec fn unit_text(o: Option<Seq<char>>) -> Option<Seq<char>> {
    match o {
        Some(u) => Some("Unit "@ + u),
        None => None,
    }
}

/// The parts of an address line in their fixed order (house number, road,
/// unit, city, state, postcode, country), absent and empty ones left out.
pub open spec fn line_parts(
    house_number: Option<Seq<char>>,
    road: Option<Seq<char>>,
    unit: Option<Seq<char>>,
    city: Option<Seq<char>>,
    state: Option<Seq<char>>,
    postcode: Option<Seq<char>>,
    country: Option<Seq<char>>,
) -> Seq<Seq<char>> {
    opt_part(house_number) + opt_part(road) + opt_part(unit_text(unit)) + opt_part(city) + opt_part(
        state,
    ) + opt_part(postcode) + opt_part(country)
}

pub open spec fn no_components_message() -> Seq<char> {
    "Failed to parse any recognizable address components from the input. The address may be malformed or in an unsupported format"@
}

/// What an address line made of `parts` is: the parts joined with ", ", or a
/// native failure when there is none.
pub open spec fn line_outcome(parts: Seq<Seq<char>>, r: Result<String, PostalError>) -> bool {
    if parts.len() == 0 {
        r matches Err(PostalError::LibpostalError { message }) && message@
            == no_components_message()
    } else {
        r matches Ok(s) && s@ == join_comma(parts)
    }
}

/// The value of `label`, if present.
pub open spec fn lookup(m: Map<Seq<char>, Seq<char>>, label: Seq<char>) -> Option<Seq<char>> {
    if m.contains_key(label) {
        Some(m[label])
    } else {
        None
    }
}

/// The value of `label` upper-cased, if present.
pub open spec fn lookup_upper(m: Map<Seq<char>, Seq<char>>, label: Seq<char>) -> Option<
    Seq<char>,
> {
    if m.contains_key(label) {
        Some(upper_of(m[label]))
    } else {
        None
    }
}

/// The parts of a normalised address: house number, road, unit, city, state
/// upper-cased, postcode, country upper-cased; absent and empty ones left out.
pub open spec fn normalized_parts(m: Map<Seq<char>, Seq<char>>) -> Seq<Seq<char>> {
    line_parts(
        lookup(m, "house_number"@),
        lookup(m, "road"@),
        lookup(m, "unit"@),
        lookup(m, "city"@),
        lookup_upper(m, "state"@),
        lookup(m, "postcode"@),
        lookup_upper(m, "country"@),
    )
}

/// What normalising a parsed address gives.
pub open spec fn normalize_outcome(m: Map<Seq<char>, Seq<char>>, r: Result<String, PostalError>) -> bool {
    line_outcome(normalized_parts(m), r)
}

/// Adds `part` to `parts` when it is present and not empty.
fn push_part(parts: &mut Vec<String>, part: Option<&str>)
    ensures
        item_views(final(parts)@) == item_views(old(parts)@) + opt_part(opt_view(part)),
{
    match part {
        Some(t) => {
            if !t.is_empty() {
                parts.push(String::from_str(t));
                assert(item_views(parts@) =~= item_views(old(parts)@) + seq![t@]);
            } else {
                assert(item_views(parts@) =~= item_views(old(parts)@) + Seq::<Seq<char>>::empty());
            }
        },
        None => {
            assert(item_views(parts@) =~= item_views(old(parts)@) + Seq::<Seq<char>>::empty());
        },
    }
}

/// The text of an optional `String`, borrowed.
fn opt_str(o: &Option<String>) -> (r: Option<&str>)
    ensures
        opt_view(r) == match o {
            Some(t) => Some(t@),
            None => None::<Seq<char>>,
        },
{
    match o {
        Some(t) => Some(t.as_str()),
        None => None,
    }
}

/// Builds an address line from its components, the state and country
/// already upper-cased: the present, non-empty parts in their fixed order,
/// joined with ", ".
pub fn join_address_line(
    house_number: Option<&str>,
    road: Option<&str>,
    unit: Option<&str>,
    city: Option<&str>,
    state: Option<&str>,
    postcode: Option<&str>,
    country: Option<&str>,
) -> (r: Result<String, PostalError>)
    ensures
        line_outcome(
            line_parts(
                opt_view(house_number),
                opt_view(road),
                opt_view(unit),
                opt_view(city),
                opt_view(state),
                opt_view(postcode),
                opt_view(country),
            ),
            r,
        ),
{
    let mut parts: Vec<String> = Vec::new();
    assert(item_views(parts@) =~= Seq::<Seq<char>>::empty());
    push_part(&mut parts, house_number);
    push_part(&mut parts, road);
    let unit_line: Option<String> = match unit {
        Some(u) => Some(prefixed("Unit ", u)),
        None => None,
    };
    push_part(&mut parts, opt_str(&unit_line));
    push_part(&mut parts, city);
    push_part(&mut parts, state);
    push_part(&mut parts, postcode);
    push_part(&mut parts, country);
    assert(item_views(parts@) =~= line_parts(
        opt_view(house_number),
        opt_view(road),
        opt_view(unit),
        opt_view(city),
        opt_view(state),
        opt_view(postcode),
        opt_view(country),
    ));
    if parts.len() == 0 {
        return Err(
            PostalError::LibpostalError {
                message: String::from_str(
                    "Failed to parse any recognizable address components from the input. The address may be malformed or in an unsupported format",
                ),
            },
        );
    }
    Ok(join_with_comma(&parts))
}

/// The value of component `label`, if present.
fn component<'a>(parsed: &'a ParsedAddress, label: &str) -> (r: Option<&'a str>)
    requires
        parsed.wf(),
    ensures
        opt_view(r) == lookup(parsed@, label@),
{
    match parsed.get(label) {
        Some(v) => Some(v.as_str()),
        None => None,
    }
}

/// The value of component `label` upper-cased, if present.
fn upper_component(parsed: &ParsedAddress, label: &str) -> (r: Option<String>)
    requires
        parsed.wf(),
    ensures
        match r {
            Some(t) => Some(t@),
            None => None::<Seq<char>>,
        } == lookup_upper(parsed@, label@),
{
    match parsed.get(label) {
        Some(v) => Some(to_upper(v.as_str())),
        None => None,
    }
}

/// Rebuilds a single address line from parsed components.
pub fn normalize_parsed(parsed: &ParsedAddress) -> (r: Result<String, PostalError>)
    requires
        parsed.wf(),
    ensures
        normalize_outcome(parsed@, r),
{
    let state = upper_component(parsed, "state");
    let country = upper_component(parsed, "country");
    join_address_line(
        component(parsed, "house_number"),
        component(parsed, "road"),
        component(parsed, "unit"),
        component(parsed, "city"),
        opt_str(&state),
        component(parsed, "postcode"),
        opt_str(&country),
    )
}

/// An address without components normalises to a native-library failure,
/// never to an input refusal.
pub proof fn lemma_no_components_is_native_failure(
    parsed: ParsedAddress,
    r: Result<String, PostalError>,
)
    requires
        parsed.wf(),
        parsed@.len() == 0,
        normalize_outcome(parsed@, r),
    ensures
        r matches Err(PostalError::LibpostalError { .. }),
{
    assert forall|k: Seq<char>| !parsed@.contains_key(k) by {
        if parsed@.contains_key(k) {
            parsed.lemma_finite();
            vstd::set_lib::lemma_set_empty_equivalency_len(parsed@.dom());
        }
    }
    assert(normalized_parts(parsed@) =~= Seq::<Seq<char>>::empty());
}

/// Parses an address and rebuilds it as a single normalised line.
pub fn normalize_address(address: &str) -> (r: Result<String, PostalError>)
    ensures
        is_blank(address@) ==> (r matches Err(e) && is_invalid_input(
            e,
            blank_message(),
            parse_context(),
        )),
        r matches Ok(s) ==> exists|p: ParsedAddress|
            parse_outcome(address@, Ok(p)) && normalize_outcome(#[trigger] p@, Ok(s)),
        r matches Err(e) ==> parse_outcome(address@, Err(e)) || exists|p: ParsedAddress|
            parse_outcome(address@, Ok(p)) && normalize_outcome(#[trigger] p@, Err(e)),
{
    match parse_address_with_options(address) {
        Ok(p) => normalize_parsed(&p),
        Err(e) => Err(e),
    }
}

/// The Python statement that fetches libpostal's data, forcing a fresh
/// download when `force` is set.
pub open spec fn download_script_spec(force: bool) -> Seq<char> {
    "import sys; sys.path.insert(0, '.'); from data_manager import download_data; download_data("@
        + if force {
        "True"@
    } else {
        "False"@
    } + ")"@
}

pub open spec fn download_failed_prefix() -> Seq<char> {
    "Data download failed: "@
}

pub open spec fn download_failed_hint() -> Seq<char> {
    ". Please check your internet connection and ensure you have write permissions to /usr/local/share/libpostal"@
}

pub open spec fn launch_failed_prefix() -> Seq<char> {
    "Failed to run data download script: "@
}

pub open spec fn launch_failed_hint() -> Seq<char> {
    ". Ensure Python is installed and the data_manager.py script is accessible"@
}

/// The Python statement that fetches libpostal's data.
pub fn download_script(force: bool) -> (r: String)
    ensures
        r@ == download_script_spec(force),
{
    let mut r = String::from_str(
        "import sys; sys.path.insert(0, '.'); from data_manager import download_data; download_data(",
    );
    if force {
        r.append("True");
    } else {
        r.append("False");
    }
    r.append(")");
    r
}

/// The outcome of a download script that ran: success when it exited with
/// success, else a configuration error that carries its error output.
pub fn download_outcome(exited_ok: bool, error_output: &str) -> (r: Result<bool, PostalError>)
    ensures
        exited_ok ==> r == Ok::<bool, PostalError>(true),
        !exited_ok ==> (r matches Err(PostalError::ConfigurationError { message }) && message@
            == download_failed_prefix() + error_output@ + download_failed_hint()),
{
    if exited_ok {
        Ok(true)
    } else {
        let mut message = prefixed("Data download failed: ", error_output);
        message.append(
            ". Please check your internet connection and ensure you have write permissions to /usr/local/share/libpostal",
        );
        Err(PostalError::ConfigurationError { message })
    }
}

/// The configuration error for a download script that could not be started.
pub fn launch_failure(reason: &str) -> (r: PostalError)
    ensures
        r matches PostalError::ConfigurationError { message } && message@ == launch_failed_prefix()
            + reason@ + launch_failed_hint(),
{
    let mut message = prefixed("Failed to run data download script: ", reason);
    message.append(". Ensure Python is installed and the data_manager.py script is accessible");
    PostalError::ConfigurationError { message }
}

} // verus!

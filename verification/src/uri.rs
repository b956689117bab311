//! uProtocol addresses and the filter rules on them.
//!
//! Parsing, printing and matching are those of `up_rust::UUri`.

use up_rust::{verify_filter_criteria, UUri};
use vstd::prelude::*;

use crate::status::{fail, Status, StatusCode, StatusView};

verus! {

/// Address of a uProtocol entity, one of its events or one of its methods.
#[derive(Debug, PartialEq, Eq)]
pub struct Uri {
    /// Authority name, empty for a local address.
    pub authority_name: String,
    /// Entity instance (upper half) and entity type (lower half).
    pub ue_id: u32,
    /// Major version of the entity.
    pub ue_version_major: u32,
    /// Event, method or, when zero, the entity itself.
    pub resource_id: u32,
}

/// An address as contracts see it.
#[verifier::ext_equal]
pub struct UriView {
    /// Authority name, empty for a local address.
    pub authority_name: Seq<char>,
    /// Entity instance (upper half) and entity type (lower half).
    pub ue_id: u32,
    /// Major version of the entity.
    pub ue_version_major: u32,
    /// Event, method or, when zero, the entity itself.
    pub resource_id: u32,
}

impl View for Uri {
    type V = UriView;

    open spec fn view(&self) -> UriView {
        UriView {
            authority_name: self.authority_name@,
            ue_id: self.ue_id,
            ue_version_major: self.ue_version_major,
            resource_id: self.resource_id,
        }
    }
}

impl Clone for Uri {
    fn clone(&self) -> (copy: Uri)
        ensures
            copy@ == self@,
    {
        Uri {
            authority_name: self.authority_name.clone(),
            ue_id: self.ue_id,
            ue_version_major: self.ue_version_major,
            resource_id: self.resource_id,
        }
    }
}

/// An optional address as contracts see it.
pub open spec fn maybe_view(uri: Option<Uri>) -> Option<UriView> {
    match uri {
        Some(uri) => Some(uri@),
        None => None,
    }
}

/// An optional borrowed address as contracts see it.
pub open spec fn maybe_ref_view(uri: Option<&Uri>) -> Option<UriView> {
    match uri {
        Some(uri) => Some(uri@),
        None => None,
    }
}

/// A parse result as contracts see it.
pub open spec fn parsed_view(parsed: Result<Uri, String>) -> Result<UriView, Seq<char>> {
    match parsed {
        Ok(uri) => Ok(uri@),
        Err(detail) => Err(detail@),
    }
}

impl Uri {
    /// Whether two addresses are the same in every field.
    pub fn same(&self, other: &Uri) -> (same: bool)
        ensures
            same == (self@ == other@),
    {
        self.ue_id == other.ue_id && self.ue_version_major == other.ue_version_major
            && self.resource_id == other.resource_id && self.authority_name == other.authority_name
    }
}

/// Copies an optional borrowed address.
pub fn copy_maybe(uri: Option<&Uri>) -> (copy: Option<Uri>)
    ensures
        maybe_view(copy) == maybe_ref_view(uri),
{
    match uri {
        Some(uri) => Some(uri.clone()),
        None => None,
    }
}

/// Whether two optional addresses are the same.
pub fn same_maybe(first: &Option<Uri>, second: Option<&Uri>) -> (same: bool)
    ensures
        same == (maybe_view(*first) == maybe_ref_view(second)),
{
    match (first, second) {
        (Some(first), Some(second)) => first.same(second),
        (None, None) => true,
        _ => false,
    }
}

/// Whether a character may stand in an authority name.
pub open spec fn authority_char(c: char) -> bool {
    ('a' <= c && c <= 'z') || ('0' <= c && c <= '9') || c == '-' || c == '.' || c == '_' || c == '~'
}

/// An authority that is the wildcard or at most 128 characters out of lower
/// case letters, digits and `-._~`; empty for a local address.
pub open spec fn plain_authority(authority: Seq<char>) -> bool {
    ||| authority == "*"@
    ||| authority.len() <= 128 && forall|i: int|
        0 <= i < authority.len() ==> authority_char(#[trigger] authority[i])
}

/// An address with a plain authority, an 8 bit version and a 16 bit resource.
pub open spec fn plain_uri(uri: UriView) -> bool {
    &&& plain_authority(uri.authority_name)
    &&& uri.ue_version_major <= 0xFF
    &&& uri.resource_id <= 0xFFFF
}

/// Hexadecimal digit in upper case.
pub open spec fn hex_char(digit: nat) -> char {
    if digit < 10 {
        crate::text::digit_char(digit)
    } else if digit == 10 {
        'A'
    } else if digit == 11 {
        'B'
    } else if digit == 12 {
        'C'
    } else if digit == 13 {
        'D'
    } else if digit == 14 {
        'E'
    } else {
        'F'
    }
}

/// Hexadecimal notation in upper case, without leading zeros.
pub open spec fn hex_text(n: nat) -> Seq<char>
    decreases n,
{
    if n < 16 {
        seq![hex_char(n)]
    } else {
        hex_text(n / 16).push(hex_char(n % 16))
    }
}

/// Textual form of an address, without the scheme.
pub open spec fn uri_text(uri: UriView) -> Seq<char> {
    let authority = if uri.authority_name.len() == 0 {
        Seq::<char>::empty()
    } else {
        "//"@ + uri.authority_name
    };
    authority + "/"@ + hex_text(uri.ue_id as nat) + "/"@ + hex_text(uri.ue_version_major as nat)
        + "/"@ + hex_text(uri.resource_id as nat)
}

/// Whether a filter selects a concrete address: each part is equal or the
/// filter holds that part's wildcard.
pub open spec fn uri_matches(filter: UriView, candidate: UriView) -> bool {
    &&& filter.authority_name == "*"@ || filter.authority_name == candidate.authority_name
    &&& filter.ue_id % 0x1_0000 == 0xFFFF || filter.ue_id % 0x1_0000 == candidate.ue_id % 0x1_0000
    &&& filter.ue_id / 0x1_0000 == 0xFFFF || filter.ue_id / 0x1_0000 == candidate.ue_id / 0x1_0000
    &&& filter.ue_version_major == 0xFF || filter.ue_version_major % 0x100
        == candidate.ue_version_major % 0x100
    &&& filter.resource_id == 0xFFFF || filter.resource_id == candidate.resource_id
}

/// Whether a sink filter selects the sink of a message: no filter selects
/// exactly the messages without a sink.
pub open spec fn sink_matches(filter: Option<UriView>, candidate: Option<UriView>) -> bool {
    match (filter, candidate) {
        (None, None) => true,
        (Some(filter), Some(candidate)) => uri_matches(filter, candidate),
        _ => false,
    }
}

/// A pair of filters with plain addresses.
pub open spec fn plain_filters(source: UriView, sink: Option<UriView>) -> bool {
    plain_uri(source) && (sink is Some ==> plain_uri(sink->Some_0))
}

/// A refusal as contracts see it.
pub open spec fn refusal_view(refusal: Option<String>) -> Option<Seq<char>> {
    match refusal {
        Some(detail) => Some(detail@),
        None => None,
    }
}

/// Refusal of a pair of filters with plain addresses, judged by the resource
/// identifiers; `None` when they are acceptable.
pub open spec fn filter_rule(source: UriView, sink: Option<UriView>) -> Option<Seq<char>> {
    match sink {
        Some(sink) => if sink.resource_id == 0 && source.resource_id == 0 {
            Some("source and sink filters must not both have resource ID 0"@)
        } else if 0 < sink.resource_id && sink.resource_id < 0x8000 && source.resource_id != 0xFFFF
            && source.resource_id != 0 {
            Some(
                "source filter must either have the wildcard resource ID or resource ID 0, if sink filter matches RPC method resource ID"@,
            )
        } else {
            None
        },
        None => if source.resource_id != 0xFFFF && source.resource_id < 0x8000 {
            Some(
                "source filter must either have the wildcard resource ID or a resource ID from topic range, if sink filter is empty"@,
            )
        } else {
            None
        },
    }
}

/// The outcome of a successful parse.
pub open spec fn accepted(uri: UriView) -> Result<UriView, Seq<char>> {
    Ok(uri)
}

/// The address made of the given parts.
pub open spec fn parts_view(
    authority: Seq<char>,
    entity_id: u32,
    entity_version: u8,
    resource_id: u16,
) -> UriView {
    UriView {
        authority_name: authority,
        ue_id: entity_id,
        ue_version_major: entity_version as u32,
        resource_id: resource_id as u32,
    }
}

/// What parsing a textual address yields: the address, or the reason why there
/// is none.
pub uninterp spec fn uri_parse(text: Seq<char>) -> Result<UriView, Seq<char>>;

/// Whether an address is read back from its own text.
pub open spec fn reads_back(uri: UriView) -> bool {
    uri_parse(uri_text(uri)) == accepted(uri)
}

/// What building an address from its parts yields: the address, or the reason
/// why the authority is refused.
pub uninterp spec fn uri_from_parts(
    authority: Seq<char>,
    entity_id: u32,
    entity_version: u8,
    resource_id: u16,
) -> Result<UriView, Seq<char>>;

/// Refusal of a pair of filters, `None` when they are acceptable.
pub uninterp spec fn filter_verdict(source: UriView, sink: Option<UriView>) -> Option<Seq<char>>;

/// The generated uProtocol address type.
#[verifier::external_type_specification]
#[verifier::external_body]
pub struct ExUUri(UUri);

impl From<&Uri> for UUri {
    /// Copies the four fields into the generated type.
    #[verifier::external_body]
    fn from(uri: &Uri) -> UUri {
        UUri {
            authority_name: uri.authority_name.clone(),
            ue_id: uri.ue_id,
            ue_version_major: uri.ue_version_major,
            resource_id: uri.resource_id,
            ..Default::default()
        }
    }
}

impl From<&UUri> for Uri {
    /// Copies the four fields out of the generated type.
    #[verifier::external_body]
    fn from(uri: &UUri) -> Uri {
        Uri {
            authority_name: uri.authority_name.clone(),
            ue_id: uri.ue_id,
            ue_version_major: uri.ue_version_major,
            resource_id: uri.resource_id,
        }
    }
}

/// `UUri::matches`.
///
/// Trusted: authority, entity type, entity instance, major version and resource
/// are compared one by one as [`uri_matches`] spells out.
#[verifier::external_body]
pub(crate) fn selects_uri(filter: &Uri, candidate: &Uri) -> (selected: bool)
    ensures
        selected == uri_matches(filter@, candidate@),
{
    UUri::from(filter).matches(&UUri::from(candidate))
}

/// `UUri::to_uri` without the scheme.
///
/// Trusted: the text is the one of [`uri_text`]; for a plain address
/// `UUri::from_str` reads the same address back from it.
#[verifier::external_body]
pub(crate) fn to_uri(uri: &Uri) -> (text: String)
    ensures
        text@ == uri_text(uri@),
        plain_uri(uri@) ==> uri_parse(text@) == accepted(uri@),
{
    UUri::from(uri).to_uri(false)
}

/// `UUri::from_str`, with the error as its `Display` text.
///
/// Trusted: the outcome depends on the text alone. Host names are taken over as
/// they are and numeric hosts in their canonical notation, so an address that
/// was read is read back from the text that `UUri::to_uri` gives it.
#[verifier::external_body]
pub(crate) fn parse(text: &str) -> (parsed: Result<Uri, String>)
    ensures
        parsed_view(parsed) == uri_parse(text@),
        parsed_view(parsed) is Ok ==> reads_back(parsed_view(parsed)->Ok_0),
{
    match text.parse::<UUri>() {
        Ok(uri) => Ok(Uri::from(&uri)),
        Err(error) => Err(error.to_string()),
    }
}

/// `UUri::try_from_parts`, with the error as its `Display` text.
///
/// Trusted: the outcome depends on the arguments alone; the numbers are taken
/// over unchanged, and a plain authority is accepted and taken over unchanged.
/// An address that was built is read back from the text that `UUri::to_uri`
/// gives it.
#[verifier::external_body]
pub(crate) fn from_parts(
    authority: &str,
    entity_id: u32,
    entity_version: u8,
    resource_id: u16,
) -> (built: Result<Uri, String>)
    ensures
        parsed_view(built) == uri_from_parts(authority@, entity_id, entity_version, resource_id),
        parsed_view(built) is Ok ==> parsed_view(built)->Ok_0.ue_id == entity_id,
        parsed_view(built) is Ok ==> parsed_view(built)->Ok_0.ue_version_major == entity_version,
        parsed_view(built) is Ok ==> parsed_view(built)->Ok_0.resource_id == resource_id,
        plain_authority(authority@) ==> parsed_view(built) == accepted(
            parts_view(authority@, entity_id, entity_version, resource_id),
        ),
        parsed_view(built) is Ok ==> reads_back(parsed_view(built)->Ok_0),
{
    match UUri::try_from_parts(authority, entity_id, entity_version, resource_id) {
        Ok(uri) => Ok(Uri::from(&uri)),
        Err(error) => Err(error.to_string()),
    }
}

/// `up_rust::verify_filter_criteria`, with the message of its error. The code
/// of that error is always the one for an invalid argument.
///
/// Trusted: the outcome depends on the filters alone; for plain addresses it
/// is the one of [`filter_rule`].
#[verifier::external_body]
pub(crate) fn judge_filters(source: &Uri, sink: Option<&Uri>) -> (refusal: Option<String>)
    ensures
        refusal_view(refusal) == filter_verdict(source@, maybe_ref_view(sink)),
        plain_filters(source@, maybe_ref_view(sink)) ==> refusal_view(refusal) == filter_rule(
            source@,
            maybe_ref_view(sink),
        ),
{
    let sink = sink.map(UUri::from);
    match verify_filter_criteria(&UUri::from(source), sink.as_ref()) {
        Ok(()) => None,
        Err(status) => Some(status.get_message()),
    }
}

/// What checking a pair of filters answers.
pub open spec fn filter_outcome(source: UriView, sink: Option<UriView>) -> Result<(), StatusView> {
    match filter_verdict(source, sink) {
        None => Ok(()),
        Some(detail) => Err(StatusView { code: StatusCode::InvalidArgument, message: detail }),
    }
}

/// Accepts a pair of filters or refuses it as an invalid argument.
///
/// For plain addresses the outcome is the one of [`filter_rule`].
pub fn verify_filters(source: &Uri, sink: Option<&Uri>) -> (outcome: Result<(), Status>)
    ensures
        crate::status::outcome_view(outcome) == filter_outcome(source@, maybe_ref_view(sink)),
        plain_filters(source@, maybe_ref_view(sink)) ==> filter_verdict(
            source@,
            maybe_ref_view(sink),
        ) == filter_rule(source@, maybe_ref_view(sink)),
{
    match judge_filters(source, sink) {
        None => Ok(()),
        Some(detail) => Err(fail(StatusCode::InvalidArgument, detail)),
    }
}

/// A filter selects an address part by part: authority, entity type, entity
/// instance, major version and resource each have to be equal, unless the
/// filter holds the wildcard of that part.
pub proof fn law_filters_select_part_by_part(filter: UriView, candidate: UriView)
    ensures
        filter.authority_name != "*"@ && filter.authority_name != candidate.authority_name
            ==> !uri_matches(filter, candidate),
        filter.ue_id % 0x1_0000 != 0xFFFF && filter.ue_id % 0x1_0000 != candidate.ue_id % 0x1_0000
            ==> !uri_matches(filter, candidate),
        filter.ue_id / 0x1_0000 != 0xFFFF && filter.ue_id / 0x1_0000 != candidate.ue_id / 0x1_0000
            ==> !uri_matches(filter, candidate),
        filter.ue_version_major != 0xFF && filter.ue_version_major % 0x100
            != candidate.ue_version_major % 0x100 ==> !uri_matches(filter, candidate),
        filter.resource_id != 0xFFFF && filter.resource_id != candidate.resource_id
            ==> !uri_matches(filter, candidate),
        (filter.authority_name == "*"@ || filter.authority_name == candidate.authority_name) && (
        filter.ue_id % 0x1_0000 == 0xFFFF || filter.ue_id % 0x1_0000 == candidate.ue_id % 0x1_0000)
            && (filter.ue_id / 0x1_0000 == 0xFFFF || filter.ue_id / 0x1_0000 == candidate.ue_id
            / 0x1_0000) && (filter.ue_version_major == 0xFF || filter.ue_version_major % 0x100
            == candidate.ue_version_major % 0x100) && (filter.resource_id == 0xFFFF
            || filter.resource_id == candidate.resource_id) ==> uri_matches(filter, candidate),
{
}

/// Two present sinks are compared like any other addresses, two absent ones
/// agree, and an absent one agrees with no present one.
pub proof fn law_sinks_agree_in_presence(filter: UriView, candidate: UriView)
    ensures
        sink_matches(None, None),
        !sink_matches(Some(filter), None),
        !sink_matches(None, Some(candidate)),
        sink_matches(Some(filter), Some(candidate)) == uri_matches(filter, candidate),
{
}

/// Without a sink filter exactly the source filters for topics are acceptable.
/// With one, exactly two pairs are not: two endpoints, and a method together
/// with a source that is neither an endpoint nor the wildcard.
pub proof fn law_acceptable_filters(source: UriView, sink: UriView)
    ensures
        filter_rule(source, None) is None <==> source.resource_id >= 0x8000,
        sink.resource_id == 0 ==> (filter_rule(source, Some(sink)) is None <==> source.resource_id
            != 0),
        0 < sink.resource_id < 0x8000 ==> (filter_rule(source, Some(sink)) is None
            <==> source.resource_id == 0 || source.resource_id == 0xFFFF),
        sink.resource_id >= 0x8000 ==> filter_rule(source, Some(sink)) is None,
{
}

/// A refused pair of filters is an invalid argument, with the reason as its
/// message; every other pair is accepted.
pub proof fn law_refused_filters_are_invalid_arguments(source: UriView, sink: Option<UriView>)
    ensures
        filter_verdict(source, sink) is None ==> filter_outcome(source, sink) is Ok,
        filter_verdict(source, sink) is Some ==> filter_outcome(source, sink) is Err
            && filter_outcome(source, sink)->Err_0.code == StatusCode::InvalidArgument
            && filter_outcome(source, sink)->Err_0.message == filter_verdict(
            source,
            sink,
        )->Some_0,
{
}

/// The view of an address shows every field, and the view of an optional
/// address shows that address or that there is none.
pub proof fn law_addresses_are_seen_whole(uri: Uri, other: Uri)
    ensures
        uri@.authority_name == uri.authority_name@,
        uri@.ue_id == uri.ue_id,
        uri@.ue_version_major == uri.ue_version_major,
        uri@.resource_id == uri.resource_id,
        maybe_view(Some(uri)) == Some(uri@),
        maybe_view(None) is None,
        maybe_ref_view(Some(&uri)) == Some(uri@),
        maybe_ref_view(None) is None,
        parsed_view(Ok(uri)) == Ok::<UriView, Seq<char>>(uri@),
{
}

/// The views of refusals show their texts, and the address made of parts has
/// exactly these parts.
pub proof fn law_refusals_and_parts_are_seen_whole(
    detail: String,
    authority: Seq<char>,
    entity_id: u32,
    entity_version: u8,
    resource_id: u16,
)
    ensures
        parsed_view(Err(detail)) == Err::<UriView, Seq<char>>(detail@),
        refusal_view(Some(detail)) == Some(detail@),
        refusal_view(None) is None,
        ({
            let uri = parts_view(authority, entity_id, entity_version, resource_id);
            &&& uri.authority_name == authority
            &&& uri.ue_id == entity_id
            &&& uri.ue_version_major == entity_version
            &&& uri.resource_id == resource_id
            &&& accepted(uri) == Ok::<UriView, Seq<char>>(uri)
            &&& reads_back(uri) <==> uri_parse(uri_text(uri)) == Ok::<UriView, Seq<char>>(uri)
        }),
{
}

/// An address is plain if and only if its version has 8 bits, its resource 16
/// bits, and its authority is the wildcard or has at most 128 characters, all
/// of them lower case letters, digits or one of `-._~`.
pub proof fn law_plain_addresses(uri: UriView)
    ensures
        plain_uri(uri) <==> uri.ue_version_major < 0x100 && uri.resource_id < 0x1_0000 && (
        uri.authority_name == "*"@ || (uri.authority_name.len() <= 128 && forall|i: int|
            0 <= i < uri.authority_name.len() ==> {
                let c = #[trigger] uri.authority_name[i];
                'a' <= c <= 'z' || '0' <= c <= '9' || c == '-' || c == '.' || c == '_' || c == '~'
            })),
        plain_filters(uri, None) == plain_uri(uri),
        plain_filters(uri, Some(uri)) == plain_uri(uri),
{
}

/// The number that upper case hexadecimal digits stand for.
pub open spec fn hex_value(text: Seq<char>) -> nat
    decreases text.len(),
{
    if text.len() == 0 {
        0
    } else {
        hex_value(text.drop_last()) * 16 + if '0' <= text.last() <= '9' {
            (text.last() as int - '0' as int) as nat
        } else {
            (text.last() as int - 'A' as int + 10) as nat
        }
    }
}

/// A number can be read off its hexadecimal notation, which has no leading
/// zero unless it is a single digit.
pub proof fn law_hexadecimal_notation_is_readable(n: nat)
    ensures
        hex_value(hex_text(n)) == n,
        hex_text(n).len() > 0,
        n > 0 ==> hex_text(n)[0] != '0',
    decreases n,
{
    if n >= 16 {
        law_hexadecimal_notation_is_readable(n / 16);
        assert(hex_text(n).drop_last() =~= hex_text(n / 16));
        assert(hex_text(n)[0] == hex_text(n / 16)[0]);
        assert(hex_text(n).last() == hex_char(n % 16));
        assert(hex_value(hex_text(n)) == hex_value(hex_text(n / 16)) * 16 + n % 16);
    } else {
        assert(hex_text(n).drop_last() =~= Seq::<char>::empty());
        assert(hex_value(Seq::<char>::empty()) == 0);
        assert(hex_text(n).last() == hex_char(n));
        assert(hex_value(hex_text(n)) == n);
    }
}

/// The text of an address is its authority after two slashes, if there is one,
/// and its three numbers, each after one slash.
pub proof fn law_address_texts_show_every_part(uri: UriView)
    ensures
        ({
            let path = "/"@ + hex_text(uri.ue_id as nat) + "/"@ + hex_text(
                uri.ue_version_major as nat,
            ) + "/"@ + hex_text(uri.resource_id as nat);
            &&& uri.authority_name.len() == 0 ==> uri_text(uri) == path
            &&& uri.authority_name.len() > 0 ==> uri_text(uri) == "//"@ + uri.authority_name + path
        }),
{
    let path = "/"@ + hex_text(uri.ue_id as nat) + "/"@ + hex_text(uri.ue_version_major as nat)
        + "/"@ + hex_text(uri.resource_id as nat);
    if uri.authority_name.len() == 0 {
        assert(uri_text(uri) =~= path);
    } else {
        assert(uri_text(uri) =~= "//"@ + uri.authority_name + path);
    }
}

} // verus!

//! The three carriage families and the names under which they appear in DDS.

use vstd::prelude::*;

use crate::config::{DdsQos, Reliability};

verus! {

/// Versioned classic-family DDS topic.
pub const CLASSIC_TOPIC_V1: &'static str = "uprotocol.classic.v1";

/// Versioned classic-family DDS registered type name.
pub const CLASSIC_TYPE_V1: &'static str = "UpDdsClassicSampleV1";

/// Versioned owned-family DDS topic.
pub const OWNED_TOPIC_V1: &'static str = "uprotocol.owned.v1";

/// Versioned owned-family DDS registered type name.
pub const OWNED_TYPE_V1: &'static str = "UpDdsOwnedSampleV1";

/// Versioned behavioral zero-copy DDS topic.
pub const ZERO_COPY_TOPIC_V1: &'static str = "uprotocol.zero-copy.v1";

/// Versioned behavioral zero-copy DDS registered type name.
pub const ZERO_COPY_TYPE_V1: &'static str = "UpDdsZeroCopySampleV1";

/// A carriage family.
#[derive(Clone, Copy, Debug, PartialEq, Eq, Structural)]
pub enum Family {
    /// Messages with protobuf attributes.
    Classic,
    /// Validated owned frames.
    Owned,
    /// Frames of a selected wire format behind loaned buffers.
    ZeroCopy,
}

/// Word by which a family is named in diagnostics.
pub open spec fn family_word(family: Family) -> Seq<char> {
    match family {
        Family::Classic => "classic"@,
        Family::Owned => "owned"@,
        Family::ZeroCopy => "zero-copy"@,
    }
}

/// DDS topic of a family.
pub open spec fn family_topic(family: Family) -> Seq<char> {
    match family {
        Family::Classic => "uprotocol.classic.v1"@,
        Family::Owned => "uprotocol.owned.v1"@,
        Family::ZeroCopy => "uprotocol.zero-copy.v1"@,
    }
}

/// DDS registered type name of a family.
pub open spec fn family_type(family: Family) -> Seq<char> {
    match family {
        Family::Classic => "UpDdsClassicSampleV1"@,
        Family::Owned => "UpDdsOwnedSampleV1"@,
        Family::ZeroCopy => "UpDdsZeroCopySampleV1"@,
    }
}

impl Family {
    /// Word by which the family is named in diagnostics.
    pub fn word(self) -> (word: &'static str)
        ensures
            word@ == family_word(self),
    {
        match self {
            Family::Classic => "classic",
            Family::Owned => "owned",
            Family::ZeroCopy => "zero-copy",
        }
    }

    /// DDS topic of the family.
    pub fn topic(self) -> (topic: &'static str)
        ensures
            topic@ == family_topic(self),
    {
        match self {
            Family::Classic => CLASSIC_TOPIC_V1,
            Family::Owned => OWNED_TOPIC_V1,
            Family::ZeroCopy => ZERO_COPY_TOPIC_V1,
        }
    }

    /// DDS registered type name of the family.
    pub fn registered_type(self) -> (name: &'static str)
        ensures
            name@ == family_type(self),
    {
        match self {
            Family::Classic => CLASSIC_TYPE_V1,
            Family::Owned => OWNED_TYPE_V1,
            Family::ZeroCopy => ZERO_COPY_TYPE_V1,
        }
    }
}

/// Quality of service that one DDS endpoint asks for, beyond the defaults of
/// the middleware.
#[derive(Clone, Copy, Debug, PartialEq, Eq, Structural)]
pub struct EndpointQos {
    /// Reliability of the endpoint.
    pub reliability: Reliability,
    /// Depth of its `KEEP_LAST` history.
    pub keep_last: u32,
}

/// Quality of service of the reader of a transport.
pub fn reader_qos(qos: &DdsQos) -> (endpoint: EndpointQos)
    ensures
        endpoint == (EndpointQos { reliability: qos.reliability, keep_last: qos.history_depth }),
{
    EndpointQos { reliability: qos.reliability, keep_last: qos.history_depth }
}

/// Quality of service of the writer of a transport.
pub fn writer_qos(qos: &DdsQos) -> (endpoint: EndpointQos)
    ensures
        endpoint == (EndpointQos { reliability: qos.reliability, keep_last: qos.history_depth }),
{
    EndpointQos { reliability: qos.reliability, keep_last: qos.history_depth }
}

/// Whether a text ends with another.
pub open spec fn ends_with(text: Seq<char>, suffix: Seq<char>) -> bool {
    text.len() >= suffix.len() && text.skip(text.len() - suffix.len()) == suffix
}

/// Every family has a topic and a registered type of its own, and every such
/// name carries the version of the wire contract.
pub proof fn law_families_are_separate(first: Family, second: Family)
    ensures
        first != second ==> family_topic(first) != family_topic(second),
        first != second ==> family_type(first) != family_type(second),
        ends_with(family_topic(first), ".v1"@),
        ends_with(family_type(first), "V1"@),
{
    reveal_strlit("uprotocol.classic.v1");
    reveal_strlit("uprotocol.owned.v1");
    reveal_strlit("uprotocol.zero-copy.v1");
    reveal_strlit("UpDdsClassicSampleV1");
    reveal_strlit("UpDdsOwnedSampleV1");
    reveal_strlit("UpDdsZeroCopySampleV1");
    reveal_strlit(".v1");
    reveal_strlit("V1");
    assert(family_topic(first).skip(family_topic(first).len() - 3) =~= ".v1"@);
    assert(family_type(first).skip(family_type(first).len() - 2) =~= "V1"@);
    assert(family_topic(Family::Classic)[10] == 'c');
    assert(family_topic(Family::Owned)[10] == 'o');
    assert(family_topic(Family::ZeroCopy)[10] == 'z');
    assert(family_type(Family::Classic)[5] == 'C');
    assert(family_type(Family::Owned)[5] == 'O');
    assert(family_type(Family::ZeroCopy)[5] == 'Z');
}

/// Every family appears in DDS under the names published for it, and in
/// diagnostics under a word of its own.
pub proof fn law_families_have_their_published_names(family: Family)
    ensures
        family is Classic ==> family_topic(family) == CLASSIC_TOPIC_V1@ && family_type(family)
            == CLASSIC_TYPE_V1@ && family_word(family) == "classic"@,
        family is Owned ==> family_topic(family) == OWNED_TOPIC_V1@ && family_type(family)
            == OWNED_TYPE_V1@ && family_word(family) == "owned"@,
        family is ZeroCopy ==> family_topic(family) == ZERO_COPY_TOPIC_V1@ && family_type(family)
            == ZERO_COPY_TYPE_V1@ && family_word(family) == "zero-copy"@,
{
}

/// A topic is the word of its family between the name of the protocol and the
/// version of the wire contract, and a registered type is named likewise.
pub proof fn law_topics_name_their_family(family: Family)
    ensures
        family_topic(family) == "uprotocol."@ + family_word(family) + ".v1"@,
        family_type(family) == "UpDds"@ + (match family {
            Family::Classic => "Classic"@,
            Family::Owned => "Owned"@,
            Family::ZeroCopy => "ZeroCopy"@,
        }) + "SampleV1"@,
{
    reveal_strlit("UpDdsClassicSampleV1");
    reveal_strlit("UpDdsOwnedSampleV1");
    reveal_strlit("UpDdsZeroCopySampleV1");
    reveal_strlit("UpDds");
    reveal_strlit("Classic");
    reveal_strlit("Owned");
    reveal_strlit("ZeroCopy");
    reveal_strlit("SampleV1");
    assert(family_type(family) =~= "UpDds"@ + (match family {
        Family::Classic => "Classic"@,
        Family::Owned => "Owned"@,
        Family::ZeroCopy => "ZeroCopy"@,
    }) + "SampleV1"@);
    reveal_strlit("uprotocol.classic.v1");
    reveal_strlit("uprotocol.owned.v1");
    reveal_strlit("uprotocol.zero-copy.v1");
    reveal_strlit("uprotocol.");
    reveal_strlit("classic");
    reveal_strlit("owned");
    reveal_strlit("zero-copy");
    reveal_strlit(".v1");
    assert(family_topic(family) =~= "uprotocol."@ + family_word(family) + ".v1"@);
}

} // verus!

//! The release record and how it is read from, and written as, JSON.

use crate::error::{Failure, ResolveError};
use crate::json::{
    json_string_literal, json_text_members, parse_document, string_literal, text_member,
};
use crate::text::{is_trimmed, lemma_trimmed, strip_leading, trim, trimmed, without_leading};
use vstd::prelude::*;

verus! {

/// What is known of one release. All three fields are always filled in: a
/// member that the release index left out reads `"unknown"`.
#[derive(Debug, Clone, PartialEq, Eq)]
pub struct ReleaseInfo {
    /// The version, without a leading `v` and without surrounding white space.
    pub version: String,
    /// The commit that the release was made from.
    pub commit_hash: String,
    /// When the release was published: a timestamp, kept as it came.
    pub published_at: String,
}

/// A `ReleaseInfo` with its fields as sequences of characters.
pub struct ReleaseInfoView {
    pub version: Seq<char>,
    pub commit_hash: Seq<char>,
    pub published_at: Seq<char>,
}

impl View for ReleaseInfo {
    type V = ReleaseInfoView;

    open spec fn view(&self) -> ReleaseInfoView {
        ReleaseInfoView {
            version: self.version@,
            commit_hash: self.commit_hash@,
            published_at: self.published_at@,
        }
    }
}

/// What resolving comes to, as plain values: the release or the failure.
pub type Outcome = Result<ReleaseInfoView, Failure>;

/// The text of a member, or `"unknown"` where the member is absent.
pub open spec fn or_unknown(member: Option<Seq<char>>) -> Seq<char> {
    match member {
        Some(text) => text,
        None => "unknown"@,
    }
}

/// A tag name as a version: a leading `v` is removed, then surrounding
/// white space.
pub open spec fn normalized_version(tag: Seq<char>) -> Seq<char> {
    trimmed(without_leading(tag, 'v'))
}

/// The record made of the three members that the release index reports, any
/// of which may be absent.
pub open spec fn release_of(
    tag_name: Option<Seq<char>>,
    target_commitish: Option<Seq<char>>,
    published_at: Option<Seq<char>>,
) -> ReleaseInfoView {
    ReleaseInfoView {
        version: normalized_version(or_unknown(tag_name)),
        commit_hash: or_unknown(target_commitish),
        published_at: or_unknown(published_at),
    }
}

/// The text member of `key`, if the document has one.
pub open spec fn member(members: Map<Seq<char>, Seq<char>>, key: Seq<char>) -> Option<Seq<char>> {
    if members.contains_key(key) {
        Some(members[key])
    } else {
        None
    }
}

/// The record made of a document's text members.
pub open spec fn release_of_members(members: Map<Seq<char>, Seq<char>>) -> ReleaseInfoView {
    release_of(
        member(members, "tag_name"@),
        member(members, "target_commitish"@),
        member(members, "published_at"@),
    )
}

/// What reading a response body gives: a failure for an empty body and for
/// one that is not JSON, else the record made of the document's text members.
pub open spec fn parsed_release(body: Seq<u8>) -> Outcome {
    if body.len() == 0 {
        Err(Failure::EmptyBody)
    } else {
        match json_text_members(body) {
            None => Err(Failure::Parse),
            Some(members) => Ok(release_of_members(members)),
        }
    }
}

/// The JSON object of three members, `version`, `commit_hash` and
/// `published_at`, in this order and without white space, whose values are
/// the three JSON literals given.
pub open spec fn release_object(
    version: Seq<char>,
    commit_hash: Seq<char>,
    published_at: Seq<char>,
) -> Seq<char> {
    "{\"version\":"@ + version + ",\"commit_hash\":"@ + commit_hash + ",\"published_at\":"@
        + published_at + "}"@
}

/// The JSON document that stands for a record: the object whose three
/// members are the record's fields as JSON string literals.
pub open spec fn release_json(release: ReleaseInfoView) -> Seq<char> {
    release_object(
        json_string_literal(release.version),
        json_string_literal(release.commit_hash),
        json_string_literal(release.published_at),
    )
}

/// The view of a text that may be absent.
pub open spec fn text_of(member: Option<&str>) -> Option<Seq<char>> {
    match member {
        Some(text) => Some(text@),
        None => None,
    }
}

/// The view of a result of resolving.
pub open spec fn outcome_of(r: Result<ReleaseInfo, ResolveError>) -> Outcome {
    match r {
        Ok(release) => Ok(release@),
        Err(error) => Err(error@),
    }
}

/// A version never starts or ends with white space.
pub proof fn lemma_version_is_trimmed(tag: Seq<char>)
    ensures
        is_trimmed(normalized_version(tag)),
{
    lemma_trimmed(without_leading(tag, 'v'));
}

/// The version of a tag that is a `v` before some text is that text,
/// trimmed: the `v` is gone, and so is the white space around the rest.
pub proof fn lemma_version_of_v_tag(rest: Seq<char>)
    ensures
        normalized_version(seq!['v'] + rest) == trimmed(rest),
{
    assert((seq!['v'] + rest).drop_first() =~= rest);
}

/// A tag that does not start with `v`, nor starts or ends with white
/// space, is its own version.
pub proof fn lemma_version_of_plain_tag(tag: Seq<char>)
    requires
        is_trimmed(tag),
        tag.len() > 0 ==> tag.first() != 'v',
    ensures
        normalized_version(tag) == tag,
{
}

/// Whatever else a document holds, if its `tag_name` is `v1.2.3` then the
/// version of its release is `1.2.3`.
pub proof fn lemma_version_of_tagged_release(members: Map<Seq<char>, Seq<char>>)
    requires
        member(members, "tag_name"@) == Some("v1.2.3"@),
    ensures
        release_of_members(members).version == "1.2.3"@,
{
    reveal_strlit("v1.2.3");
    reveal_strlit("1.2.3");
}

/// A document without a `tag_name` gives a release whose version is
/// `unknown`, and so for the other two members.
pub proof fn lemma_absent_members_read_unknown(members: Map<Seq<char>, Seq<char>>)
    ensures
        !members.contains_key("tag_name"@) ==> release_of_members(members).version == "unknown"@,
        !members.contains_key("target_commitish"@) ==> release_of_members(members).commit_hash
            == "unknown"@,
        !members.contains_key("published_at"@) ==> release_of_members(members).published_at
            == "unknown"@,
{
    reveal_strlit("unknown");
}

/// The laws above, for a response body. A body that is not empty and is a
/// JSON document reads as a release, and as nothing else. Its version is
/// `1.2.3` where the document's `tag_name` is `v1.2.3`, and `unknown` where
/// the document has no `tag_name`; it never starts or ends with white space.
pub proof fn lemma_version_of_body(body: Seq<u8>)
    ensures
        parsed_release(body) is Ok <==> body.len() > 0 && json_text_members(body) is Some,
        parsed_release(body) is Ok && member(json_text_members(body)->0, "tag_name"@) == Some(
            "v1.2.3"@,
        ) ==> parsed_release(body)->Ok_0.version == "1.2.3"@,
        parsed_release(body) is Ok && member(json_text_members(body)->0, "tag_name"@) is None
            ==> parsed_release(body)->Ok_0.version == "unknown"@,
        parsed_release(body) is Ok ==> is_trimmed(parsed_release(body)->Ok_0.version),
{
    if parsed_release(body) is Ok {
        let members = json_text_members(body)->0;
        if member(members, "tag_name"@) == Some("v1.2.3"@) {
            lemma_version_of_tagged_release(members);
        }
        lemma_absent_members_read_unknown(members);
        lemma_version_is_trimmed(or_unknown(member(members, "tag_name"@)));
    }
}

/// A tag name as a version.
pub fn normalize_version(tag: &str) -> (r: String)
    ensures
        r@ == normalized_version(tag@),
{
    trim(strip_leading(tag, 'v')).to_owned()
}

/// Writes the JSON object of a record from the JSON literals of its three
/// fields.
pub fn write_release_object(version: &str, commit_hash: &str, published_at: &str) -> (r: String)
    ensures
        r@ == release_object(version@, commit_hash@, published_at@),
{
    let mut out = "{\"version\":".to_owned();
    out.append(version);
    out.append(",\"commit_hash\":");
    out.append(commit_hash);
    out.append(",\"published_at\":");
    out.append(published_at);
    out.append("}");
    out
}

fn text_or_unknown(member: Option<&str>) -> (r: &str)
    ensures
        r@ == or_unknown(text_of(member)),
{
    match member {
        Some(text) => text,
        None => "unknown",
    }
}

impl ReleaseInfo {
    /// The record made of the three members that the release index reports.
    /// An absent member reads `"unknown"`; the tag name becomes the version.
    pub fn from_members(
        tag_name: Option<&str>,
        target_commitish: Option<&str>,
        published_at: Option<&str>,
    ) -> (r: ReleaseInfo)
        ensures
            r@ == release_of(text_of(tag_name), text_of(target_commitish), text_of(published_at)),
    {
        ReleaseInfo {
            version: normalize_version(text_or_unknown(tag_name)),
            commit_hash: text_or_unknown(target_commitish).to_owned(),
            published_at: text_or_unknown(published_at).to_owned(),
        }
    }

    /// The JSON document that stands for this record.
    pub fn to_json(&self) -> (r: String)
        ensures
            r@ == release_json(self@),
    {
        let version = string_literal(self.version.as_str()).unwrap();
        let commit_hash = string_literal(self.commit_hash.as_str()).unwrap();
        let published_at = string_literal(self.published_at.as_str()).unwrap();
        write_release_object(version.as_str(), commit_hash.as_str(), published_at.as_str())
    }
}

impl vstd::std_specs::convert::TryFromSpecImpl<&[u8]> for ReleaseInfo {
    /// What `try_from` returns is stated by its own `ensures`, over views.
    open spec fn obeys_try_from_spec() -> bool {
        false
    }

    open spec fn try_from_spec(value: &[u8]) -> Result<ReleaseInfo, ResolveError> {
        arbitrary()
    }
}

impl TryFrom<&[u8]> for ReleaseInfo {
    type Error = ResolveError;

    /// Reads a record from the body of the release index's answer.
    fn try_from(value: &[u8]) -> (r: Result<ReleaseInfo, ResolveError>)
        ensures
            outcome_of(r) == parsed_release(value@),
    {
        if value.len() == 0 {
            return Err(ResolveError::EmptyBody);
        }
        match parse_document(value) {
            Err(_) => Err(ResolveError::Parse),
            Ok(doc) => Ok(
                ReleaseInfo::from_members(
                    text_member(&doc, "tag_name"),
                    text_member(&doc, "target_commitish"),
                    text_member(&doc, "published_at"),
                ),
            ),
        }
    }
}

} // verus!

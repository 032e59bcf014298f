//! Telling the kinds of media apart by the keys that an object has.
//!
//! The wire format has no field that names the kind of a record. A record is
//! a series, a season, an episode, a movie listing or a movie according to
//! which keys are there, asked in a fixed order.

use crate::error::Error;
use crate::error::ErrorContext;
use crate::error::ErrorContextView;
use crate::error::ErrorView;
use crate::json::find_member;
use crate::json::lemma_object_view;
use crate::json::Json;
use crate::json::JsonValue;
use crate::json::Member;
use crate::json::MemberValue;
use crate::text::same_text;
use crate::text::views;
use vstd::prelude::*;

verus! {

/// The kinds of media.
#[derive(Clone, Copy, Debug, PartialEq, Eq, Structural)]
pub enum MediaKind {
    Series,
    Season,
    Episode,
    MovieListing,
    Movie,
}

impl MediaKind {
    /// The key of the wrapper object that a search result puts around part
    /// of a record of this kind.
    pub open spec fn metadata_key(self) -> Seq<char> {
        match self {
            MediaKind::Series => "series_metadata"@,
            MediaKind::Season => "season_metadata"@,
            MediaKind::Episode => "episode_metadata"@,
            MediaKind::MovieListing => "movie_listing_metadata"@,
            MediaKind::Movie => "movie_metadata"@,
        }
    }

    /// The key that marks a record of this kind where it was fetched directly
    /// and has no wrapper.
    pub open spec fn direct_key(self) -> Seq<char> {
        match self {
            MediaKind::Series => "series_launch_year"@,
            MediaKind::Season => "number_of_episodes"@,
            MediaKind::Episode => "sequence_number"@,
            MediaKind::MovieListing => "movie_release_year"@,
            MediaKind::Movie => "movie_listing_title"@,
        }
    }

    /// An object looks like a record of this kind if it has the wrapper key
    /// or the direct key.
    pub open spec fn fits(self, value: JsonValue) -> bool {
        value.has_key(self.metadata_key()) || value.has_key(self.direct_key())
    }

    /// The key of the wrapper object of this kind.
    pub fn wrapper_key(self) -> (r: &'static str)
        ensures
            r@ == self.metadata_key(),
    {
        match self {
            MediaKind::Series => "series_metadata",
            MediaKind::Season => "season_metadata",
            MediaKind::Episode => "episode_metadata",
            MediaKind::MovieListing => "movie_listing_metadata",
            MediaKind::Movie => "movie_metadata",
        }
    }

    /// The key that marks a directly fetched record of this kind.
    pub fn marker_key(self) -> (r: &'static str)
        ensures
            r@ == self.direct_key(),
    {
        match self {
            MediaKind::Series => "series_launch_year",
            MediaKind::Season => "number_of_episodes",
            MediaKind::Episode => "sequence_number",
            MediaKind::MovieListing => "movie_release_year",
            MediaKind::Movie => "movie_listing_title",
        }
    }

    /// Whether an object looks like a record of this kind.
    pub fn matches(self, value: &Json) -> (r: bool)
        ensures
            r == self.fits(value@),
    {
        value.contains_key(self.wrapper_key()) || value.contains_key(self.marker_key())
    }
}

/// The kind of a record: the first, in the order series, season, episode,
/// movie listing, movie, that the object looks like.
pub open spec fn media_kind(value: JsonValue) -> Option<MediaKind> {
    if MediaKind::Series.fits(value) {
        Some(MediaKind::Series)
    } else if MediaKind::Season.fits(value) {
        Some(MediaKind::Season)
    } else if MediaKind::Episode.fits(value) {
        Some(MediaKind::Episode)
    } else if MediaKind::MovieListing.fits(value) {
        Some(MediaKind::MovieListing)
    } else if MediaKind::Movie.fits(value) {
        Some(MediaKind::Movie)
    } else {
        None
    }
}

impl MediaKind {
    /// The place of the kind in the order in which the kinds are asked.
    pub open spec fn rank(self) -> nat {
        match self {
            MediaKind::Series => 0,
            MediaKind::Season => 1,
            MediaKind::Episode => 2,
            MediaKind::MovieListing => 3,
            MediaKind::Movie => 4,
        }
    }
}

/// A document that looks like a kind, and like none of the kinds asked
/// before it, is of that kind: with the wrapper key, with the direct key, or
/// with both.
pub proof fn lemma_kind_by_keys(value: JsonValue, kind: MediaKind)
    requires
        value.has_key(kind.metadata_key()) || value.has_key(kind.direct_key()),
        forall|earlier: MediaKind| earlier.rank() < kind.rank() ==> !earlier.fits(value),
    ensures
        media_kind(value) == Some(kind),
        resolved(value) is Ok,
        resolved(value)->Ok_0.kind == kind,
{
    assert(MediaKind::Series.rank() == 0);
    assert(MediaKind::Season.rank() == 1);
    assert(MediaKind::Episode.rank() == 2);
    assert(MediaKind::MovieListing.rank() == 3);
    assert(MediaKind::Movie.rank() == 4);
}

/// A document that looks like no kind is refused with a decode error.
pub proof fn lemma_no_kind_is_refused(value: JsonValue)
    requires
        forall|kind: MediaKind| !kind.fits(value),
    ensures
        media_kind(value) is None,
        resolved(value) == Err::<ResolvedMediaView, ErrorView>(unclassified_error()),
        resolved(value)->Err_0 is Decode,
{
    assert(!MediaKind::Series.fits(value));
    assert(!MediaKind::Season.fits(value));
    assert(!MediaKind::Episode.fits(value));
    assert(!MediaKind::MovieListing.fits(value));
    assert(!MediaKind::Movie.fits(value));
}

/// Resolving is a function of the document: two runs on the same document
/// agree on the kind, on the flattened record and on the error.
pub proof fn lemma_same_document_same_kind(
    value: JsonValue,
    first: Result<ResolvedMediaView, ErrorView>,
    second: Result<ResolvedMediaView, ErrorView>,
)
    requires
        first == resolved(value),
        second == resolved(value),
    ensures
        first == second,
{
}

/// The members whose key is not the given one, in their order.
pub open spec fn without_key(members: Seq<MemberValue>, key: Seq<char>) -> Seq<MemberValue>
    decreases members.len(),
{
    if members.len() == 0 {
        Seq::empty()
    } else if members.last().key == key {
        without_key(members.drop_last(), key)
    } else {
        without_key(members.drop_last(), key).push(members.last())
    }
}

/// An object with the members of its wrapper merged into it: the wrapper
/// itself leaves, and its members follow the others, so that a member of the
/// wrapper counts before a member of the object with the same key. A value
/// that is no object, or whose wrapper is missing or no object, stays as it
/// is.
pub open spec fn flattened(value: JsonValue, key: Seq<char>) -> JsonValue {
    match value {
        JsonValue::Object(members) => match find_member(members, key) {
            Some(JsonValue::Object(inner)) => JsonValue::Object(without_key(members, key) + inner),
            _ => value,
        },
        _ => value,
    }
}

/// A member that is not the wrapper is found in the trimmed object as it
/// was found in the object.
pub proof fn lemma_without_key_keeps(members: Seq<MemberValue>, key: Seq<char>, other: Seq<char>)
    requires
        other != key,
    ensures
        find_member(without_key(members, key), other) == find_member(members, other),
        find_member(without_key(members, key), key) is None,
    decreases members.len(),
{
    if members.len() > 0 {
        lemma_without_key_keeps(members.drop_last(), key, other);
        if members.last().key != key {
            let kept = without_key(members.drop_last(), key).push(members.last());
            assert(kept.drop_last() =~= without_key(members.drop_last(), key));
        }
    }
}

/// In two lists put one after the other a key is found in the second, and
/// in the first only where the second lacks it.
pub proof fn lemma_find_member_in_both(
    first: Seq<MemberValue>,
    second: Seq<MemberValue>,
    key: Seq<char>,
)
    ensures
        find_member(first + second, key) == if find_member(second, key) is Some {
            find_member(second, key)
        } else {
            find_member(first, key)
        },
    decreases second.len(),
{
    if second.len() == 0 {
        assert(first + second =~= first);
    } else {
        lemma_find_member_in_both(first, second.drop_last(), key);
        assert((first + second).drop_last() =~= first + second.drop_last());
        assert((first + second).last() == second.last());
    }
}

/// Merging the wrapper into the object behaves as on maps: a key of the
/// wrapper gives the wrapper's member, the wrapper's own key gives nothing
/// unless the wrapper has it, and any other key gives what the object gave.
pub proof fn lemma_flattened_member(
    members: Seq<MemberValue>,
    inner: Seq<MemberValue>,
    key: Seq<char>,
    other: Seq<char>,
)
    requires
        find_member(members, key) == Some(JsonValue::Object(inner)),
    ensures
        flattened(JsonValue::Object(members), key).member(other) == if find_member(inner, other)
            is Some {
            find_member(inner, other)
        } else if other == key {
            None
        } else {
            find_member(members, other)
        },
{
    lemma_find_member_in_both(without_key(members, key), inner, other);
    if other == key {
        lemma_without_key_keeps(members, key, seq!['x'] + key);
    } else {
        lemma_without_key_keeps(members, key, other);
    }
}

/// Clones the members whose key is not the given one.
fn members_without(members: &Vec<Member>, key: &str) -> (r: Vec<Member>)
    ensures
        views(r@) == without_key(views(members@), key@),
{
    let ghost all = views(members@);
    let mut out: Vec<Member> = Vec::new();
    let mut i: usize = 0;
    assert(views(out@) =~= without_key(all.take(0), key@));
    while i < members.len()
        invariant
            i <= members.len(),
            all == views(members@),
            views(out@) == without_key(all.take(i as int), key@),
        decreases members.len() - i,
    {
        let ghost next = all.take(i + 1);
        assert(next.drop_last() =~= all.take(i as int));
        assert(next.last() == members@[i as int]@);
        if !same_text(members[i].key.as_str(), key) {
            let ghost before = views(out@);
            out.push(Member { key: members[i].key.clone(), value: members[i].value.clone() });
            assert(views(out@) =~= before.push(next.last()));
        }
        i += 1;
    }
    assert(all.take(i as int) =~= all);
    out
}

/// Merges the members of the wrapper object with the given key into the
/// object that holds it.
pub fn flatten(value: &Json, key: &str) -> (r: Json)
    ensures
        r@ == flattened(value@, key@),
{
    match value {
        Json::Object(members) => {
            proof {
                lemma_object_view(*members);
            }
            match value.get(key) {
                Some(Json::Object(inner)) => {
                    proof {
                        lemma_object_view(*inner);
                    }
                    let mut merged = members_without(members, key);
                    let ghost kept = views(merged@);
                    let mut i: usize = 0;
                    while i < inner.len()
                        invariant
                            i <= inner.len(),
                            views(merged@) == kept + views(inner@).take(i as int),
                        decreases inner.len() - i,
                    {
                        let ghost before = views(merged@);
                        merged.push(
                            Member { key: inner[i].key.clone(), value: inner[i].value.clone() },
                        );
                        assert(views(merged@) =~= before.push(inner@[i as int]@));
                        assert(views(inner@).take(i + 1) =~= views(inner@).take(i as int).push(
                            inner@[i as int]@,
                        ));
                        i += 1;
                    }
                    assert(views(inner@).take(i as int) =~= views(inner@));
                    proof {
                        lemma_object_view(merged);
                    }
                    Json::Object(merged)
                },
                _ => value.clone(),
            }
        },
        _ => value.clone(),
    }
}

/// Merges the `episode_metadata` wrapper of a panel into the panel.
pub fn flatten_panel(panel: &Json) -> (r: Json)
    ensures
        r@ == flattened(panel@, "episode_metadata"@),
{
    flatten(panel, "episode_metadata")
}

/// A record whose kind is known, ready to be decoded field by field.
#[derive(Clone, Debug)]
pub struct ResolvedMedia {
    pub kind: MediaKind,
    /// The record with the wrapper of its kind merged into it.
    pub document: Json,
}

pub struct ResolvedMediaView {
    pub kind: MediaKind,
    pub document: JsonValue,
}

impl View for ResolvedMedia {
    type V = ResolvedMediaView;

    open spec fn view(&self) -> ResolvedMediaView {
        ResolvedMediaView { kind: self.kind, document: self.document@ }
    }
}

/// The error for an object that looks like no kind of media.
pub open spec fn unclassified_error() -> ErrorView {
    ErrorView::Decode(
        ErrorContextView {
            message: "could not classify media object"@,
            url: None,
            value: None,
            extra: None,
        },
    )
}

/// What resolving makes of a document: its kind and the flattened record,
/// or the decode error for a document of no kind.
pub open spec fn resolved(value: JsonValue) -> Result<ResolvedMediaView, ErrorView> {
    match media_kind(value) {
        Some(kind) => Ok(
            ResolvedMediaView { kind, document: flattened(value, kind.metadata_key()) },
        ),
        None => Err(unclassified_error()),
    }
}

/// The kind of a record, by the keys that it has.
pub fn classify_media(value: &Json) -> (r: Option<MediaKind>)
    ensures
        r == media_kind(value@),
{
    if MediaKind::Series.matches(value) {
        Some(MediaKind::Series)
    } else if MediaKind::Season.matches(value) {
        Some(MediaKind::Season)
    } else if MediaKind::Episode.matches(value) {
        Some(MediaKind::Episode)
    } else if MediaKind::MovieListing.matches(value) {
        Some(MediaKind::MovieListing)
    } else if MediaKind::Movie.matches(value) {
        Some(MediaKind::Movie)
    } else {
        None
    }
}

/// Decides which kind of media a document is and merges the wrapper of that
/// kind into the record.
pub fn resolve_media(value: &Json) -> (r: Result<ResolvedMedia, Error>)
    ensures
        match r {
            Ok(found) => resolved(value@) == Ok::<ResolvedMediaView, ErrorView>(found@),
            Err(error) => resolved(value@) == Err::<ResolvedMediaView, ErrorView>(error@),
        },
{
    match classify_media(value) {
        Some(kind) => Ok(ResolvedMedia { kind, document: flatten(value, kind.wrapper_key()) }),
        None => Err(Error::Decode(ErrorContext::new("could not classify media object"))),
    }
}

} // verus!

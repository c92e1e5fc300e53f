//! The metadata record of the current track and its decoding from the
//! player's `Metadata` property.

use vstd::prelude::*;
use vstd::string::StringExecFns;
use crate::property::{
    EntryModel, PropertyModel, RemoteProperty, entry_views, item_views, lemma_entries_view,
    lemma_view_keeps_shape, lemma_sequence_view,
};
use crate::session::{FetchError, fetch_view};
use crate::text::{join_texts, joined, text_views};

verus! {

/// The key under which the player gives the artists.
pub open spec fn artist_key() -> Seq<char> {
    "xesam:artist"@
}

/// The key under which the player gives the album.
pub open spec fn album_key() -> Seq<char> {
    "xesam:album"@
}

/// The key under which the player gives the title.
pub open spec fn title_key() -> Seq<char> {
    "xesam:title"@
}

/// The text that stands between two names.
pub open spec fn separator() -> Seq<char> {
    " - "@
}

/// The text of a text value; the empty text for any other value.
pub open spec fn scalar_text(p: PropertyModel) -> Seq<char> {
    match p {
        PropertyModel::Scalar(t) => t,
        _ => Seq::empty(),
    }
}

/// A group of names: an array that holds nothing but texts.
pub open spec fn is_name_group(p: PropertyModel) -> bool {
    match p {
        PropertyModel::Sequence(items) => forall|i: int|
            0 <= i < items.len() ==> (#[trigger] items[i]) is Scalar,
        _ => false,
    }
}

/// The names of a group, in order.
pub open spec fn group_names(p: PropertyModel) -> Seq<Seq<char>> {
    match p {
        PropertyModel::Sequence(items) => Seq::new(items.len(), |i: int| scalar_text(items[i])),
        _ => Seq::empty(),
    }
}

/// A candidate entry of the artist value: an array that holds nothing but
/// groups of names.
pub open spec fn is_candidate(p: PropertyModel) -> bool {
    match p {
        PropertyModel::Sequence(groups) => forall|i: int|
            0 <= i < groups.len() ==> is_name_group(#[trigger] groups[i]),
        _ => false,
    }
}

/// The names of all the groups, first group first.
pub open spec fn flattened_names(groups: Seq<PropertyModel>) -> Seq<Seq<char>>
    decreases groups.len(),
{
    if groups.len() == 0 {
        Seq::empty()
    } else {
        flattened_names(groups.drop_last()) + group_names(groups.last())
    }
}

/// The names of one candidate entry: those of all its groups, in order.
pub open spec fn candidate_name_list(p: PropertyModel) -> Seq<Seq<char>> {
    match p {
        PropertyModel::Sequence(groups) => flattened_names(groups),
        _ => Seq::empty(),
    }
}

/// The text of one candidate entry: all its names, joined by the separator.
pub open spec fn candidate_text(p: PropertyModel) -> Seq<char> {
    joined(candidate_name_list(p), separator())
}

/// The texts of those entries that are candidates, in order. An entry of any
/// other shape gives no text.
pub open spec fn candidate_texts(entries: Seq<PropertyModel>) -> Seq<Seq<char>>
    decreases entries.len(),
{
    if entries.len() == 0 {
        Seq::empty()
    } else if is_candidate(entries.last()) {
        candidate_texts(entries.drop_last()).push(candidate_text(entries.last()))
    } else {
        candidate_texts(entries.drop_last())
    }
}

/// The artist text of an artist value: the texts of its candidate entries,
/// joined by the separator; the empty text where the value is no array.
pub open spec fn artist_text(p: PropertyModel) -> Seq<char> {
    match p {
        PropertyModel::Sequence(entries) => joined(candidate_texts(entries), separator()),
        _ => Seq::empty(),
    }
}

/// The names of all the entries, first entry first.
pub open spec fn all_names(entries: Seq<PropertyModel>) -> Seq<Seq<char>>
    decreases entries.len(),
{
    if entries.len() == 0 {
        Seq::empty()
    } else {
        all_names(entries.drop_last()) + candidate_name_list(entries.last())
    }
}

/// The value of the last entry with the given key, if there is one.
pub open spec fn last_value(entries: Seq<EntryModel>, key: Seq<char>) -> Option<PropertyModel>
    decreases entries.len(),
{
    if entries.len() == 0 {
        None
    } else if entries.last().key == key {
        Some(entries.last().value)
    } else {
        last_value(entries.drop_last(), key)
    }
}

/// The artist that a key-value sequence gives.
pub open spec fn artist_of(entries: Seq<EntryModel>) -> Seq<char> {
    match last_value(entries, artist_key()) {
        Some(v) => artist_text(v),
        None => Seq::empty(),
    }
}

/// The album that a key-value sequence gives.
pub open spec fn album_of(entries: Seq<EntryModel>) -> Seq<char> {
    match last_value(entries, album_key()) {
        Some(v) => scalar_text(v),
        None => Seq::empty(),
    }
}

/// The title that a key-value sequence gives.
pub open spec fn title_of(entries: Seq<EntryModel>) -> Seq<char> {
    match last_value(entries, title_key()) {
        Some(v) => scalar_text(v),
        None => Seq::empty(),
    }
}

/// The mathematical value of a metadata record.
pub struct MetadataModel {
    pub artist: Seq<char>,
    pub album: Seq<char>,
    pub title: Seq<char>,
}

/// The record with three empty texts.
pub open spec fn empty_metadata() -> MetadataModel {
    MetadataModel { artist: Seq::empty(), album: Seq::empty(), title: Seq::empty() }
}

/// The record that a property value decodes to.
pub open spec fn decoded(p: PropertyModel) -> MetadataModel {
    match p {
        PropertyModel::Entries(entries) => MetadataModel {
            artist: artist_of(entries),
            album: album_of(entries),
            title: title_of(entries),
        },
        _ => empty_metadata(),
    }
}

/// What is shown of the current track.
#[derive(Debug, Clone)]
pub struct PlaybackMetadata {
    pub artist: String,
    pub album: String,
    pub title: String,
}

impl View for PlaybackMetadata {
    type V = MetadataModel;

    open spec fn view(&self) -> MetadataModel {
        MetadataModel { artist: self.artist@, album: self.album@, title: self.title@ }
    }
}

impl PlaybackMetadata {
    /// The record with three empty texts.
    pub fn new() -> (pm: PlaybackMetadata)
        ensures
            pm@ == empty_metadata(),
    {
        PlaybackMetadata { artist: String::new(), album: String::new(), title: String::new() }
    }
}

/// The metadata for what a read came to: the decoded value, or three empty
/// texts where the read failed.
pub open spec fn metadata_of(fetched: Result<PropertyModel, FetchError>) -> MetadataModel {
    match fetched {
        Ok(p) => decoded(p),
        Err(_) => empty_metadata(),
    }
}

/// The text of a text value; the empty text for a value of any other shape.
pub fn text_of(value: &RemoteProperty) -> (out: String)
    ensures
        out@ == scalar_text(value@),
{
    proof {
        lemma_view_keeps_shape(*value);
    }
    match value {
        RemoteProperty::Scalar(s) => s.clone(),
        _ => String::new(),
    }
}

/// Appends the names of a group to `names` and tells whether `group` is a
/// group of names. Where it is none, `names` is left in no particular state.
fn push_group_names(group: &RemoteProperty, names: &mut Vec<String>) -> (ok: bool)
    ensures
        ok == is_name_group(group@),
        ok ==> text_views(final(names)@) == text_views(old(names)@) + group_names(group@),
{
    proof {
        lemma_view_keeps_shape(*group);
    }
    match group {
        RemoteProperty::Sequence(items) => {
            proof {
                lemma_sequence_view(*group);
            }
            let ghost models = item_views(items@);
            let ghost start = text_views(names@);
            let mut i: usize = 0;
            while i < items.len()
                invariant
                    i <= items.len(),
                    models == item_views(items@),
                    group@ == PropertyModel::Sequence(models),
                    forall|j: int| 0 <= j < i ==> (#[trigger] models[j]) is Scalar,
                    text_views(names@) == start + group_names(group@).take(i as int),
                decreases items.len() - i,
            {
                proof {
                    lemma_view_keeps_shape(items@[i as int]);
                    assert(models[i as int] == items@[i as int]@);
                }
                match &items[i] {
                    RemoteProperty::Scalar(s) => {
                        let ghost before = names@;
                        names.push(s.clone());
                        proof {
                            assert(text_views(names@) =~= text_views(before).push(s@));
                            assert(text_views(names@) =~= start + group_names(group@).take(
                                i + 1,
                            ));
                        }
                    },
                    _ => {
                        return false;
                    },
                }
                i = i + 1;
            }
            proof {
                assert(group_names(group@).take(i as int) =~= group_names(group@));
            }
            true
        },
        _ => false,
    }
}

/// Taking one more group adds that group's names behind the others.
proof fn lemma_flattened_step(groups: Seq<PropertyModel>, i: int)
    requires
        0 <= i < groups.len(),
    ensures
        flattened_names(groups.take(i + 1)) == flattened_names(groups.take(i)) + group_names(
            groups[i],
        ),
{
    assert(groups.take(i + 1).drop_last() =~= groups.take(i));
}

/// The names of a candidate entry, all groups flattened into one list;
/// `None` where the entry is no candidate.
pub fn candidate_names(entry: &RemoteProperty) -> (r: Option<Vec<String>>)
    ensures
        r is Some <==> is_candidate(entry@),
        r matches Some(names) ==> text_views(names@) == candidate_name_list(entry@),
{
    proof {
        lemma_view_keeps_shape(*entry);
    }
    match entry {
        RemoteProperty::Sequence(groups) => {
            proof {
                lemma_sequence_view(*entry);
            }
            let ghost models = item_views(groups@);
            let mut names: Vec<String> = Vec::new();
            let mut i: usize = 0;
            assert(text_views(names@) =~= flattened_names(models.take(0)));
            while i < groups.len()
                invariant
                    i <= groups.len(),
                    models == item_views(groups@),
                    entry@ == PropertyModel::Sequence(models),
                    forall|j: int| 0 <= j < i ==> is_name_group(#[trigger] models[j]),
                    text_views(names@) == flattened_names(models.take(i as int)),
                decreases groups.len() - i,
            {
                proof {
                    lemma_flattened_step(models, i as int);
                    assert(models[i as int] == groups@[i as int]@);
                }
                let ok = push_group_names(&groups[i], &mut names);
                if !ok {
                    assert(entry@->Sequence_0[i as int] == models[i as int]);
                    return None;
                }
                i = i + 1;
            }
            proof {
                assert(models.take(i as int) =~= models);
            }
            Some(names)
        },
        _ => None,
    }
}

/// Taking one more entry adds its text behind the others if it is a
/// candidate, and nothing if it is none.
proof fn lemma_candidate_texts_step(entries: Seq<PropertyModel>, i: int)
    requires
        0 <= i < entries.len(),
    ensures
        candidate_texts(entries.take(i + 1)) == if is_candidate(entries[i]) {
            candidate_texts(entries.take(i)).push(candidate_text(entries[i]))
        } else {
            candidate_texts(entries.take(i))
        },
{
    assert(entries.take(i + 1).drop_last() =~= entries.take(i));
}

/// Decodes the artist value: the names of each candidate entry are joined by
/// `" - "`, and so are the texts of the entries. An entry of another shape is
/// passed over; a value that is no array gives the empty text.
pub fn decode_artist(value: &RemoteProperty) -> (out: String)
    ensures
        out@ == artist_text(value@),
{
    proof {
        lemma_view_keeps_shape(*value);
    }
    match value {
        RemoteProperty::Sequence(entries) => {
            proof {
                lemma_sequence_view(*value);
            }
            let ghost models = item_views(entries@);
            let mut texts: Vec<String> = Vec::new();
            let mut i: usize = 0;
            assert(text_views(texts@) =~= candidate_texts(models.take(0)));
            while i < entries.len()
                invariant
                    i <= entries.len(),
                    models == item_views(entries@),
                    value@ == PropertyModel::Sequence(models),
                    text_views(texts@) == candidate_texts(models.take(i as int)),
                decreases entries.len() - i,
            {
                proof {
                    lemma_candidate_texts_step(models, i as int);
                    assert(models[i as int] == entries@[i as int]@);
                }
                match candidate_names(&entries[i]) {
                    Some(names) => {
                        let text = join_texts(&names, " - ");
                        let ghost before = texts@;
                        texts.push(text);
                        proof {
                            assert(text_views(texts@) =~= text_views(before).push(text@));
                        }
                    },
                    None => {},
                }
                i = i + 1;
            }
            proof {
                assert(models.take(i as int) =~= models);
            }
            join_texts(&texts, " - ")
        },
        _ => String::new(),
    }
}

/// Taking one more entry changes the value found for a key only if the entry
/// has that key.
proof fn lemma_last_value_step(entries: Seq<EntryModel>, i: int, key: Seq<char>)
    requires
        0 <= i < entries.len(),
    ensures
        last_value(entries.take(i + 1), key) == if entries[i].key == key {
            Some(entries[i].value)
        } else {
            last_value(entries.take(i), key)
        },
{
    assert(entries.take(i + 1).drop_last() =~= entries.take(i));
}

/// Decodes the player's `Metadata` property. Each of the three fields is read
/// from the last entry with its key: the artist as `decode_artist` gives it,
/// album and title as the entry's text. A field whose key is missing, or
/// whose value has another shape, is the empty text; entries with other keys
/// are passed over. A value that is no key-value sequence gives three empty
/// texts.
pub fn decode_metadata(property: &RemoteProperty) -> (pm: PlaybackMetadata)
    ensures
        pm@ == decoded(property@),
{
    proof {
        lemma_view_keeps_shape(*property);
    }
    let mut pm = PlaybackMetadata::new();
    match property {
        RemoteProperty::Entries(entries) => {
            proof {
                lemma_entries_view(*property);
            }
            let ghost models = entry_views(entries@);
            let artist = String::from_str("xesam:artist");
            let album = String::from_str("xesam:album");
            let title = String::from_str("xesam:title");
            let mut i: usize = 0;
            while i < entries.len()
                invariant
                    i <= entries.len(),
                    models == entry_views(entries@),
                    artist@ == artist_key(),
                    album@ == album_key(),
                    title@ == title_key(),
                    pm.artist@ == artist_of(models.take(i as int)),
                    pm.album@ == album_of(models.take(i as int)),
                    pm.title@ == title_of(models.take(i as int)),
                decreases entries.len() - i,
            {
                proof {
                    lemma_last_value_step(models, i as int, artist_key());
                    lemma_last_value_step(models, i as int, album_key());
                    lemma_last_value_step(models, i as int, title_key());
                    assert(models[i as int].key == entries@[i as int].key@);
                    assert(models[i as int].value == entries@[i as int].value@);
                }
                let entry = &entries[i];
                if entry.key == artist {
                    pm.artist = decode_artist(&entry.value);
                }
                if entry.key == album {
                    pm.album = text_of(&entry.value);
                }
                if entry.key == title {
                    pm.title = text_of(&entry.value);
                }
                i = i + 1;
            }
            proof {
                assert(models.take(i as int) =~= models);
            }
        },
        _ => {},
    }
    pm
}

/// Turns what a read of the `Metadata` property came to into the metadata
/// record: the decoded value, or three empty texts where the read failed.
pub fn get_playback_metadata(fetched: Result<RemoteProperty, FetchError>) -> (pm: PlaybackMetadata)
    ensures
        pm@ == metadata_of(fetch_view(fetched)),
{
    match fetched {
        Ok(p) => decode_metadata(&p),
        Err(_) => PlaybackMetadata::new(),
    }
}

} // verus!

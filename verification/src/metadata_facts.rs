//! What holds of the decoding of metadata for every input: which entry
//! decides a field, that the fields do not depend on each other, and that the
//! artist text is flat.

use vstd::prelude::*;
use crate::metadata::{
    MetadataModel, album_key, all_names, artist_key, artist_text, candidate_name_list,
    candidate_text, candidate_texts, decoded, empty_metadata, is_candidate, last_value, separator,
    title_key,
};
use crate::property::{EntryModel, PropertyModel};
use crate::text::{joined, lemma_joined_concat};

verus! {

/// The three keys are three different texts: an entry speaks of one field at
/// most.
pub proof fn lemma_keys_differ()
    ensures
        artist_key() != album_key(),
        artist_key() != title_key(),
        album_key() != title_key(),
{
    reveal_strlit("xesam:artist");
    reveal_strlit("xesam:album");
    reveal_strlit("xesam:title");
    assert(artist_key().len() == 12);
    assert(album_key().len() == 11);
    assert(title_key().len() == 11);
    assert(album_key()[6] == 'a');
    assert(title_key()[6] == 't');
}

/// No value is found for a key that no entry has.
pub proof fn lemma_missing_key(entries: Seq<EntryModel>, key: Seq<char>)
    requires
        forall|i: int| 0 <= i < entries.len() ==> (#[trigger] entries[i]).key != key,
    ensures
        last_value(entries, key) is None,
    decreases entries.len(),
{
    if entries.len() > 0 {
        assert(entries.last() == entries[entries.len() - 1]);
        lemma_missing_key(entries.drop_last(), key);
    }
}

/// The value found for a key is that of the entry with the key behind which
/// no other entry has it.
pub proof fn lemma_last_entry_wins(entries: Seq<EntryModel>, i: int, key: Seq<char>)
    requires
        0 <= i < entries.len(),
        entries[i].key == key,
        forall|j: int| i < j < entries.len() ==> (#[trigger] entries[j]).key != key,
    ensures
        last_value(entries, key) == Some(entries[i].value),
    decreases entries.len(),
{
    if i < entries.len() - 1 {
        assert(entries.last() == entries[entries.len() - 1]);
        lemma_last_entry_wins(entries.drop_last(), i, key);
    }
}

/// Taking out an entry with another key leaves the value found for a key as
/// it was.
pub proof fn lemma_other_key_removed(entries: Seq<EntryModel>, i: int, key: Seq<char>)
    requires
        0 <= i < entries.len(),
        entries[i].key != key,
    ensures
        last_value(entries.remove(i), key) == last_value(entries, key),
    decreases entries.len(),
{
    if i == entries.len() - 1 {
        assert(entries.remove(i) =~= entries.drop_last());
    } else {
        assert(entries.remove(i).last() == entries.last());
        assert(entries.remove(i).drop_last() =~= entries.drop_last().remove(i));
        lemma_other_key_removed(entries.drop_last(), i, key);
    }
}

/// Where every entry of the artist value is a candidate, every entry gives
/// its text, in order.
pub proof fn lemma_all_candidates(entries: Seq<PropertyModel>)
    requires
        forall|i: int| 0 <= i < entries.len() ==> is_candidate(#[trigger] entries[i]),
    ensures
        candidate_texts(entries) == Seq::new(entries.len(), |i: int| candidate_text(entries[i])),
    decreases entries.len(),
{
    if entries.len() > 0 {
        let front = entries.drop_last();
        assert(entries.last() == entries[entries.len() - 1]);
        assert forall|i: int| 0 <= i < front.len() implies is_candidate(#[trigger] front[i]) by {
            assert(front[i] == entries[i]);
        }
        lemma_all_candidates(front);
        assert(candidate_texts(entries) =~= Seq::new(
            entries.len(),
            |i: int| candidate_text(entries[i]),
        ));
    } else {
        assert(candidate_texts(entries) =~= Seq::new(
            entries.len(),
            |i: int| candidate_text(entries[i]),
        ));
    }
}

/// The artist text is flat: where every entry of the artist value is a
/// candidate with at least one name, the artist text is the list of all names
/// of all entries, in their order, with the separator between each two.
pub proof fn lemma_artist_is_flat(entries: Seq<PropertyModel>)
    requires
        forall|i: int|
            0 <= i < entries.len() ==> is_candidate(#[trigger] entries[i]) && candidate_name_list(
                entries[i],
            ).len() > 0,
    ensures
        artist_text(PropertyModel::Sequence(entries)) == joined(all_names(entries), separator()),
        entries.len() > 0 ==> all_names(entries).len() > 0,
    decreases entries.len(),
{
    if entries.len() > 0 {
        let front = entries.drop_last();
        let last = entries.last();
        assert(last == entries[entries.len() - 1]);
        assert forall|i: int| 0 <= i < front.len() implies is_candidate(#[trigger] front[i])
            && candidate_name_list(front[i]).len() > 0 by {
            assert(front[i] == entries[i]);
        }
        lemma_artist_is_flat(front);
        lemma_all_candidates(front);
        let texts = candidate_texts(front);
        assert(texts.push(candidate_text(last)).drop_last() =~= texts);
        if front.len() == 0 {
            assert(all_names(entries) =~= candidate_name_list(last));
        } else {
            lemma_joined_concat(all_names(front), candidate_name_list(last), separator());
        }
    }
}

/// Fields that are present in their expected shape are reproduced: where the
/// last entry for the artist is an array of candidates, the last entry for the
/// album a text and the last entry for the title a text, the decoded record
/// holds the candidates' texts joined in order, the album's text and the
/// title's text.
pub proof fn lemma_present_fields_are_reproduced(
    entries: Seq<EntryModel>,
    artist: int,
    album: int,
    title: int,
)
    requires
        0 <= artist < entries.len(),
        0 <= album < entries.len(),
        0 <= title < entries.len(),
        entries[artist].key == artist_key(),
        entries[album].key == album_key(),
        entries[title].key == title_key(),
        forall|j: int| artist < j < entries.len() ==> (#[trigger] entries[j]).key != artist_key(),
        forall|j: int| album < j < entries.len() ==> (#[trigger] entries[j]).key != album_key(),
        forall|j: int| title < j < entries.len() ==> (#[trigger] entries[j]).key != title_key(),
        entries[artist].value is Sequence,
        forall|i: int|
            0 <= i < entries[artist].value->Sequence_0.len() ==> is_candidate(
                #[trigger] entries[artist].value->Sequence_0[i],
            ),
        entries[album].value is Scalar,
        entries[title].value is Scalar,
    ensures
        decoded(PropertyModel::Entries(entries)) == (MetadataModel {
            artist: joined(
                Seq::new(
                    entries[artist].value->Sequence_0.len(),
                    |i: int| candidate_text(entries[artist].value->Sequence_0[i]),
                ),
                separator(),
            ),
            album: entries[album].value->Scalar_0,
            title: entries[title].value->Scalar_0,
        }),
{
    lemma_last_entry_wins(entries, artist, artist_key());
    lemma_last_entry_wins(entries, album, album_key());
    lemma_last_entry_wins(entries, title, title_key());
    lemma_all_candidates(entries[artist].value->Sequence_0);
}

/// A field whose key no entry has is the empty text, whatever the other
/// entries hold; so is every field of a value that is no key-value sequence.
pub proof fn lemma_missing_fields_are_empty(p: PropertyModel)
    ensures
        !(p is Entries) ==> decoded(p) == empty_metadata(),
        p is Entries && (forall|i: int|
            0 <= i < p->Entries_0.len() ==> (#[trigger] p->Entries_0[i]).key != artist_key())
            ==> decoded(p).artist == Seq::<char>::empty(),
        p is Entries && (forall|i: int|
            0 <= i < p->Entries_0.len() ==> (#[trigger] p->Entries_0[i]).key != album_key())
            ==> decoded(p).album == Seq::<char>::empty(),
        p is Entries && (forall|i: int|
            0 <= i < p->Entries_0.len() ==> (#[trigger] p->Entries_0[i]).key != title_key())
            ==> decoded(p).title == Seq::<char>::empty(),
{
    if p is Entries {
        let entries = p->Entries_0;
        if forall|i: int| 0 <= i < entries.len() ==> (#[trigger] entries[i]).key != artist_key() {
            lemma_missing_key(entries, artist_key());
        }
        if forall|i: int| 0 <= i < entries.len() ==> (#[trigger] entries[i]).key != album_key() {
            lemma_missing_key(entries, album_key());
        }
        if forall|i: int| 0 <= i < entries.len() ==> (#[trigger] entries[i]).key != title_key() {
            lemma_missing_key(entries, title_key());
        }
    }
}

/// The fields are independent: taking an entry out of the input changes no
/// field but the one that the entry's key names, and none at all if the key
/// names no field.
pub proof fn lemma_fields_are_independent(entries: Seq<EntryModel>, i: int)
    requires
        0 <= i < entries.len(),
    ensures
        entries[i].key != artist_key() ==> decoded(
            PropertyModel::Entries(entries.remove(i)),
        ).artist == decoded(PropertyModel::Entries(entries)).artist,
        entries[i].key != album_key() ==> decoded(PropertyModel::Entries(entries.remove(i))).album
            == decoded(PropertyModel::Entries(entries)).album,
        entries[i].key != title_key() ==> decoded(PropertyModel::Entries(entries.remove(i))).title
            == decoded(PropertyModel::Entries(entries)).title,
{
    if entries[i].key != artist_key() {
        lemma_other_key_removed(entries, i, artist_key());
    }
    if entries[i].key != album_key() {
        lemma_other_key_removed(entries, i, album_key());
    }
    if entries[i].key != title_key() {
        lemma_other_key_removed(entries, i, title_key());
    }
}

} // verus!

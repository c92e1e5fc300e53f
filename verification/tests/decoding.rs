use rusty_sounds::metadata::{
    candidate_names, decode_artist, decode_metadata, text_of, PlaybackMetadata,
};
use rusty_sounds::property::{Entry, RemoteProperty};
use rusty_sounds::text::join_texts;

fn text(s: &str) -> RemoteProperty {
    RemoteProperty::Scalar(s.to_string())
}

fn group(names: &[&str]) -> RemoteProperty {
    RemoteProperty::Sequence(names.iter().map(|n| text(n)).collect())
}

fn candidate(groups: Vec<RemoteProperty>) -> RemoteProperty {
    RemoteProperty::Sequence(groups)
}

fn entry(key: &str, value: RemoteProperty) -> Entry {
    Entry { key: key.to_string(), value }
}

fn two_group_artist() -> RemoteProperty {
    RemoteProperty::Sequence(vec![
        candidate(vec![group(&["A", "B"])]),
        candidate(vec![group(&["C"])]),
    ])
}

#[test]
fn new_metadata_is_empty() {
    let pm = PlaybackMetadata::new();
    assert_eq!(pm.artist, "");
    assert_eq!(pm.album, "");
    assert_eq!(pm.title, "");
}

#[test]
fn join_of_nothing_is_empty() {
    assert_eq!(join_texts(&vec![], " - "), "");
}

#[test]
fn join_of_one_has_no_separator() {
    assert_eq!(join_texts(&vec!["solo".to_string()], " - "), "solo");
}

#[test]
fn join_puts_separator_between_parts() {
    let parts = vec!["a".to_string(), "".to_string(), "c".to_string()];
    assert_eq!(join_texts(&parts, " - "), "a -  - c");
    assert_eq!(join_texts(&parts, ""), "ac");
}

#[test]
fn text_of_scalar_is_its_text() {
    assert_eq!(text_of(&text("Blue Train")), "Blue Train");
}

#[test]
fn text_of_other_shapes_is_empty() {
    assert_eq!(text_of(&group(&["x"])), "");
    assert_eq!(text_of(&RemoteProperty::Entries(vec![entry("k", text("v"))])), "");
}

#[test]
fn candidate_names_flattens_groups_in_order() {
    let c = candidate(vec![group(&["A", "B"]), group(&[]), group(&["C"])]);
    assert_eq!(
        candidate_names(&c),
        Some(vec!["A".to_string(), "B".to_string(), "C".to_string()])
    );
}

#[test]
fn candidate_names_refuses_other_shapes() {
    assert_eq!(candidate_names(&text("A")), None);
    assert_eq!(candidate_names(&candidate(vec![text("A")])), None);
    assert_eq!(candidate_names(&candidate(vec![group(&["A"]), text("B")])), None);
    let nested = candidate(vec![RemoteProperty::Sequence(vec![text("A"), group(&["B"])])]);
    assert_eq!(candidate_names(&nested), None);
    assert_eq!(candidate_names(&candidate(vec![])), Some(vec![]));
}

#[test]
fn artist_of_two_nested_groups() {
    assert_eq!(decode_artist(&two_group_artist()), "A - B - C");
}

#[test]
fn artist_keeps_flattening_order() {
    let value = RemoteProperty::Sequence(vec![
        candidate(vec![group(&["Z"]), group(&["Y", "X"])]),
        candidate(vec![group(&["W"])]),
    ]);
    assert_eq!(decode_artist(&value), "Z - Y - X - W");
}

#[test]
fn artist_passes_over_entries_of_other_shape() {
    let value = RemoteProperty::Sequence(vec![
        candidate(vec![group(&["A"])]),
        text("stray"),
        candidate(vec![text("not a group")]),
        candidate(vec![group(&["B"])]),
    ]);
    assert_eq!(decode_artist(&value), "A - B");
}

#[test]
fn artist_of_candidate_without_names_is_an_empty_part() {
    let value = RemoteProperty::Sequence(vec![
        candidate(vec![]),
        candidate(vec![group(&["C"])]),
    ]);
    assert_eq!(decode_artist(&value), " - C");
}

#[test]
fn artist_of_other_shapes_is_empty() {
    assert_eq!(decode_artist(&text("A")), "");
    assert_eq!(decode_artist(&RemoteProperty::Sequence(vec![])), "");
    assert_eq!(decode_artist(&RemoteProperty::Entries(vec![])), "");
}

#[test]
fn decode_reproduces_all_three_fields() {
    let p = RemoteProperty::Entries(vec![
        entry("xesam:artist", two_group_artist()),
        entry("xesam:album", text("Kind of Blue")),
        entry("xesam:title", text("So What")),
    ]);
    let pm = decode_metadata(&p);
    assert_eq!(pm.artist, "A - B - C");
    assert_eq!(pm.album, "Kind of Blue");
    assert_eq!(pm.title, "So What");
}

#[test]
fn decode_does_not_depend_on_entry_order() {
    let p = RemoteProperty::Entries(vec![
        entry("xesam:title", text("So What")),
        entry("mpris:length", text("545000000")),
        entry("xesam:album", text("Kind of Blue")),
        entry("xesam:artist", two_group_artist()),
    ]);
    let pm = decode_metadata(&p);
    assert_eq!(pm.artist, "A - B - C");
    assert_eq!(pm.album, "Kind of Blue");
    assert_eq!(pm.title, "So What");
}

#[test]
fn decode_missing_artist_leaves_others() {
    let p = RemoteProperty::Entries(vec![
        entry("xesam:album", text("Kind of Blue")),
        entry("xesam:title", text("So What")),
    ]);
    let pm = decode_metadata(&p);
    assert_eq!(pm.artist, "");
    assert_eq!(pm.album, "Kind of Blue");
    assert_eq!(pm.title, "So What");
}

#[test]
fn decode_missing_album_leaves_others() {
    let p = RemoteProperty::Entries(vec![
        entry("xesam:artist", two_group_artist()),
        entry("xesam:title", text("So What")),
    ]);
    let pm = decode_metadata(&p);
    assert_eq!(pm.artist, "A - B - C");
    assert_eq!(pm.album, "");
    assert_eq!(pm.title, "So What");
}

#[test]
fn decode_missing_title_leaves_others() {
    let p = RemoteProperty::Entries(vec![
        entry("xesam:artist", two_group_artist()),
        entry("xesam:album", text("Kind of Blue")),
    ]);
    let pm = decode_metadata(&p);
    assert_eq!(pm.artist, "A - B - C");
    assert_eq!(pm.album, "Kind of Blue");
    assert_eq!(pm.title, "");
}

#[test]
fn decode_of_no_entries_is_empty() {
    let pm = decode_metadata(&RemoteProperty::Entries(vec![]));
    assert_eq!(pm.artist, "");
    assert_eq!(pm.album, "");
    assert_eq!(pm.title, "");
}

#[test]
fn decode_of_other_shapes_is_empty() {
    let pm = decode_metadata(&text("xesam:title"));
    assert_eq!((pm.artist.as_str(), pm.album.as_str(), pm.title.as_str()), ("", "", ""));
    let pm = decode_metadata(&RemoteProperty::Sequence(vec![text("xesam:title"), text("T")]));
    assert_eq!((pm.artist.as_str(), pm.album.as_str(), pm.title.as_str()), ("", "", ""));
}

#[test]
fn decode_mismatched_field_is_empty_and_others_stay() {
    let p = RemoteProperty::Entries(vec![
        entry("xesam:artist", text("not an array")),
        entry("xesam:album", group(&["not", "a", "text"])),
        entry("xesam:title", text("So What")),
    ]);
    let pm = decode_metadata(&p);
    assert_eq!(pm.artist, "");
    assert_eq!(pm.album, "");
    assert_eq!(pm.title, "So What");
}

#[test]
fn decode_ignores_unknown_keys() {
    let p = RemoteProperty::Entries(vec![
        entry("artist", two_group_artist()),
        entry("xesam:albumArtist", text("Someone")),
        entry("Xesam:Title", text("Wrong case")),
    ]);
    let pm = decode_metadata(&p);
    assert_eq!(pm.artist, "");
    assert_eq!(pm.album, "");
    assert_eq!(pm.title, "");
}

#[test]
fn decode_takes_the_last_entry_of_a_key() {
    let p = RemoteProperty::Entries(vec![
        entry("xesam:title", text("First")),
        entry("xesam:album", text("Kept")),
        entry("xesam:title", text("Second")),
        entry("xesam:album", group(&[])),
    ]);
    let pm = decode_metadata(&p);
    assert_eq!(pm.title, "Second");
    assert_eq!(pm.album, "");
}

#[test]
fn removing_an_unrelated_entry_changes_nothing() {
    let with = RemoteProperty::Entries(vec![
        entry("xesam:artist", two_group_artist()),
        entry("mpris:trackid", text("/track/1")),
        entry("xesam:album", text("Kind of Blue")),
        entry("xesam:title", text("So What")),
    ]);
    let without = RemoteProperty::Entries(vec![
        entry("xesam:artist", two_group_artist()),
        entry("xesam:album", text("Kind of Blue")),
        entry("xesam:title", text("So What")),
    ]);
    let a = decode_metadata(&with);
    let b = decode_metadata(&without);
    assert_eq!(a.artist, b.artist);
    assert_eq!(a.album, b.album);
    assert_eq!(a.title, b.title);
}

#[test]
fn join_of_two_lists_is_the_two_joins_with_a_separator() {
    let a = vec!["A".to_string(), "B".to_string()];
    let b = vec!["C".to_string()];
    let both = vec!["A".to_string(), "B".to_string(), "C".to_string()];
    let expected = format!("{} - {}", join_texts(&a, " - "), join_texts(&b, " - "));
    assert_eq!(join_texts(&both, " - "), expected);
    assert_eq!(expected, "A - B - C");
}

#[test]
fn artist_equals_join_of_all_names() {
    let value = RemoteProperty::Sequence(vec![
        candidate(vec![group(&["A", "B"]), group(&["C"])]),
        candidate(vec![group(&["D"])]),
        candidate(vec![group(&["E", "F"])]),
    ]);
    let all: Vec<String> = ["A", "B", "C", "D", "E", "F"].iter().map(|s| s.to_string()).collect();
    assert_eq!(decode_artist(&value), join_texts(&all, " - "));
    assert_eq!(decode_artist(&value), "A - B - C - D - E - F");
}

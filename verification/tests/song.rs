use mousai::{DateTime, ExternalLinkKey, ExternalLinks, Song, SongBuilder, SongError, SongId, SongRecord};

#[test]
fn id_ref() {
    let song = Song::builder(
        &SongId::for_test("UniqueSongId"),
        "Some song",
        "Someone",
        "SomeAlbum",
    )
    .build();
    assert_eq!(&song.id(), song.id_ref());
}

#[test]
fn properties() {
    let song = Song::builder(
        &SongId::for_test("UniqueSongId"),
        "Some song",
        "Someone",
        "SomeAlbum",
    )
    .release_date("00-00-0000")
    .album_art_link("https://album.png")
    .playback_link("https://test.mp3")
    .lyrics("Some song lyrics")
    .newly_heard(true)
    .build();

    assert_eq!(song.title(), "Some song");
    assert_eq!(song.artist(), "Someone");
    assert_eq!(song.album(), "SomeAlbum");
    assert_eq!(song.release_date().as_deref(), Some("00-00-0000"));
    assert_eq!(song.album_art_link().as_deref(), Some("https://album.png"));
    assert_eq!(song.playback_link().as_deref(), Some("https://test.mp3"));
    assert_eq!(song.lyrics().as_deref(), Some("Some song lyrics"));
    assert!(song.is_newly_heard());
}

#[test]
fn deserialize_without_song_id() {
    let song_1 = Song::from_record(SongRecord::default());
    let song_2 = Song::from_record(SongRecord::default());
    let song_3 = Song::from_record(SongRecord::default());

    // Make sure that the song id is unique
    // even it is not defined
    assert_ne!(song_1.id(), song_2.id());
    assert_ne!(song_2.id(), song_3.id());
}

fn at(unix_micros: i64, utc_offset_seconds: i32) -> DateTime {
    DateTime { unix_micros, utc_offset_seconds }
}

fn plain_song() -> Song {
    Song::builder(&SongId::for_test("a"), "A Title", "A Artist", "A Album").build_at(at(10, 0))
}

#[test]
fn builder_defaults() {
    let song = plain_song();
    assert_eq!(song.id(), SongId::for_test("a"));
    assert_eq!(song.release_date(), None);
    assert_eq!(song.album_art_link(), None);
    assert_eq!(song.playback_link(), None);
    assert_eq!(song.lyrics(), None);
    assert_eq!(song.external_links().len(), 0);
    assert!(!song.is_newly_heard());
    assert_eq!(song.last_heard(), Some(at(10, 0)));
}

#[test]
fn build_reads_the_clock() {
    let song = Song::builder(&SongId::for_test("b"), "B Title", "B Artist", "B Album").build();
    assert!(song.last_heard().is_some());
}

#[test]
fn last_value_set_is_kept() {
    let mut builder = SongBuilder::new(&SongId::for_test("c"), "C Title", "C Artist", "C Album");
    builder.lyrics("first").lyrics("second").newly_heard(true).newly_heard(false);
    let song = builder.build_at(at(0, 0));
    assert_eq!(song.lyrics().as_deref(), Some("second"));
    assert!(!song.is_newly_heard());
}

#[test]
fn external_links_are_appended() {
    let song = Song::builder(&SongId::for_test("d"), "D Title", "D Artist", "D Album")
        .external_link(ExternalLinkKey::SpotifyUrl, String::from("https://spotify"))
        .external_link(ExternalLinkKey::SpotifyUrl, String::from("https://spotify"))
        .external_link(ExternalLinkKey::YoutubeSearchTerm, String::from("D Title D Artist"))
        .build_at(at(0, 0));
    let links = song.external_links();
    assert_eq!(links.len(), 3);
    assert_eq!(links.get(0).key, ExternalLinkKey::SpotifyUrl);
    assert_eq!(links.get(1).value, "https://spotify");
    assert_eq!(links.get(2).key, ExternalLinkKey::YoutubeSearchTerm);
    assert_eq!(links.get(2).value, "D Title D Artist");
}

#[test]
fn search_and_copy_terms() {
    let song = plain_song();
    assert_eq!(song.search_term(), "A TitleA Artist");
    assert_eq!(song.copy_term(), "A Artist - A Title");
}

#[test]
fn set_last_heard_reports_changes() {
    let mut song = plain_song();
    assert!(!song.set_last_heard(Some(at(10, 0))));
    // The same instant seen from another offset is no change.
    assert!(!song.set_last_heard(Some(at(10, 3600))));
    assert_eq!(song.last_heard().unwrap().utc_offset_seconds, 0);
    assert!(song.set_last_heard(Some(at(20, 0))));
    assert_eq!(song.last_heard(), Some(at(20, 0)));
    assert!(!song.set_last_heard(Some(at(20, 0))));
    assert!(song.set_last_heard(None));
    assert_eq!(song.last_heard(), None);
    assert!(!song.set_last_heard(None));
}

#[test]
fn set_is_newly_heard_reports_changes() {
    let mut song = plain_song();
    assert!(!song.set_is_newly_heard(false));
    assert!(song.set_is_newly_heard(true));
    assert!(song.is_newly_heard());
    assert!(!song.set_is_newly_heard(true));
}

#[test]
fn album_art_link_to_fetch() {
    let song = plain_song();
    let error = song.album_art_link_to_fetch().unwrap_err();
    assert_eq!(error, SongError::NoAlbumArtLink);
    assert_eq!(error.message(), "Song doesn't have an album art link");

    let song = Song::builder(&SongId::for_test("e"), "E", "E", "E")
        .album_art_link("https://album.png")
        .build_at(at(0, 0));
    assert_eq!(song.album_art_link_to_fetch(), Ok(String::from("https://album.png")));
}

fn assert_song_eq(v1: &Song, v2: &Song) {
    assert_eq!(v1.id_ref(), v2.id_ref());
    assert_eq!(v1.title(), v2.title());
    assert_eq!(v1.artist(), v2.artist());
    assert_eq!(v1.album(), v2.album());
    assert_eq!(v1.release_date(), v2.release_date());
    let (l1, l2) = (v1.external_links(), v2.external_links());
    assert_eq!(l1.len(), l2.len());
    for i in 0..l1.len() {
        assert_eq!(l1.get(i).key, l2.get(i).key);
        assert_eq!(l1.get(i).value, l2.get(i).value);
    }
    assert_eq!(v1.album_art_link(), v2.album_art_link());
    assert_eq!(v1.playback_link(), v2.playback_link());
    assert_eq!(v1.lyrics(), v2.lyrics());
    assert_eq!(v1.last_heard(), v2.last_heard());
    assert_eq!(v1.is_newly_heard(), v2.is_newly_heard());
}

#[test]
fn record_round_trip() {
    let val = Song::builder(&SongId::for_test("c"), "C Title", "C Artist", "C Album")
        .release_date("some value")
        .album_art_link("some value")
        .playback_link("some value")
        .lyrics("some value")
        .newly_heard(true)
        .external_link(ExternalLinkKey::AudDUrl, String::from("some value"))
        .build_at(at(1_652_494_537_798_479, 8 * 3600));
    let de_val = Song::from_record(val.to_record());
    assert_song_eq(&val, &de_val);
}

#[test]
fn record_with_id_keeps_it() {
    let mut record = SongRecord::default();
    record.id = Some(SongId::for_test("UniqueSongId"));
    record.title = String::from("Some song");
    record.lyrics = Some(String::from("Some song lyrics"));
    let song = Song::from_record(record);
    assert_eq!(song.id(), SongId::for_test("UniqueSongId"));
    assert_eq!(song.title(), "Some song");
    assert_eq!(song.lyrics().as_deref(), Some("Some song lyrics"));
    assert_eq!(song.last_heard(), None);
    assert!(!song.is_newly_heard());
}

#[test]
fn record_without_id_gets_a_generated_one() {
    let song = Song::from_record(SongRecord::default());
    assert!(song.id().as_str().starts_with("Mousai-"));
    assert_eq!(song.title(), "");
}

#[test]
fn from_raw_parts_keeps_every_part() {
    let mut links = ExternalLinks::new();
    links.insert(ExternalLinkKey::AppleMusicUrl, String::from("https://music"));
    let song = Song::from_raw_parts(
        SongId::for_test("raw"),
        String::from("T"),
        String::from("A"),
        String::from("B"),
        Some(String::from("2020")),
        links,
        None,
        Some(String::from("https://test.mp3")),
        None,
        Some(at(7, -3600)),
        true,
    );
    assert_eq!(song.id(), SongId::for_test("raw"));
    assert_eq!(song.release_date().as_deref(), Some("2020"));
    assert_eq!(song.external_links().get(0).value, "https://music");
    assert_eq!(song.playback_link().as_deref(), Some("https://test.mp3"));
    assert_eq!(song.last_heard(), Some(at(7, 0)));
    assert!(song.is_newly_heard());
}

#[test]
fn date_times_are_equal_at_one_instant() {
    assert_eq!(at(5, 0), at(5, 7200));
    assert_ne!(at(5, 0), at(6, 0));
    assert!(DateTime::same_optional(&None, &None));
    assert!(!DateTime::same_optional(&Some(at(1, 0)), &None));
    assert!(DateTime::same_optional(&Some(at(1, 0)), &Some(at(1, 60))));
}

//! A recognized song, the builder that makes one, and the record it is stored as.

use vstd::prelude::*;

use crate::date_time::{same_optional_instant, DateTime};
use crate::external_links::{ExternalLinkKey, ExternalLinks};
use crate::song_id::{generated_namespace, id_text, SongId};

verus! {

/// The text of an optional string.
pub open spec fn opt_text(value: Option<String>) -> Option<Seq<char>> {
    match value {
        Some(text) => Some(text@),
        None => None,
    }
}

/// A copy of an optional string.
fn clone_opt(value: &Option<String>) -> (copy: Option<String>)
    ensures
        opt_text(copy) == opt_text(*value),
{
    match value {
        Some(text) => Some(text.clone()),
        None => None,
    }
}

/// What a song holds, as plain values.
pub struct SongView {
    pub id: Seq<char>,
    pub title: Seq<char>,
    pub artist: Seq<char>,
    pub album: Seq<char>,
    pub release_date: Option<Seq<char>>,
    pub external_links: Seq<(ExternalLinkKey, Seq<char>)>,
    pub album_art_link: Option<Seq<char>>,
    pub playback_link: Option<Seq<char>>,
    pub lyrics: Option<Seq<char>>,
    pub last_heard: Option<DateTime>,
    pub is_newly_heard: bool,
}

/// A recognized song. Everything but the time it was last heard and whether it was
/// newly heard is fixed when it is made.
#[derive(Debug)]
pub struct Song {
    id: SongId,
    title: String,
    artist: String,
    album: String,
    release_date: Option<String>,
    external_links: ExternalLinks,
    album_art_link: Option<String>,
    playback_link: Option<String>,
    lyrics: Option<String>,
    last_heard: Option<DateTime>,
    is_newly_heard: bool,
}

impl View for Song {
    type V = SongView;

    closed spec fn view(&self) -> SongView {
        SongView {
            id: self.id@,
            title: self.title@,
            artist: self.artist@,
            album: self.album@,
            release_date: opt_text(self.release_date),
            external_links: self.external_links@,
            album_art_link: opt_text(self.album_art_link),
            playback_link: opt_text(self.playback_link),
            lyrics: opt_text(self.lyrics),
            last_heard: self.last_heard,
            is_newly_heard: self.is_newly_heard,
        }
    }
}


/// Whether `a` and `b` agree on every part that is fixed when a song is made: all but
/// the last-heard time and the newly-heard mark.
pub open spec fn same_fixed_parts(a: SongView, b: SongView) -> bool {
    &&& a.id == b.id
    &&& a.title == b.title
    &&& a.artist == b.artist
    &&& a.album == b.album
    &&& a.release_date == b.release_date
    &&& a.external_links == b.external_links
    &&& a.album_art_link == b.album_art_link
    &&& a.playback_link == b.playback_link
    &&& a.lyrics == b.lyrics
}

/// `song` with its last-heard time replaced by `last_heard`.
pub open spec fn with_last_heard(song: SongView, last_heard: Option<DateTime>) -> SongView {
    SongView { last_heard, ..song }
}

/// `song` with its newly-heard mark replaced by `is_newly_heard`.
pub open spec fn with_newly_heard(song: SongView, is_newly_heard: bool) -> SongView {
    SongView { is_newly_heard, ..song }
}

/// What setting the last-heard time does: the song after it, and whether it changed
/// (listeners are told of the change exactly then). A time at the instant already held
/// changes nothing.
pub open spec fn set_last_heard_outcome(song: SongView, last_heard: Option<DateTime>) -> (SongView, bool) {
    if same_optional_instant(song.last_heard, last_heard) {
        (song, false)
    } else {
        (with_last_heard(song, last_heard), true)
    }
}

/// What setting the newly-heard mark does: the song after it, and whether it changed.
pub open spec fn set_newly_heard_outcome(song: SongView, is_newly_heard: bool) -> (SongView, bool) {
    if song.is_newly_heard == is_newly_heard {
        (song, false)
    } else {
        (with_newly_heard(song, is_newly_heard), true)
    }
}

/// The string that a search is matched against: the title, then the artist.
pub open spec fn search_term_text(song: SongView) -> Seq<char> {
    song.title + song.artist
}

/// The string copied to the clipboard: the artist, ` - `, then the title.
pub open spec fn copy_term_text(song: SongView) -> Seq<char> {
    song.artist + seq![' ', '-', ' '] + song.title
}

/// Why a song cannot give what was asked of it.
#[derive(Debug, Clone, Copy, PartialEq, Eq, Structural)]
pub enum SongError {
    /// The song has no link to download its album art from.
    NoAlbumArtLink,
}

impl SongError {
    /// The message that explains the error.
    pub fn message(&self) -> (text: String)
        ensures
            text@ == "Song doesn't have an album art link"@,
    {
        match self {
            SongError::NoAlbumArtLink => String::from_str("Song doesn't have an album art link"),
        }
    }
}

impl Song {
    /// Makes a song from all its parts.
    #[allow(clippy::too_many_arguments)]
    pub fn from_raw_parts(
        id: SongId,
        title: String,
        artist: String,
        album: String,
        release_date: Option<String>,
        external_links: ExternalLinks,
        album_art_link: Option<String>,
        playback_link: Option<String>,
        lyrics: Option<String>,
        last_heard: Option<DateTime>,
        is_newly_heard: bool,
    ) -> (song: Song)
        ensures
            song@ == (SongView {
                id: id@,
                title: title@,
                artist: artist@,
                album: album@,
                release_date: opt_text(release_date),
                external_links: external_links@,
                album_art_link: opt_text(album_art_link),
                playback_link: opt_text(playback_link),
                lyrics: opt_text(lyrics),
                last_heard,
                is_newly_heard,
            }),
    {
        Song {
            id,
            title,
            artist,
            album,
            release_date,
            external_links,
            album_art_link,
            playback_link,
            lyrics,
            last_heard,
            is_newly_heard,
        }
    }

    /// String to match to when searching for the song.
    pub fn search_term(&self) -> (term: String)
        ensures
            term@ == search_term_text(self@),
            term@ == self@.title + self@.artist,
    {
        let mut term = self.title.clone();
        term.append(self.artist.as_str());
        term
    }

    /// String copied to the clipboard when copying the song.
    pub fn copy_term(&self) -> (term: String)
        ensures
            term@ == copy_term_text(self@),
            term@ == self@.artist + seq![' ', '-', ' '] + self@.title,
    {
        let mut term = self.artist.clone();
        let separator = " - ";
        proof {
            reveal_strlit(" - ");
        }
        term.append(separator);
        term.append(self.title.as_str());
        term
    }

    /// A reference to the unique id, where `id` would copy it.
    pub fn id_ref(&self) -> (id: &SongId)
        ensures
            id@ == self@.id,
    {
        &self.id
    }

    /// Sets the time the song was last heard. A time at the instant already held is not
    /// stored; the result tells whether the value changed, so that listeners are told
    /// exactly then.
    pub fn set_last_heard(&mut self, last_heard: Option<DateTime>) -> (changed: bool)
        ensures
            (final(self)@, changed) == set_last_heard_outcome(old(self)@, last_heard),
            changed == match (old(self)@.last_heard, last_heard) {
                (None, None) => false,
                (Some(held), Some(given)) => held.unix_micros != given.unix_micros,
                _ => true,
            },
            match last_heard {
                Some(given) => final(self)@.last_heard matches Some(stored)
                    && stored.unix_micros == given.unix_micros,
                None => final(self)@.last_heard is None,
            },
            changed ==> final(self)@.last_heard == last_heard,
            !changed ==> final(self)@ == old(self)@,
            same_fixed_parts(final(self)@, old(self)@),
            final(self)@.is_newly_heard == old(self)@.is_newly_heard,
    {
        if DateTime::same_optional(&last_heard, &self.last_heard) {
            return false;
        }
        self.last_heard = last_heard;
        true
    }

    /// Sets whether the song was heard for the first time; the result tells whether the
    /// value changed, so that listeners are told exactly then.
    pub fn set_is_newly_heard(&mut self, is_newly_heard: bool) -> (changed: bool)
        ensures
            (final(self)@, changed) == set_newly_heard_outcome(old(self)@, is_newly_heard),
            changed == (old(self)@.is_newly_heard != is_newly_heard),
            final(self)@.is_newly_heard == is_newly_heard,
            same_fixed_parts(final(self)@, old(self)@),
            final(self)@.last_heard == old(self)@.last_heard,
    {
        if is_newly_heard == self.is_newly_heard {
            return false;
        }
        self.is_newly_heard = is_newly_heard;
        true
    }

    /// The link that the song's album art is to be fetched from, or the error that the
    /// song has none.
    pub fn album_art_link_to_fetch(&self) -> (link: Result<String, SongError>)
        ensures
            match link {
                Ok(text) => self@.album_art_link == Some(text@),
                Err(error) => self@.album_art_link is None && error == SongError::NoAlbumArtLink,
            },
    {
        match &self.album_art_link {
            Some(link) => Ok(link.clone()),
            None => Err(SongError::NoAlbumArtLink),
        }
    }
}

/// What a song builder holds, as plain values.
pub struct SongBuilderView {
    pub id: Seq<char>,
    pub title: Seq<char>,
    pub artist: Seq<char>,
    pub album: Seq<char>,
    pub release_date: Option<Seq<char>>,
    pub external_links: Seq<(ExternalLinkKey, Seq<char>)>,
    pub album_art_link: Option<Seq<char>>,
    pub playback_link: Option<Seq<char>>,
    pub lyrics: Option<Seq<char>>,
    pub is_newly_heard: bool,
}

/// The song that `builder` makes when built at `now`: what was set, with `now` as the
/// time it was last heard.
pub open spec fn built_song(builder: SongBuilderView, now: DateTime) -> SongView {
    SongView {
        id: builder.id,
        title: builder.title,
        artist: builder.artist,
        album: builder.album,
        release_date: builder.release_date,
        external_links: builder.external_links,
        album_art_link: builder.album_art_link,
        playback_link: builder.playback_link,
        lyrics: builder.lyrics,
        last_heard: Some(now),
        is_newly_heard: builder.is_newly_heard,
    }
}

/// Collects the parts of a song before it is made. Each setter may be called again; the
/// last value set is the one kept.
#[must_use]
#[derive(Debug)]
pub struct SongBuilder {
    id: SongId,
    title: String,
    artist: String,
    album: String,
    release_date: Option<String>,
    external_links: ExternalLinks,
    album_art_link: Option<String>,
    playback_link: Option<String>,
    lyrics: Option<String>,
    is_newly_heard: bool,
}

impl View for SongBuilder {
    type V = SongBuilderView;

    closed spec fn view(&self) -> SongBuilderView {
        SongBuilderView {
            id: self.id@,
            title: self.title@,
            artist: self.artist@,
            album: self.album@,
            release_date: opt_text(self.release_date),
            external_links: self.external_links@,
            album_art_link: opt_text(self.album_art_link),
            playback_link: opt_text(self.playback_link),
            lyrics: opt_text(self.lyrics),
            is_newly_heard: self.is_newly_heard,
        }
    }
}

impl SongBuilder {
    /// A builder of the song with the given id, title, artist and album, and nothing else
    /// set: no release date, links or lyrics, and not newly heard.
    pub fn new(id: &SongId, title: &str, artist: &str, album: &str) -> (builder: SongBuilder)
        ensures
            builder@ == (SongBuilderView {
                id: id@,
                title: title@,
                artist: artist@,
                album: album@,
                release_date: None,
                external_links: Seq::empty(),
                album_art_link: None,
                playback_link: None,
                lyrics: None,
                is_newly_heard: false,
            }),
    {
        SongBuilder {
            id: id.clone(),
            title: String::from_str(title),
            artist: String::from_str(artist),
            album: String::from_str(album),
            release_date: None,
            external_links: ExternalLinks::new(),
            album_art_link: None,
            playback_link: None,
            lyrics: None,
            is_newly_heard: false,
        }
    }

    /// Sets whether the song is heard for the first time.
    pub fn newly_heard(&mut self, value: bool) -> (builder: &mut Self)
        ensures
            builder@ == (SongBuilderView { is_newly_heard: value, ..old(self)@ }),
            *final(self) == *final(builder),
    {
        self.is_newly_heard = value;
        self
    }

    /// Sets the release date.
    pub fn release_date(&mut self, value: &str) -> (builder: &mut Self)
        ensures
            builder@ == (SongBuilderView { release_date: Some(value@), ..old(self)@ }),
            *final(self) == *final(builder),
    {
        self.release_date = Some(String::from_str(value));
        self
    }

    /// Sets the link where the album art can be downloaded.
    pub fn album_art_link(&mut self, value: &str) -> (builder: &mut Self)
        ensures
            builder@ == (SongBuilderView { album_art_link: Some(value@), ..old(self)@ }),
            *final(self) == *final(builder),
    {
        self.album_art_link = Some(String::from_str(value));
        self
    }

    /// Sets the link to a sample of the song.
    pub fn playback_link(&mut self, value: &str) -> (builder: &mut Self)
        ensures
            builder@ == (SongBuilderView { playback_link: Some(value@), ..old(self)@ }),
            *final(self) == *final(builder),
    {
        self.playback_link = Some(String::from_str(value));
        self
    }

    /// Sets the lyrics.
    pub fn lyrics(&mut self, value: &str) -> (builder: &mut Self)
        ensures
            builder@ == (SongBuilderView { lyrics: Some(value@), ..old(self)@ }),
            *final(self) == *final(builder),
    {
        self.lyrics = Some(String::from_str(value));
        self
    }

    /// Appends an external link. This is not idempotent: a key may come more than once.
    pub fn external_link(&mut self, key: ExternalLinkKey, value: String) -> (builder: &mut Self)
        ensures
            builder@ == (SongBuilderView {
                external_links: old(self)@.external_links.push((key, value@)),
                ..old(self)@
            }),
            *final(self) == *final(builder),
    {
        self.external_links.insert(key, value);
        self
    }

    /// Makes the song with what was set, heard last at `now`.
    pub fn build_at(&self, now: DateTime) -> (song: Song)
        ensures
            song@ == built_song(self@, now),
    {
        Song {
            id: self.id.clone(),
            title: self.title.clone(),
            artist: self.artist.clone(),
            album: self.album.clone(),
            release_date: clone_opt(&self.release_date),
            external_links: self.external_links.clone(),
            album_art_link: clone_opt(&self.album_art_link),
            playback_link: clone_opt(&self.playback_link),
            lyrics: clone_opt(&self.lyrics),
            last_heard: Some(now),
            is_newly_heard: self.is_newly_heard,
        }
    }

    /// Makes the song with what was set; the time it was last heard is the time it is
    /// made, read from the local clock.
    pub fn build(&mut self) -> (song: Song)
        ensures
            *final(self) == *old(self),
            song@.last_heard is Some,
            song@ == built_song(old(self)@, song@.last_heard->0),
    {
        let now = crate::date_time::now_local();
        self.build_at(now)
    }
}

impl Song {
    /// A builder of the song with the given id, title, artist and album. The id must be
    /// unique to each song, so that lists of songs tell them apart. The song that it
    /// builds was last heard when it is built.
    pub fn builder(id: &SongId, title: &str, artist: &str, album: &str) -> (builder: SongBuilder)
        ensures
            builder@ == (SongBuilderView {
                id: id@,
                title: title@,
                artist: artist@,
                album: album@,
                release_date: None,
                external_links: Seq::empty(),
                album_art_link: None,
                playback_link: None,
                lyrics: None,
                is_newly_heard: false,
            }),
    {
        SongBuilder::new(id, title, artist, album)
    }
}

impl Song {
    /// A copy of the unique id.
    pub fn id(&self) -> (id: SongId)
        ensures
            id@ == self@.id,
    {
        self.id.clone()
    }

    /// The title.
    pub fn title(&self) -> (title: String)
        ensures
            title@ == self@.title,
    {
        self.title.clone()
    }

    /// The artist.
    pub fn artist(&self) -> (artist: String)
        ensures
            artist@ == self@.artist,
    {
        self.artist.clone()
    }

    /// The album the song is from.
    pub fn album(&self) -> (album: String)
        ensures
            album@ == self@.album,
    {
        self.album.clone()
    }

    /// The release date, as free text.
    pub fn release_date(&self) -> (date: Option<String>)
        ensures
            opt_text(date) == self@.release_date,
    {
        clone_opt(&self.release_date)
    }

    /// The links relevant to the song.
    pub fn external_links(&self) -> (links: ExternalLinks)
        ensures
            links@ == self@.external_links,
    {
        self.external_links.clone()
    }

    /// The link where the album art can be downloaded.
    pub fn album_art_link(&self) -> (link: Option<String>)
        ensures
            opt_text(link) == self@.album_art_link,
    {
        clone_opt(&self.album_art_link)
    }

    /// The link to a sample of the song.
    pub fn playback_link(&self) -> (link: Option<String>)
        ensures
            opt_text(link) == self@.playback_link,
    {
        clone_opt(&self.playback_link)
    }

    /// The lyrics.
    pub fn lyrics(&self) -> (lyrics: Option<String>)
        ensures
            opt_text(lyrics) == self@.lyrics,
    {
        clone_opt(&self.lyrics)
    }

    /// The time the song was last heard.
    pub fn last_heard(&self) -> (last_heard: Option<DateTime>)
        ensures
            last_heard == self@.last_heard,
    {
        self.last_heard
    }

    /// Whether the song was heard for the first time.
    pub fn is_newly_heard(&self) -> (is_newly_heard: bool)
        ensures
            is_newly_heard == self@.is_newly_heard,
    {
        self.is_newly_heard
    }
}

/// A song as it is stored: every part may be missing from what is read back, the id
/// too. Missing text reads as empty, a missing mark as false.
#[derive(Debug)]
pub struct SongRecord {
    pub id: Option<SongId>,
    pub title: String,
    pub artist: String,
    pub album: String,
    pub release_date: Option<String>,
    pub external_links: ExternalLinks,
    pub album_art_link: Option<String>,
    pub playback_link: Option<String>,
    pub lyrics: Option<String>,
    pub last_heard: Option<DateTime>,
    pub is_newly_heard: bool,
}

/// What a stored song holds, as plain values.
pub struct SongRecordView {
    pub id: Option<Seq<char>>,
    pub title: Seq<char>,
    pub artist: Seq<char>,
    pub album: Seq<char>,
    pub release_date: Option<Seq<char>>,
    pub external_links: Seq<(ExternalLinkKey, Seq<char>)>,
    pub album_art_link: Option<Seq<char>>,
    pub playback_link: Option<Seq<char>>,
    pub lyrics: Option<Seq<char>>,
    pub last_heard: Option<DateTime>,
    pub is_newly_heard: bool,
}

impl View for SongRecord {
    type V = SongRecordView;

    open spec fn view(&self) -> SongRecordView {
        SongRecordView {
            id: match self.id {
                Some(id) => Some(id@),
                None => None,
            },
            title: self.title@,
            artist: self.artist@,
            album: self.album@,
            release_date: opt_text(self.release_date),
            external_links: self.external_links@,
            album_art_link: opt_text(self.album_art_link),
            playback_link: opt_text(self.playback_link),
            lyrics: opt_text(self.lyrics),
            last_heard: self.last_heard,
            is_newly_heard: self.is_newly_heard,
        }
    }
}

impl Default for SongRecord {
    fn default() -> (record: Self)
        ensures
            record@ == (SongRecordView {
                id: None,
                title: Seq::empty(),
                artist: Seq::empty(),
                album: Seq::empty(),
                release_date: None,
                external_links: Seq::empty(),
                album_art_link: None,
                playback_link: None,
                lyrics: None,
                last_heard: None,
                is_newly_heard: false,
            }),
    {
        SongRecord {
            id: None,
            title: String::new(),
            artist: String::new(),
            album: String::new(),
            release_date: None,
            external_links: ExternalLinks::new(),
            album_art_link: None,
            playback_link: None,
            lyrics: None,
            last_heard: None,
            is_newly_heard: false,
        }
    }
}

/// The record that `song` is stored as.
pub open spec fn record_of(song: SongView) -> SongRecordView {
    SongRecordView {
        id: Some(song.id),
        title: song.title,
        artist: song.artist,
        album: song.album,
        release_date: song.release_date,
        external_links: song.external_links,
        album_art_link: song.album_art_link,
        playback_link: song.playback_link,
        lyrics: song.lyrics,
        last_heard: song.last_heard,
        is_newly_heard: song.is_newly_heard,
    }
}

/// The song read back from `record`, with `id` as its id.
pub open spec fn song_of(record: SongRecordView, id: Seq<char>) -> SongView {
    SongView {
        id,
        title: record.title,
        artist: record.artist,
        album: record.album,
        release_date: record.release_date,
        external_links: record.external_links,
        album_art_link: record.album_art_link,
        playback_link: record.playback_link,
        lyrics: record.lyrics,
        last_heard: record.last_heard,
        is_newly_heard: record.is_newly_heard,
    }
}

impl Song {
    /// The record that the song is stored as; it holds the id.
    pub fn to_record(&self) -> (record: SongRecord)
        ensures
            record@ == record_of(self@),
            record@.id == Some(self@.id),
            record@.title == self@.title,
            record@.artist == self@.artist,
            record@.album == self@.album,
            record@.release_date == self@.release_date,
            record@.external_links == self@.external_links,
            record@.album_art_link == self@.album_art_link,
            record@.playback_link == self@.playback_link,
            record@.lyrics == self@.lyrics,
            record@.last_heard == self@.last_heard,
            record@.is_newly_heard == self@.is_newly_heard,
    {
        SongRecord {
            id: Some(self.id.clone()),
            title: self.title.clone(),
            artist: self.artist.clone(),
            album: self.album.clone(),
            release_date: clone_opt(&self.release_date),
            external_links: self.external_links.clone(),
            album_art_link: clone_opt(&self.album_art_link),
            playback_link: clone_opt(&self.playback_link),
            lyrics: clone_opt(&self.lyrics),
            last_heard: self.last_heard,
            is_newly_heard: self.is_newly_heard,
        }
    }

    /// The song read back from a stored record. Where the record has no id, a unique
    /// one is generated, so that songs read back without ids stay apart.
    pub fn from_record(record: SongRecord) -> (song: Song)
        ensures
            match record@.id {
                Some(id) => song@ == song_of(record@, id),
                None => exists|unique: Seq<char>|
                    unique.len() == 36 && song@ == song_of(
                        record@,
                        #[trigger] id_text(generated_namespace(), unique),
                    ),
            },
            record@.id matches Some(id) ==> song@.id == id,
            record@.id is None ==> exists|unique: Seq<char>|
                unique.len() == 36 && song@.id == #[trigger] id_text(generated_namespace(), unique),
            song@.title == record@.title,
            song@.artist == record@.artist,
            song@.album == record@.album,
            song@.release_date == record@.release_date,
            song@.external_links == record@.external_links,
            song@.album_art_link == record@.album_art_link,
            song@.playback_link == record@.playback_link,
            song@.lyrics == record@.lyrics,
            song@.last_heard == record@.last_heard,
            song@.is_newly_heard == record@.is_newly_heard,
    {
        let ghost stored = record@;
        let id = match record.id {
            Some(id) => id,
            None => SongId::generate_unique(),
        };
        let song = Song::from_raw_parts(
            id,
            record.title,
            record.artist,
            record.album,
            record.release_date,
            record.external_links,
            record.album_art_link,
            record.playback_link,
            record.lyrics,
            record.last_heard,
            record.is_newly_heard,
        );
        assert(song@ == song_of(stored, song@.id));
        song
    }
}

/// A song read back from the record it is stored as is the song itself.
pub proof fn lemma_record_round_trip(song: SongView)
    ensures
        record_of(song).id == Some(song.id),
        song_of(record_of(song), song.id) == song,
{
}

/// The stored record holds each part of the song under the same name, and the song's id.
pub proof fn lemma_record_holds_song_fields(song: SongView)
    ensures
        record_of(song).id == Some(song.id),
        record_of(song).title == song.title,
        record_of(song).artist == song.artist,
        record_of(song).album == song.album,
        record_of(song).release_date == song.release_date,
        record_of(song).external_links == song.external_links,
        record_of(song).album_art_link == song.album_art_link,
        record_of(song).playback_link == song.playback_link,
        record_of(song).lyrics == song.lyrics,
        record_of(song).last_heard == song.last_heard,
        record_of(song).is_newly_heard == song.is_newly_heard,
{
}

/// A song read back from a record holds each part of the record under the same name,
/// whatever id it is given, and that id.
pub proof fn lemma_song_holds_record_fields(record: SongRecordView, id: Seq<char>)
    ensures
        song_of(record, id).id == id,
        song_of(record, id).title == record.title,
        song_of(record, id).artist == record.artist,
        song_of(record, id).album == record.album,
        song_of(record, id).release_date == record.release_date,
        song_of(record, id).external_links == record.external_links,
        song_of(record, id).album_art_link == record.album_art_link,
        song_of(record, id).playback_link == record.playback_link,
        song_of(record, id).lyrics == record.lyrics,
        song_of(record, id).last_heard == record.last_heard,
        song_of(record, id).is_newly_heard == record.is_newly_heard,
{
}

/// The search term is the whole title followed by the whole artist, of any lengths.
pub proof fn lemma_search_term_parts(song: SongView)
    ensures
        search_term_text(song).len() == song.title.len() + song.artist.len(),
        search_term_text(song).subrange(0, song.title.len() as int) == song.title,
        search_term_text(song).subrange(song.title.len() as int, search_term_text(song).len() as int)
            == song.artist,
{
    let t = search_term_text(song);
    assert(t.subrange(0, song.title.len() as int) =~= song.title);
    assert(t.subrange(song.title.len() as int, t.len() as int) =~= song.artist);
}

/// The copied term is the whole artist, a space, a hyphen and a space, then the whole
/// title.
pub proof fn lemma_copy_term_parts(song: SongView)
    ensures
        copy_term_text(song).len() == song.artist.len() + 3 + song.title.len(),
        copy_term_text(song).subrange(0, song.artist.len() as int) == song.artist,
        copy_term_text(song)[song.artist.len() as int] == ' ',
        copy_term_text(song)[song.artist.len() as int + 1] == '-',
        copy_term_text(song)[song.artist.len() as int + 2] == ' ',
        copy_term_text(song).subrange(song.artist.len() as int + 3, copy_term_text(song).len() as int)
            == song.title,
{
    let t = copy_term_text(song);
    assert(t.subrange(0, song.artist.len() as int) =~= song.artist);
    assert(t.subrange(song.artist.len() as int + 3, t.len() as int) =~= song.title);
}

/// An absent time and a present time are never at the same instant.
pub proof fn lemma_absent_and_present_times_differ(time: DateTime)
    ensures
        !same_optional_instant(None, Some(time)),
        !same_optional_instant(Some(time), None),
{
}

/// Setting the last-heard time to a present time leaves the song holding a present time
/// at that instant; on a song that had none, the time is stored as given and the change
/// is reported. The other parts of the song are kept.
pub proof fn lemma_set_last_heard_stores(song: SongView, time: DateTime)
    ensures
        set_last_heard_outcome(song, Some(time)).0.last_heard matches Some(stored)
            && stored.unix_micros == time.unix_micros,
        song.last_heard is None ==> set_last_heard_outcome(song, Some(time)).1
            && set_last_heard_outcome(song, Some(time)).0.last_heard == Some(time),
        same_fixed_parts(set_last_heard_outcome(song, Some(time)).0, song),
        set_last_heard_outcome(song, Some(time)).0.is_newly_heard == song.is_newly_heard,
{
}

/// Setting the last-heard time reports a change exactly when the instant held and the
/// instant given differ, an absent time differing from every present one; clearing it
/// leaves no time.
pub proof fn lemma_set_last_heard_reports(song: SongView, last_heard: Option<DateTime>)
    ensures
        set_last_heard_outcome(song, last_heard).1 == match (song.last_heard, last_heard) {
            (None, None) => false,
            (Some(held), Some(given)) => held.unix_micros != given.unix_micros,
            _ => true,
        },
        last_heard is None ==> set_last_heard_outcome(song, last_heard).0.last_heard is None,
{
}

/// Setting the newly-heard mark stores the value given and reports a change exactly when
/// the mark held differs from it, in either direction. The other parts are kept.
pub proof fn lemma_set_newly_heard_reports(song: SongView, is_newly_heard: bool)
    ensures
        set_newly_heard_outcome(song, is_newly_heard).1 == (song.is_newly_heard != is_newly_heard),
        set_newly_heard_outcome(song, is_newly_heard).0.is_newly_heard == is_newly_heard,
        same_fixed_parts(set_newly_heard_outcome(song, is_newly_heard).0, song),
        set_newly_heard_outcome(song, is_newly_heard).0.last_heard == song.last_heard,
{
}

/// Setting the last-heard time twice to one value changes the song only the first
/// time, and after either call the song holds a time at the instant that was set.
pub proof fn lemma_set_last_heard_idempotent(song: SongView, last_heard: Option<DateTime>)
    ensures
        same_optional_instant(set_last_heard_outcome(song, last_heard).0.last_heard, last_heard),
        set_last_heard_outcome(set_last_heard_outcome(song, last_heard).0, last_heard)
            == (set_last_heard_outcome(song, last_heard).0, false),
{
}

/// Setting the newly-heard mark twice to one value changes the song only the first
/// time, and after either call the song holds the value that was set.
pub proof fn lemma_set_newly_heard_idempotent(song: SongView, is_newly_heard: bool)
    ensures
        set_newly_heard_outcome(song, is_newly_heard).0.is_newly_heard == is_newly_heard,
        set_newly_heard_outcome(set_newly_heard_outcome(song, is_newly_heard).0, is_newly_heard)
            == (set_newly_heard_outcome(song, is_newly_heard).0, false),
{
}

} // verus!

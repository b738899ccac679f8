//! Immutable track descriptors: what a playable item is, independent of any
//! catalog or streaming backend.

use vstd::prelude::*;
use vstd::string::StringExecFns;

use crate::text::spec_clock;
use crate::text::format_duration_ms;

verus! {

/// Which streaming catalog a track was resolved from.
#[derive(Debug, Clone, Copy, PartialEq, Eq, Structural)]
pub enum TrackSource {
    YouTube,
    Spotify,
}

/// An immutable playable item: compared and displayed, never mutated.
#[derive(Debug, PartialEq)]
pub struct Track {
    pub title: String,
    pub artist: String,
    pub url: String,
    pub source: TrackSource,
    pub duration: Option<String>,
    pub thumbnail_url: Option<String>,
}

/// The mathematical content of a track: each text field as its character
/// sequence.
pub struct TrackModel {
    pub title: Seq<char>,
    pub artist: Seq<char>,
    pub url: Seq<char>,
    pub source: TrackSource,
    pub duration: Option<Seq<char>>,
    pub thumbnail_url: Option<Seq<char>>,
}

impl View for Track {
    type V = TrackModel;

    open spec fn view(&self) -> TrackModel {
        TrackModel {
            title: self.title@,
            artist: self.artist@,
            url: self.url@,
            source: self.source,
            duration: match self.duration {
                Some(d) => Some(d@),
                None => None,
            },
            thumbnail_url: match self.thumbnail_url {
                Some(t) => Some(t@),
                None => None,
            },
        }
    }
}

impl Clone for Track {
    /// A clone carries the same content in every field.
    fn clone(&self) -> (r: Track)
        ensures
            r@ == self@,
    {
        Track {
            title: self.title.clone(),
            artist: self.artist.clone(),
            url: self.url.clone(),
            source: self.source,
            duration: match &self.duration {
                Some(d) => Some(d.clone()),
                None => None,
            },
            thumbnail_url: match &self.thumbnail_url {
                Some(t) => Some(t.clone()),
                None => None,
            },
        }
    }
}

impl TrackSource {
    /// The short bracketed tag shown in front of a track line.
    pub fn label(&self) -> (r: &'static str)
        ensures
            *self is YouTube ==> r@ == "[YT]"@,
            *self is Spotify ==> r@ == "[SP]"@,
    {
        match self {
            TrackSource::YouTube => "[YT]",
            TrackSource::Spotify => "[SP]",
        }
    }
}

impl Track {
    /// One line describing the track: source tag, title, artist.
    pub open spec fn spec_describe(self) -> Seq<char> {
        (match self.source {
            TrackSource::YouTube => "[YT]"@,
            TrackSource::Spotify => "[SP]"@,
        }) + " "@ + self.title@ + " - "@ + self.artist@
    }

    /// Renders the track as `<tag> <title> - <artist>`.
    pub fn describe(&self) -> (r: String)
        ensures
            r@ == self.spec_describe(),
    {
        let mut out = String::from_str(self.source.label());
        out.append(" ");
        out.append(self.title.as_str());
        out.append(" - ");
        out.concat(self.artist.as_str())
    }

    /// A track resolved from the video catalog: the URL is the canonical
    /// watch address for the video identifier.
    pub fn from_youtube(
        title: String,
        artist: String,
        video_id: &str,
        duration: Option<String>,
        thumbnail_url: Option<String>,
    ) -> (t: Track)
        ensures
            t.title == title,
            t.artist == artist,
            t.url@ == youtube_watch_url_spec(video_id@),
            t.source is YouTube,
            t.duration == duration,
            t.thumbnail_url == thumbnail_url,
    {
        Track {
            title,
            artist,
            url: youtube_watch_url(video_id),
            source: TrackSource::YouTube,
            duration,
            thumbnail_url,
        }
    }

    /// A track resolved from the Spotify catalog: the URL points at the
    /// track identifier when one is known and is empty otherwise, and the
    /// duration is the catalog's millisecond duration as `m:ss`.
    pub fn from_spotify(
        title: String,
        artist: String,
        track_id: Option<&str>,
        duration_ms: u64,
        thumbnail_url: Option<String>,
    ) -> (t: Track)
        ensures
            t.title == title,
            t.artist == artist,
            t.url@ == (match track_id {
                Some(id) => spotify_track_url_spec(id@),
                None => Seq::<char>::empty(),
            }),
            t.source is Spotify,
            t.duration matches Some(d) && d@ == spec_clock(
                (duration_ms / 60000) as nat,
                ((duration_ms % 60000) / 1000) as nat,
            ),
            t.thumbnail_url == thumbnail_url,
    {
        let url = match track_id {
            Some(id) => spotify_track_url(id),
            None => String::new(),
        };
        Track {
            title,
            artist,
            url,
            source: TrackSource::Spotify,
            duration: Some(format_duration_ms(duration_ms)),
            thumbnail_url,
        }
    }

    /// The stand-in used when a video lookup fails: the query itself serves
    /// as both title and URL.
    pub fn youtube_fallback(query: &str) -> (t: Track)
        ensures
            t.title@ == query@,
            t.artist@ == "YouTube"@,
            t.url@ == query@,
            t.source is YouTube,
            t.duration is None,
            t.thumbnail_url is None,
    {
        Track {
            title: String::from_str(query),
            artist: String::from_str("YouTube"),
            url: String::from_str(query),
            source: TrackSource::YouTube,
            duration: None,
            thumbnail_url: None,
        }
    }
}

/// The canonical watch address for a video identifier.
pub open spec fn youtube_watch_url_spec(video_id: Seq<char>) -> Seq<char> {
    "https://www.youtube.com/watch?v="@ + video_id
}

pub fn youtube_watch_url(video_id: &str) -> (r: String)
    ensures
        r@ == youtube_watch_url_spec(video_id@),
{
    String::from_str("https://www.youtube.com/watch?v=").concat(video_id)
}

/// The canonical address for a Spotify track identifier.
pub open spec fn spotify_track_url_spec(track_id: Seq<char>) -> Seq<char> {
    "https://open.spotify.com/track/"@ + track_id
}

pub fn spotify_track_url(track_id: &str) -> (r: String)
    ensures
        r@ == spotify_track_url_spec(track_id@),
{
    String::from_str("https://open.spotify.com/track/").concat(track_id)
}

/// The title line used in messages: bold title and artist, hyperlinked to
/// the track's URL when one is known.
pub open spec fn linked_title_spec(t: Track) -> Seq<char> {
    if t.url@.len() == 0 {
        "**"@ + t.title@ + "** - "@ + t.artist@
    } else {
        "[**"@ + t.title@ + "** - "@ + t.artist@ + "]("@ + t.url@ + ")"@
    }
}

pub fn linked_title(track: &Track) -> (r: String)
    ensures
        r@ == linked_title_spec(*track),
{
    if track.url.as_str().is_empty() {
        let mut out = String::from_str("**");
        out.append(track.title.as_str());
        out.append("** - ");
        out.concat(track.artist.as_str())
    } else {
        let mut out = String::from_str("[**");
        out.append(track.title.as_str());
        out.append("** - ");
        out.append(track.artist.as_str());
        out.append("](");
        out.append(track.url.as_str());
        out.concat(")")
    }
}

/// The search query used to stream a Spotify track through the video
/// pipeline: title, artist, and the word `audio`.
pub open spec fn spotify_to_youtube_query_spec(t: Track) -> Seq<char> {
    t.title@ + " "@ + t.artist@ + " audio"@
}

pub fn spotify_to_youtube_query(track: &Track) -> (r: String)
    ensures
        r@ == spotify_to_youtube_query_spec(*track),
{
    let mut out = String::new();
    out.append(track.title.as_str());
    out.append(" ");
    out.append(track.artist.as_str());
    out.concat(" audio")
}

} // verus!

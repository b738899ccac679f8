use music_bot::audio::best_audio_args;
use music_bot::commands::{
    choose_search_results, classify_query, on_list_request, parse_custom_id, seek_target,
    should_autocomplete, QueryKind,
};
use music_bot::error::MusicError;
use music_bot::queue_service::QueueService;
use music_bot::text::{
    format_clock, format_duration_ms, join_artists, parse_iso8601_duration, parse_u64,
    u64_to_string,
};
use music_bot::track::{
    linked_title, spotify_to_youtube_query, youtube_watch_url, spotify_track_url, Track,
    TrackSource,
};
use music_bot::urls::{
    extract_youtube_playlist_id, extract_youtube_video_id, is_spotify_url,
    is_youtube_playlist_url, is_youtube_url, parse_spotify_url, SpotifyUrl,
};

fn yt(title: &str, url: &str) -> Track {
    Track {
        title: title.to_string(),
        artist: "Channel".to_string(),
        url: url.to_string(),
        source: TrackSource::YouTube,
        duration: Some("4:07".to_string()),
        thumbnail_url: None,
    }
}

#[test]
fn decimal_rendering() {
    assert_eq!(u64_to_string(0), "0");
    assert_eq!(u64_to_string(7), "7");
    assert_eq!(u64_to_string(1234), "1234");
    assert_eq!(u64_to_string(u64::MAX), "18446744073709551615");
}

#[test]
fn clock_formatting() {
    assert_eq!(format_clock(3, 5), "3:05");
    assert_eq!(format_clock(0, 0), "0:00");
    assert_eq!(format_clock(12, 34), "12:34");
    assert_eq!(format_duration_ms(61_000), "1:01");
    assert_eq!(format_duration_ms(200_000), "3:20");
    assert_eq!(format_duration_ms(999), "0:00");
}

#[test]
fn iso8601_durations() {
    assert_eq!(parse_iso8601_duration("PT1H2M3S"), Some("62:03".to_string()));
    assert_eq!(parse_iso8601_duration("PT3M20S"), Some("3:20".to_string()));
    assert_eq!(parse_iso8601_duration("PT45S"), Some("0:45".to_string()));
    assert_eq!(parse_iso8601_duration("PT2M"), Some("2:00".to_string()));
    assert_eq!(parse_iso8601_duration("PT"), Some("0:00".to_string()));
    assert_eq!(parse_iso8601_duration("P1D"), None);
    assert_eq!(parse_iso8601_duration("PTxS"), None);
    assert_eq!(parse_iso8601_duration(""), None);
    assert_eq!(parse_iso8601_duration("PT99999999999999999999H"), None);
}

#[test]
fn artists_join_with_commas() {
    assert_eq!(join_artists(&vec![]), "");
    assert_eq!(join_artists(&vec!["A".to_string()]), "A");
    assert_eq!(join_artists(&vec!["A".to_string(), "B".to_string(), "C".to_string()]), "A, B, C");
}

#[test]
fn linked_title_with_and_without_url() {
    let with = yt("Song", "https://example.invalid/v");
    assert_eq!(linked_title(&with), "[**Song** - Channel](https://example.invalid/v)");
    let without = Track { url: String::new(), ..with };
    assert_eq!(linked_title(&without), "**Song** - Channel");
}

#[test]
fn track_display_and_query() {
    let t = yt("Song", "u");
    assert_eq!(t.describe(), "[YT] Song - Channel");
    assert_eq!(t.source.label(), "[YT]");
    let s = Track { source: TrackSource::Spotify, ..yt("Song", "") };
    assert_eq!(s.describe(), "[SP] Song - Channel");
    assert_eq!(spotify_to_youtube_query(&s), "Song Channel audio");
}

#[test]
fn track_builders() {
    assert_eq!(youtube_watch_url("abc"), "https://www.youtube.com/watch?v=abc");
    assert_eq!(spotify_track_url("xyz"), "https://open.spotify.com/track/xyz");
    let t = Track::from_youtube("T".to_string(), "C".to_string(), "dQw4w9WgXcQ", None, None);
    assert_eq!(t.url, "https://www.youtube.com/watch?v=dQw4w9WgXcQ");
    assert_eq!(t.source, TrackSource::YouTube);
    let s = Track::from_spotify("T".to_string(), "A".to_string(), Some("id1"), 200_000, None);
    assert_eq!(s.url, "https://open.spotify.com/track/id1");
    assert_eq!(s.duration, Some("3:20".to_string()));
    let s2 = Track::from_spotify("T".to_string(), "A".to_string(), None, 1_000, None);
    assert_eq!(s2.url, "");
    assert_eq!(s2.duration, Some("0:01".to_string()));
    let f = Track::youtube_fallback("some query");
    assert_eq!(f.title, "some query");
    assert_eq!(f.artist, "YouTube");
    assert_eq!(f.url, "some query");
}

#[test]
fn error_messages_are_fixed() {
    assert_eq!(MusicError::NotInVoiceChannel.message(), "You must be in a voice channel");
    assert_eq!(MusicError::NotInGuild.message(), "This command must be used in a server");
    assert_eq!(MusicError::NoResults.message(), "No results found for your query");
    assert_eq!(MusicError::EmptyQueue.message(), "The queue is empty");
    assert_eq!(
        MusicError::JoinError("timeout".to_string()).message(),
        "Failed to join voice channel: timeout"
    );
}

#[test]
fn youtube_url_recognition() {
    assert!(is_youtube_url("https://www.youtube.com/watch?v=dQw4w9WgXcQ"));
    assert!(is_youtube_url("https://youtu.be/dQw4w9WgXcQ"));
    assert!(is_youtube_url("https://www.youtube.com/shorts/dQw4w9WgXcQ"));
    assert!(!is_youtube_url("https://example.com/watch?v=dQw4w9WgXcQ"));
    assert!(!is_youtube_url("just some words"));
}

#[test]
fn playlist_id_extraction() {
    assert_eq!(
        extract_youtube_playlist_id("https://www.youtube.com/playlist?list=PLabc_123-XY"),
        Some("PLabc_123-XY".to_string())
    );
    assert_eq!(
        extract_youtube_playlist_id("https://www.youtube.com/watch?v=dQw4w9WgXcQ&list=PL9&x=1"),
        Some("PL9".to_string())
    );
    assert_eq!(extract_youtube_playlist_id("no list here"), None);
    assert_eq!(extract_youtube_playlist_id("?list="), None);
}

#[test]
fn playlist_url_recognition() {
    assert!(is_youtube_playlist_url("https://www.youtube.com/playlist?list=PLabc"));
    assert!(is_youtube_playlist_url("https://www.youtube.com/watch?v=dQw4w9WgXcQ&list=PLabc"));
    assert!(!is_youtube_playlist_url("https://www.youtube.com/watch?v=dQw4w9WgXcQ"));
    // An auto-generated mix on a watch address plays as the single video.
    assert!(!is_youtube_playlist_url("https://www.youtube.com/watch?v=dQw4w9WgXcQ&list=RDdQw4w9WgXcQ"));
    // A mix identifier without a video identifier is still a playlist.
    assert!(is_youtube_playlist_url("https://www.youtube.com/playlist?list=RDabc"));
}

#[test]
fn video_id_extraction() {
    assert_eq!(
        extract_youtube_video_id("https://www.youtube.com/watch?v=dQw4w9WgXcQ"),
        Some("dQw4w9WgXcQ".to_string())
    );
    assert_eq!(
        extract_youtube_video_id("https://www.youtube.com/watch?t=9&v=dQw4w9WgXcQ"),
        Some("dQw4w9WgXcQ".to_string())
    );
    assert_eq!(
        extract_youtube_video_id("https://youtu.be/dQw4w9WgXcQ?t=3"),
        Some("dQw4w9WgXcQ".to_string())
    );
    assert_eq!(
        extract_youtube_video_id("https://www.youtube.com/shorts/dQw4w9WgXcQ"),
        Some("dQw4w9WgXcQ".to_string())
    );
    // Ten identifier characters are not a video identifier.
    assert_eq!(extract_youtube_video_id("https://youtu.be/short"), None);
    assert_eq!(extract_youtube_video_id("nothing here"), None);
}

#[test]
fn spotify_url_parsing() {
    assert!(is_spotify_url("https://open.spotify.com/track/4uLU6hMCjMI75M1A2tKUQC"));
    assert!(!is_spotify_url("https://open.spotify.com/artist/abc"));
    assert!(!is_spotify_url("spotify something"));
    match parse_spotify_url("https://open.spotify.com/track/4uLU6hMCjMI75M1A2tKUQC?si=9") {
        Some(SpotifyUrl::Track(id)) => assert_eq!(id, "4uLU6hMCjMI75M1A2tKUQC"),
        _ => panic!("expected a track"),
    }
    match parse_spotify_url("open.spotify.com/playlist/37i9dQZF1DXcBWIGoYBM5M") {
        Some(SpotifyUrl::Playlist(id)) => assert_eq!(id, "37i9dQZF1DXcBWIGoYBM5M"),
        _ => panic!("expected a playlist"),
    }
    match parse_spotify_url("open.spotify.com/album/2up3OPMp9Tb4dAKM2erWXQ") {
        Some(SpotifyUrl::Album(id)) => assert_eq!(id, "2up3OPMp9Tb4dAKM2erWXQ"),
        _ => panic!("expected an album"),
    }
}

#[test]
fn query_classification() {
    match classify_query("https://www.youtube.com/playlist?list=PLabc") {
        Ok(QueryKind::YoutubePlaylist(id)) => assert_eq!(id, "PLabc"),
        _ => panic!("expected a playlist"),
    }
    match classify_query("https://youtu.be/dQw4w9WgXcQ") {
        Ok(QueryKind::YoutubeVideo(Some(id))) => assert_eq!(id, "dQw4w9WgXcQ"),
        _ => panic!("expected a video with an identifier"),
    }
    match classify_query("https://www.youtube.com/watch?feature=x") {
        Ok(QueryKind::YoutubeVideo(None)) => {}
        _ => panic!("expected a video without an identifier"),
    }
    match classify_query("https://open.spotify.com/track/4uLU6hMCjMI75M1A2tKUQC") {
        Ok(QueryKind::SpotifyLink(SpotifyUrl::Track(id))) => {
            assert_eq!(id, "4uLU6hMCjMI75M1A2tKUQC")
        }
        _ => panic!("expected a spotify link"),
    }
    match classify_query("some free text") {
        Ok(QueryKind::Search) => {}
        _ => panic!("expected a search"),
    }
}

#[test]
fn list_request_needs_a_playing_track() {
    let mut queues = QueueService::new_guild_queues();
    match on_list_request(&queues, 1) {
        Err(MusicError::EmptyQueue) => {}
        _ => panic!("expected the empty-queue error"),
    }
    QueueService::add_track(&mut queues, 1, yt("A", "u1"));
    QueueService::add_track(&mut queues, 1, yt("B", "u2"));
    QueueService::advance(&mut queues, 1);
    let (current, upcoming) = on_list_request(&queues, 1).unwrap();
    assert_eq!(current.title, "A");
    let titles: Vec<String> = upcoming.into_iter().map(|t| t.title).collect();
    assert_eq!(titles, vec!["B".to_string()]);
}

#[test]
fn custom_id_parsing() {
    assert_eq!(parse_custom_id("np_pause_123"), Some(("pause".to_string(), 123)));
    assert_eq!(parse_custom_id("np_seekback_42"), Some(("seekback".to_string(), 42)));
    assert_eq!(parse_custom_id("other_pause_123"), None);
    assert_eq!(parse_custom_id("np_pause"), None);
    assert_eq!(parse_custom_id("np_pause_12x"), None);
    assert_eq!(parse_custom_id("np_pause_99999999999999999999"), None);
}

#[test]
fn u64_parsing_boundaries() {
    let digits = |s: &str| s.chars().collect::<Vec<char>>();
    assert_eq!(parse_u64(&digits("0")), Some(0));
    assert_eq!(parse_u64(&digits("18446744073709551615")), Some(u64::MAX));
    assert_eq!(parse_u64(&digits("18446744073709551616")), None);
    assert_eq!(parse_u64(&digits("")), None);
    assert_eq!(parse_u64(&digits("12a")), None);
}

#[test]
fn custom_id_action_may_hold_underscores() {
    assert_eq!(
        parse_custom_id("np_seek_back_12"),
        Some(("seek_back".to_string(), 12))
    );
}

#[test]
fn seek_arithmetic() {
    assert_eq!(seek_target(100, true), 115);
    assert_eq!(seek_target(100, false), 85);
    assert_eq!(seek_target(10, false), 0);
}

#[test]
fn autocomplete_gate() {
    assert!(should_autocomplete("abc"));
    assert!(!should_autocomplete("ab"));
    assert!(!should_autocomplete("http://x"));
    assert!(!should_autocomplete("https://x"));
}

#[test]
fn search_results_prefer_first_nonempty() {
    let a = vec![yt("A", "u")];
    let b = vec![yt("B", "u")];
    let chosen = choose_search_results(a.clone(), b.clone());
    assert_eq!(chosen[0].title, "A");
    let chosen = choose_search_results(Vec::new(), b);
    assert_eq!(chosen[0].title, "B");
    assert!(choose_search_results(Vec::new(), Vec::new()).is_empty());
}

#[test]
fn downloader_args() {
    assert_eq!(best_audio_args(), vec!["-f".to_string(), "bestaudio".to_string()]);
}

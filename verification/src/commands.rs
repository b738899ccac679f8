//! The decisions behind the command surface: routing a play query,
//! answering a queue listing, skipping, parsing control-button identifiers,
//! seek arithmetic, and choosing between two search providers' results.
//! The surrounding I/O — slash commands, embeds, the audio pipeline — is
//! the caller's.

use vstd::prelude::*;

use crate::error::MusicError;
use crate::queue_service::GuildQueues;
use crate::queue_service::QueueService;
use crate::text::chars_vec;
use crate::text::dec_val;
use crate::text::parse_u64;
use crate::text::parses_u64;
use crate::text::slice_range;
use crate::text::string_from_range;
use crate::track::Track;
use crate::urls::SpotifyUrl;
use crate::urls::is_youtube_playlist_url;
use crate::urls::is_youtube_url;
use crate::urls::extract_youtube_playlist_id;
use crate::urls::extract_youtube_video_id;
use crate::urls::match_at as match_at_exec;
use crate::urls::matches_at;
use crate::urls::parse_spotify_url;
use crate::urls::spec_extract_youtube_playlist_id;
use crate::urls::spec_extract_youtube_video_id;
use crate::urls::spec_is_youtube_playlist_url;
use crate::urls::spec_is_youtube_url;
use crate::urls::spec_parse_spotify_url;

verus! {

/// What a play query asks for.
pub enum QueryKind {
    /// A playlist address, with the playlist identifier.
    YoutubePlaylist(String),
    /// A single video address, with the video identifier when one could be
    /// extracted (the raw query streams directly otherwise).
    YoutubeVideo(Option<String>),
    /// A Spotify address.
    SpotifyLink(SpotifyUrl),
    /// Free text, handed to catalog search.
    Search,
}

/// Routes a play query: a playlist address is resolved as a playlist — or
/// refused when its identifier cannot be extracted — then a video address,
/// then a Spotify address, and anything else is searched as free text.
pub fn classify_query(query: &str) -> (r: Result<QueryKind, MusicError>)
    ensures
        spec_is_youtube_playlist_url(query@) ==> (match spec_extract_youtube_playlist_id(query@) {
            Some(id) => r matches Ok(QueryKind::YoutubePlaylist(x)) && x@ == id,
            None => r == Err::<QueryKind, MusicError>(MusicError::NoResults),
        }),
        !spec_is_youtube_playlist_url(query@) && spec_is_youtube_url(query@) ==> (r matches Ok(
            QueryKind::YoutubeVideo(v),
        ) && (match spec_extract_youtube_video_id(query@) {
            Some(id) => v matches Some(x) && x@ == id,
            None => v is None,
        })),
        !spec_is_youtube_playlist_url(query@) && !spec_is_youtube_url(query@) ==> (match
            spec_parse_spotify_url(query@) {
            Some(m) => r matches Ok(QueryKind::SpotifyLink(u)) && u@ == m,
            None => r == Ok::<QueryKind, MusicError>(QueryKind::Search),
        }),
{
    if is_youtube_playlist_url(query) {
        match extract_youtube_playlist_id(query) {
            Some(id) => Ok(QueryKind::YoutubePlaylist(id)),
            None => Err(MusicError::NoResults),
        }
    } else if is_youtube_url(query) {
        Ok(QueryKind::YoutubeVideo(extract_youtube_video_id(query)))
    } else {
        match parse_spotify_url(query) {
            Some(u) => Ok(QueryKind::SpotifyLink(u)),
            None => Ok(QueryKind::Search),
        }
    }
}

/// Answers a queue listing: the currently playing track and a copy of the
/// pending sequence, or `EmptyQueue` when nothing is playing.
pub fn on_list_request(queues: &GuildQueues, guild_id: u64) -> (r: Result<
    (Track, Vec<Track>),
    MusicError,
>)
    ensures
        match queues.playing_of(guild_id) {
            Some(t) => r matches Ok((c, upcoming)) && c@ == t@ && upcoming@.len()
                == queues.pending_of(guild_id).len() && (forall|i: int|
                0 <= i < upcoming@.len() ==> #[trigger] upcoming@[i]@ == queues.pending_of(
                    guild_id,
                )[i]@),
            None => r == Err::<(Track, Vec<Track>), MusicError>(MusicError::EmptyQueue),
        },
{
    match QueueService::current(queues, guild_id) {
        Some(current) => {
            let upcoming = QueueService::list(queues, guild_id);
            Ok((current, upcoming))
        },
        None => Err(MusicError::EmptyQueue),
    }
}

/// Answers a skip: with an empty playback pipeline there is nothing to
/// skip; otherwise the currently playing track is taken out and reported.
pub fn on_skip_request(queues: &mut GuildQueues, guild_id: u64, pipeline_empty: bool) -> (r: Result<
    Option<Track>,
    MusicError,
>)
    ensures
        pipeline_empty ==> r == Err::<Option<Track>, MusicError>(MusicError::EmptyQueue)
            && final(queues)@ == old(queues)@,
        !pipeline_empty ==> (match r {
            Ok(skipped) => {
                &&& skipped == old(queues).playing_of(guild_id)
                &&& final(queues).playing_of(guild_id) is None
                &&& final(queues).pending_of(guild_id) == old(queues).pending_of(guild_id)
            },
            Err(_) => false,
        }),
{
    if pipeline_empty {
        return Err(MusicError::EmptyQueue);
    }
    Ok(QueueService::skip(queues, guild_id))
}

/// Picks a search answer: the provider that answered first wins if it
/// found anything; otherwise the other provider's results are used.
pub fn choose_search_results(first: Vec<Track>, second: Vec<Track>) -> (r: Vec<Track>)
    ensures
        first@.len() > 0 ==> r == first,
        first@.len() == 0 ==> r == second,
{
    if first.len() > 0 {
        first
    } else {
        second
    }
}

/// The index of the last `'_'` at or before `i`.
pub open spec fn last_underscore(s: Seq<char>, i: int) -> Option<int>
    decreases i + 1,
    when i < s.len()
{
    if i < 0 {
        None
    } else if s[i] == '_' {
        Some(i)
    } else {
        last_underscore(s, i - 1)
    }
}

/// The parsed form of a control-button identifier `np_<action>_<guild>`:
/// the text between the `np_` prefix and the last underscore, and the
/// decimal guild identifier after that underscore.
pub open spec fn spec_parse_custom_id(s: Seq<char>) -> Option<(Seq<char>, u64)> {
    if !matches_at(s, "np_"@, 0) {
        None
    } else {
        let rest = s.skip(3);
        match last_underscore(rest, rest.len() - 1) {
            None => None,
            Some(k) => {
                let digits = rest.skip(k + 1);
                if parses_u64(digits) {
                    Some((rest.take(k), dec_val(digits) as u64))
                } else {
                    None
                }
            },
        }
    }
}

/// Parses a control-button identifier, as `spec_parse_custom_id` describes
/// it.
pub fn parse_custom_id(custom_id: &str) -> (r: Option<(String, u64)>)
    ensures
        r matches Some(p) ==> spec_parse_custom_id(custom_id@) matches Some(m) && p.0@ == m.0
            && p.1 == m.1,
        r is None ==> spec_parse_custom_id(custom_id@) is None,
{
    proof {
        reveal_strlit("np_");
        assert("np_"@.len() == 3);
    }
    let cs = chars_vec(custom_id);
    let prefix = chars_vec("np_");
    let n = cs.len();
    if !match_at_exec(&cs, &prefix, 0) {
        return None;
    }
    let ghost rest = cs@.skip(3);
    // Scan backwards for the last underscore after the prefix; positions
    // `found..n` hold none.
    let mut found: Option<usize> = None;
    let mut k: usize = n;
    loop
        invariant_except_break
            found is None,
        invariant
            3 <= n == cs@.len(),
            3 <= k <= n,
            rest == cs@.skip(3),
            last_underscore(rest, rest.len() - 1) == last_underscore(rest, k - 4),
        ensures
            rest == cs@.skip(3),
            match found {
                Some(p) => 3 <= p < n && last_underscore(rest, rest.len() - 1) == Some(p - 3),
                None => last_underscore(rest, rest.len() - 1) is None,
            },
        decreases k,
    {
        if k == 3 {
            break ;
        }
        let probe = k - 1;
        if cs[probe] == '_' {
            proof {
                assert(rest[k - 4] == cs@[probe as int]);
            }
            found = Some(probe);
            break ;
        }
        proof {
            assert(rest[k - 4] == cs@[probe as int]);
        }
        k = probe;
    }
    match found {
        None => None,
        Some(p) => {
            let digits_vec = slice_range(&cs, p + 1, n);
            proof {
                assert(digits_vec@ =~= rest.skip((p - 3) + 1));
            }
            match parse_u64(&digits_vec) {
                Some(guild) => {
                    let action = string_from_range(&cs, 3, p);
                    proof {
                        assert(action@ =~= rest.take(p - 3));
                    }
                    Some((action, guild))
                },
                None => None,
            }
        },
    }
}

/// The seek target: fifteen seconds forward, or fifteen seconds backward
/// stopping at the start of the track.
pub fn seek_target(position_secs: u64, forward: bool) -> (r: u64)
    requires
        forward ==> position_secs <= u64::MAX - 15,
    ensures
        forward ==> r == position_secs + 15,
        !forward ==> r == (if position_secs >= 15 {
            position_secs - 15
        } else {
            0
        }),
{
    if forward {
        position_secs + 15
    } else if position_secs >= 15 {
        position_secs - 15
    } else {
        0
    }
}

/// Whether a partial query should be autocompleted: at least three
/// characters, and not already an address.
pub fn should_autocomplete(partial: &str) -> (r: bool)
    ensures
        r == (partial@.len() >= 3 && !matches_at(partial@, "http://"@, 0) && !matches_at(
            partial@,
            "https://"@,
            0,
        )),
{
    let cs = chars_vec(partial);
    let http = chars_vec("http://");
    let https = chars_vec("https://");
    cs.len() >= 3 && !match_at_exec(&cs, &http, 0) && !match_at_exec(
        &cs,
        &https,
        0,
    )
}

} // verus!

//! Query classification: recognizing video, playlist and Spotify addresses
//! inside a free-form query string, and extracting their identifiers. The
//! scanners take the leftmost occurrence of a pattern; identifier runs are
//! maximal.

use vstd::prelude::*;

use crate::text::chars_vec;
use crate::text::is_digit;
use crate::text::string_from_range;

verus! {

/// Whether `pat` occurs in `s` starting at position `i`.
pub open spec fn matches_at(s: Seq<char>, pat: Seq<char>, i: int) -> bool {
    &&& 0 <= i
    &&& i + pat.len() <= s.len()
    &&& s.subrange(i, i + pat.len()) == pat
}

/// Whether `pat` occurs anywhere in `s`.
pub open spec fn contains_sub(s: Seq<char>, pat: Seq<char>) -> bool {
    exists|i: int| matches_at(s, pat, i)
}

/// An identifier character of video and playlist identifiers.
pub open spec fn is_id_char(c: char) -> bool {
    is_digit(c) || ('a' <= c && c <= 'z') || ('A' <= c && c <= 'Z') || c == '_' || c == '-'
}

/// An identifier character of Spotify identifiers.
pub open spec fn is_alnum_char(c: char) -> bool {
    is_digit(c) || ('a' <= c && c <= 'z') || ('A' <= c && c <= 'Z')
}

/// The end of the maximal run of identifier characters starting at `from`.
pub open spec fn id_run_end(s: Seq<char>, from: int) -> int
    decreases s.len() - from,
    when 0 <= from <= s.len()
{
    if from >= s.len() {
        from
    } else if is_id_char(s[from]) {
        id_run_end(s, from + 1)
    } else {
        from
    }
}

/// The end of the maximal run of alphanumeric characters starting at `from`.
pub open spec fn alnum_run_end(s: Seq<char>, from: int) -> int
    decreases s.len() - from,
    when 0 <= from <= s.len()
{
    if from >= s.len() {
        from
    } else if is_alnum_char(s[from]) {
        alnum_run_end(s, from + 1)
    } else {
        from
    }
}

fn exec_is_id_char(c: char) -> (r: bool)
    ensures
        r == is_id_char(c),
{
    ('0' <= c && c <= '9') || ('a' <= c && c <= 'z') || ('A' <= c && c <= 'Z') || c == '_' || c
        == '-'
}

fn exec_is_alnum_char(c: char) -> (r: bool)
    ensures
        r == is_alnum_char(c),
{
    ('0' <= c && c <= '9') || ('a' <= c && c <= 'z') || ('A' <= c && c <= 'Z')
}

/// Whether `pat` occurs in `hay` at position `i`.
pub fn match_at(hay: &Vec<char>, pat: &Vec<char>, i: usize) -> (r: bool)
    requires
        i <= hay@.len(),
    ensures
        r == matches_at(hay@, pat@, i as int),
{
    let hn = hay.len();
    if hn - i < pat.len() {
        return false;
    }
    let m = pat.len();
    for j in 0..m
        invariant
            m == pat@.len(),
            hn == hay@.len(),
            i + m <= hn,
            forall|k: int| 0 <= k < j ==> hay@[i + k] == pat@[k],
    {
        if hay[i + j] != pat[j] {
            proof {
                assert(hay@.subrange(i as int, i + pat@.len())[j as int] == hay@[i + j]);
            }
            return false;
        }
    }
    proof {
        assert(hay@.subrange(i as int, i + pat@.len()) =~= pat@);
    }
    true
}

/// Whether `pat` occurs anywhere in `hay`.
fn find_sub(hay: &Vec<char>, pat: &Vec<char>) -> (r: bool)
    ensures
        r == contains_sub(hay@, pat@),
{
    if pat.len() == 0 {
        proof {
            assert(hay@.subrange(0, 0) =~= pat@);
            assert(matches_at(hay@, pat@, 0));
        }
        return true;
    }
    let n = hay.len();
    for i in 0..n
        invariant
            n == hay@.len(),
            pat@.len() >= 1,
            forall|j: int| 0 <= j < i ==> !matches_at(hay@, pat@, j),
    {
        if match_at(hay, pat, i) {
            return true;
        }
    }
    false
}

/// Whether the query holds a video address: a watch, short-link or shorts
/// path anywhere in it.
pub open spec fn spec_is_youtube_url(s: Seq<char>) -> bool {
    ||| contains_sub(s, "youtube.com/watch"@)
    ||| contains_sub(s, "youtu.be/"@)
    ||| contains_sub(s, "youtube.com/shorts/"@)
}

pub fn is_youtube_url(query: &str) -> (r: bool)
    ensures
        r == spec_is_youtube_url(query@),
{
    let cs = chars_vec(query);
    let pat_watch = chars_vec("youtube.com/watch");
    let pat_be = chars_vec("youtu.be/");
    let pat_shorts = chars_vec("youtube.com/shorts/");
    find_sub(&cs, &pat_watch) || find_sub(&cs, &pat_be) || find_sub(&cs, &pat_shorts)
}

/// The leftmost occurrence of `pat` in `hay` at or after `start`.
fn find_from(hay: &Vec<char>, pat: &Vec<char>, start: usize) -> (r: Option<usize>)
    requires
        pat@.len() >= 1,
    ensures
        r matches Some(i) ==> start <= i && matches_at(hay@, pat@, i as int) && (forall|j: int|
            start <= j < i ==> !matches_at(hay@, pat@, j)),
        r is None ==> forall|j: int| j >= start ==> !matches_at(hay@, pat@, j),
{
    let n = hay.len();
    if start >= n {
        return None;
    }
    for i in start..n
        invariant
            n == hay@.len(),
            pat@.len() >= 1,
            forall|j: int| start <= j < i ==> !matches_at(hay@, pat@, j),
    {
        if match_at(hay, pat, i) {
            return Some(i);
        }
    }
    None
}

/// A playlist-parameter marker at `i`: a `?` or `&`, then `list=`, then at
/// least one identifier character.
pub open spec fn playlist_marker_at(s: Seq<char>, i: int) -> bool {
    &&& 0 <= i
    &&& i + 7 <= s.len()
    &&& (s[i] == '?' || s[i] == '&')
    &&& matches_at(s, "list="@, i + 1)
    &&& is_id_char(s[i + 6])
}

/// The leftmost playlist-parameter marker at or after `i`.
pub open spec fn find_playlist_marker(s: Seq<char>, i: int) -> Option<int>
    decreases s.len() - i,
    when 0 <= i <= s.len()
{
    if i >= s.len() {
        None
    } else if playlist_marker_at(s, i) {
        Some(i)
    } else {
        find_playlist_marker(s, i + 1)
    }
}

/// The playlist identifier in a query: the maximal identifier run after
/// the leftmost `?list=` or `&list=` parameter, if any.
pub open spec fn spec_extract_youtube_playlist_id(s: Seq<char>) -> Option<Seq<char>> {
    match find_playlist_marker(s, 0) {
        None => None,
        Some(i) => Some(s.subrange(i + 6, id_run_end(s, i + 6))),
    }
}

/// The end of the maximal identifier run from `from`.
fn id_run_end_exec(cs: &Vec<char>, from: usize) -> (r: usize)
    requires
        from <= cs@.len(),
    ensures
        r == id_run_end(cs@, from as int),
        from <= r <= cs@.len(),
{
    let n = cs.len();
    let mut e = from;
    loop
        invariant
            from <= e <= n,
            n == cs@.len(),
            id_run_end(cs@, from as int) == id_run_end(cs@, e as int),
        ensures
            from <= e <= n,
            id_run_end(cs@, from as int) == id_run_end(cs@, e as int),
            e == n || !is_id_char(cs@[e as int]),
        decreases n - e,
    {
        if e == n {
            break ;
        }
        if !exec_is_id_char(cs[e]) {
            break ;
        }
        e = e + 1;
    }
    e
}

fn find_playlist_marker_exec(cs: &Vec<char>, list_pat: &Vec<char>) -> (r: Option<usize>)
    requires
        list_pat@ == "list="@,
    ensures
        r matches Some(i) ==> find_playlist_marker(cs@, 0) == Some(i as int)
            && playlist_marker_at(cs@, i as int),
        r is None ==> find_playlist_marker(cs@, 0) is None,
{
    proof {
        reveal_strlit("list=");
    }
    let n = cs.len();
    for i in 0..n
        invariant
            n == cs@.len(),
            list_pat@ == "list="@,
            list_pat@.len() == 5,
            find_playlist_marker(cs@, 0) == find_playlist_marker(cs@, i as int),
    {
        let c = cs[i];
        if (c == '?' || c == '&') && n - i >= 7 && match_at(cs, list_pat, i + 1) && exec_is_id_char(
            cs[i + 6],
        ) {
            proof {
                assert(playlist_marker_at(cs@, i as int));
            }
            return Some(i);
        }
        proof {
            assert(!playlist_marker_at(cs@, i as int));
        }
    }
    None
}

/// Extracts the playlist identifier, as `spec_extract_youtube_playlist_id`
/// describes it.
pub fn extract_youtube_playlist_id(query: &str) -> (r: Option<String>)
    ensures
        r matches Some(id) ==> spec_extract_youtube_playlist_id(query@) matches Some(v) && id@
            == v,
        r is None ==> spec_extract_youtube_playlist_id(query@) is None,
{
    let cs = chars_vec(query);
    let list_pat = chars_vec("list=");
    match find_playlist_marker_exec(&cs, &list_pat) {
        None => None,
        Some(i) => {
            let start = i + 6;
            let end = id_run_end_exec(&cs, start);
            Some(string_from_range(&cs, start, end))
        },
    }
}

/// Eleven identifier characters — a video identifier — starting at `p`.
pub open spec fn eleven_ids_at(s: Seq<char>, p: int) -> bool {
    &&& p >= 0
    &&& p + 11 <= s.len()
    &&& forall|k: int| p <= k < p + 11 ==> is_id_char(#[trigger] s[k])
}

/// The leftmost `v=` parameter at or after `j` that is followed by a video
/// identifier.
pub open spec fn find_watch_video_start(s: Seq<char>, j: int) -> Option<int>
    decreases s.len() - j,
    when 0 <= j <= s.len()
{
    if j >= s.len() {
        None
    } else if matches_at(s, "v="@, j) && eleven_ids_at(s, j + 2) {
        Some(j + 2)
    } else {
        find_watch_video_start(s, j + 1)
    }
}

/// Where a video identifier starts for an address beginning at `i`: right
/// after a short link or a shorts path, or — for a watch path — after the
/// first `v=` parameter that a video identifier follows.
pub open spec fn video_start_at(s: Seq<char>, i: int) -> Option<int> {
    if matches_at(s, "youtu.be/"@, i) {
        if eleven_ids_at(s, i + 9) {
            Some(i + 9)
        } else {
            None
        }
    } else if matches_at(s, "youtube.com/shorts/"@, i) {
        if eleven_ids_at(s, i + 19) {
            Some(i + 19)
        } else {
            None
        }
    } else if matches_at(s, "youtube.com/watch?"@, i) {
        find_watch_video_start(s, i + 18)
    } else {
        None
    }
}

/// The video-identifier start for the leftmost matching address in `s`.
pub open spec fn find_video_start(s: Seq<char>, i: int) -> Option<int>
    decreases s.len() - i,
    when 0 <= i <= s.len()
{
    if i >= s.len() {
        None
    } else if video_start_at(s, i) is Some {
        video_start_at(s, i)
    } else {
        find_video_start(s, i + 1)
    }
}

/// The video identifier in a query, if a video address with one is present.
pub open spec fn spec_extract_youtube_video_id(s: Seq<char>) -> Option<Seq<char>> {
    match find_video_start(s, 0) {
        None => None,
        Some(p) => Some(s.subrange(p, p + 11)),
    }
}

/// Whether a video identifier starts at `p`.
fn eleven_ids_exec(cs: &Vec<char>, p: usize) -> (r: bool)
    requires
        p <= cs@.len(),
    ensures
        r == eleven_ids_at(cs@, p as int),
{
    let n = cs.len();
    if n - p < 11 {
        return false;
    }
    for k in 0..11usize
        invariant
            n == cs@.len(),
            p + 11 <= n,
            forall|q: int| p <= q < p + k ==> is_id_char(#[trigger] cs@[q]),
    {
        if !exec_is_id_char(cs[p + k]) {
            return false;
        }
    }
    true
}

struct VideoPatterns {
    be: Vec<char>,
    shorts: Vec<char>,
    watch: Vec<char>,
    veq: Vec<char>,
}

impl VideoPatterns {
    spec fn wf(self) -> bool {
        &&& self.be@ == "youtu.be/"@
        &&& self.shorts@ == "youtube.com/shorts/"@
        &&& self.watch@ == "youtube.com/watch?"@
        &&& self.veq@ == "v="@
    }

    fn new() -> (r: VideoPatterns)
        ensures
            r.wf(),
    {
        VideoPatterns {
            be: chars_vec("youtu.be/"),
            shorts: chars_vec("youtube.com/shorts/"),
            watch: chars_vec("youtube.com/watch?"),
            veq: chars_vec("v="),
        }
    }
}

/// One position's worth of `video_start_at`.
fn video_start_at_exec(cs: &Vec<char>, pats: &VideoPatterns, i: usize) -> (r: Option<usize>)
    requires
        pats.wf(),
        i <= cs@.len(),
    ensures
        r matches Some(p) ==> video_start_at(cs@, i as int) == Some(p as int) && p + 11
            <= cs@.len(),
        r is None ==> video_start_at(cs@, i as int) is None,
{
    proof {
        reveal_strlit("youtu.be/");
        reveal_strlit("youtube.com/shorts/");
        reveal_strlit("youtube.com/watch?");
        reveal_strlit("v=");
    }
    let n = cs.len();
    if match_at(cs, &pats.be, i) {
        if eleven_ids_exec(cs, i + 9) {
            Some(i + 9)
        } else {
            None
        }
    } else if match_at(cs, &pats.shorts, i) {
        if eleven_ids_exec(cs, i + 19) {
            Some(i + 19)
        } else {
            None
        }
    } else if match_at(cs, &pats.watch, i) {
        let mut j = i + 18;
        loop
            invariant
                pats.wf(),
                n == cs@.len(),
                i + 18 <= j <= n,
                find_watch_video_start(cs@, i + 18) == find_watch_video_start(cs@, j as int),
            ensures
                i + 18 <= j <= n,
                find_watch_video_start(cs@, i + 18) == (if j < n {
                    Some((j + 2) as int)
                } else {
                    None
                }),
                j < n ==> j + 13 <= n,
            decreases n - j,
        {
            proof {
                reveal_strlit("v=");
            }
            if j == n {
                break ;
            }
            if match_at(cs, &pats.veq, j) && eleven_ids_exec(cs, j + 2) {
                break ;
            }
            j = j + 1;
        }
        if j < n {
            Some(j + 2)
        } else {
            None
        }
    } else {
        None
    }
}

/// Extracts the video identifier, as `spec_extract_youtube_video_id`
/// describes it.
pub fn extract_youtube_video_id(query: &str) -> (r: Option<String>)
    ensures
        r matches Some(id) ==> spec_extract_youtube_video_id(query@) matches Some(v) && id@ == v,
        r is None ==> spec_extract_youtube_video_id(query@) is None,
{
    let cs = chars_vec(query);
    let pats = VideoPatterns::new();
    let n = cs.len();
    for i in 0..n
        invariant
            pats.wf(),
            n == cs@.len(),
            cs@ == query@,
            find_video_start(cs@, 0) == find_video_start(cs@, i as int),
    {
        match video_start_at_exec(&cs, &pats, i) {
            Some(p) => {
                proof {
                    assert(find_video_start(cs@, i as int) == Some(p as int));
                    assert(cs@ == query@);
                    assert(find_video_start(query@, 0) == Some(p as int));
                    assert(spec_extract_youtube_video_id(query@) == Some(
                        query@.subrange(p as int, p as int + 11),
                    ));
                }
                return Some(string_from_range(&cs, p, p + 11));
            },
            None => {},
        }
    }
    None
}

/// Whether the query holds a playlist address: a playlist path, or a watch
/// path with a `list=` parameter somewhere after it.
pub open spec fn spec_has_playlist_pattern(s: Seq<char>) -> bool {
    ||| contains_sub(s, "youtube.com/playlist?"@)
    ||| (exists|i: int, j: int|
        #[trigger] matches_at(s, "youtube.com/watch?"@, i) && i + 18 <= j && #[trigger] matches_at(
            s,
            "list="@,
            j,
        ))
}

/// Whether the query is treated as a playlist: it holds a playlist pattern,
/// unless the playlist is an auto-generated mix — an identifier starting
/// `RD` — on a watch address that names a video, which plays as the single
/// video instead.
pub open spec fn spec_is_youtube_playlist_url(s: Seq<char>) -> bool {
    &&& spec_has_playlist_pattern(s)
    &&& !(spec_extract_youtube_playlist_id(s) matches Some(id) && id.len() >= 2 && id[0] == 'R'
        && id[1] == 'D' && spec_extract_youtube_video_id(s) is Some)
}

pub fn is_youtube_playlist_url(query: &str) -> (r: bool)
    ensures
        r == spec_is_youtube_playlist_url(query@),
{
    proof {
        reveal_strlit("youtube.com/watch?");
        reveal_strlit("list=");
        assert("youtube.com/watch?"@.len() == 18);
        assert("list="@.len() == 5);
    }
    let cs = chars_vec(query);
    let p_pl = chars_vec("youtube.com/playlist?");
    let p_watch = chars_vec("youtube.com/watch?");
    let p_list = chars_vec("list=");
    let n = cs.len();
    let has_pl = find_sub(&cs, &p_pl);
    let has_watch_list: bool = match find_from(&cs, &p_watch, 0) {
        Some(i) => {
            match find_from(&cs, &p_list, i + 18) {
                Some(j) => {
                    proof {
                        assert(matches_at(cs@, "youtube.com/watch?"@, i as int) && i + 18 <= j
                            && matches_at(cs@, "list="@, j as int));
                    }
                    true
                },
                None => {
                    proof {
                        assert forall|i2: int, j2: int|
                            !(matches_at(cs@, "youtube.com/watch?"@, i2) && i2 + 18 <= j2
                                && matches_at(cs@, "list="@, j2)) by {
                            if matches_at(cs@, "youtube.com/watch?"@, i2) && i2 + 18 <= j2 {
                                assert(i2 >= i);
                                assert(j2 >= i + 18);
                            }
                        }
                    }
                    false
                },
            }
        },
        None => false,
    };
    if !(has_pl || has_watch_list) {
        return false;
    }
    match extract_youtube_playlist_id(query) {
        Some(id) => {
            let idc = chars_vec(id.as_str());
            let is_mix = idc.len() >= 2 && idc[0] == 'R' && idc[1] == 'D';
            if is_mix {
                match extract_youtube_video_id(query) {
                    Some(_) => false,
                    None => true,
                }
            } else {
                true
            }
        },
        None => true,
    }
}

/// A Spotify address names a track, a playlist or an album.
pub enum SpotifyKind {
    Track,
    Playlist,
    Album,
}

/// A parsed Spotify address: the kind and the identifier.
pub enum SpotifyUrl {
    Track(String),
    Playlist(String),
    Album(String),
}

/// The content of a parsed Spotify address.
pub enum SpotifyUrlModel {
    Track(Seq<char>),
    Playlist(Seq<char>),
    Album(Seq<char>),
}

impl View for SpotifyUrl {
    type V = SpotifyUrlModel;

    open spec fn view(&self) -> SpotifyUrlModel {
        match self {
            SpotifyUrl::Track(id) => SpotifyUrlModel::Track(id@),
            SpotifyUrl::Playlist(id) => SpotifyUrlModel::Playlist(id@),
            SpotifyUrl::Album(id) => SpotifyUrlModel::Album(id@),
        }
    }
}

/// A Spotify address starting at `i`: the base host path, a kind path, and
/// at least one alphanumeric identifier character. Returns the kind and
/// where the identifier starts.
pub open spec fn spotify_at(s: Seq<char>, i: int) -> Option<(SpotifyKind, int)> {
    if matches_at(s, "open.spotify.com/"@, i) {
        if matches_at(s, "track/"@, i + 17) {
            if i + 23 < s.len() && is_alnum_char(s[i + 23]) {
                Some((SpotifyKind::Track, i + 23))
            } else {
                None
            }
        } else if matches_at(s, "playlist/"@, i + 17) {
            if i + 26 < s.len() && is_alnum_char(s[i + 26]) {
                Some((SpotifyKind::Playlist, i + 26))
            } else {
                None
            }
        } else if matches_at(s, "album/"@, i + 17) {
            if i + 23 < s.len() && is_alnum_char(s[i + 23]) {
                Some((SpotifyKind::Album, i + 23))
            } else {
                None
            }
        } else {
            None
        }
    } else {
        None
    }
}

/// The leftmost Spotify address in `s` at or after `i`.
pub open spec fn find_spotify(s: Seq<char>, i: int) -> Option<(SpotifyKind, int)>
    decreases s.len() - i,
    when 0 <= i <= s.len()
{
    if i >= s.len() {
        None
    } else if spotify_at(s, i) is Some {
        spotify_at(s, i)
    } else {
        find_spotify(s, i + 1)
    }
}

/// The parsed form of the leftmost Spotify address: its kind, and the
/// maximal alphanumeric run as the identifier.
pub open spec fn spec_parse_spotify_url(s: Seq<char>) -> Option<SpotifyUrlModel> {
    match find_spotify(s, 0) {
        None => None,
        Some((kind, p)) => {
            let id = s.subrange(p, alnum_run_end(s, p));
            match kind {
                SpotifyKind::Track => Some(SpotifyUrlModel::Track(id)),
                SpotifyKind::Playlist => Some(SpotifyUrlModel::Playlist(id)),
                SpotifyKind::Album => Some(SpotifyUrlModel::Album(id)),
            }
        },
    }
}

/// The end of the maximal alphanumeric run from `from`.
fn alnum_run_end_exec(cs: &Vec<char>, from: usize) -> (r: usize)
    requires
        from <= cs@.len(),
    ensures
        r == alnum_run_end(cs@, from as int),
        from <= r <= cs@.len(),
{
    let n = cs.len();
    let mut e = from;
    loop
        invariant
            from <= e <= n,
            n == cs@.len(),
            alnum_run_end(cs@, from as int) == alnum_run_end(cs@, e as int),
        ensures
            from <= e <= n,
            alnum_run_end(cs@, from as int) == alnum_run_end(cs@, e as int),
            e == n || !is_alnum_char(cs@[e as int]),
        decreases n - e,
    {
        if e == n {
            break ;
        }
        if !exec_is_alnum_char(cs[e]) {
            break ;
        }
        e = e + 1;
    }
    e
}

struct SpotifyPatterns {
    base: Vec<char>,
    track: Vec<char>,
    playlist: Vec<char>,
    album: Vec<char>,
}

impl SpotifyPatterns {
    spec fn wf(self) -> bool {
        &&& self.base@ == "open.spotify.com/"@
        &&& self.track@ == "track/"@
        &&& self.playlist@ == "playlist/"@
        &&& self.album@ == "album/"@
    }

    fn new() -> (r: SpotifyPatterns)
        ensures
            r.wf(),
    {
        SpotifyPatterns {
            base: chars_vec("open.spotify.com/"),
            track: chars_vec("track/"),
            playlist: chars_vec("playlist/"),
            album: chars_vec("album/"),
        }
    }
}

fn spotify_at_exec(cs: &Vec<char>, pats: &SpotifyPatterns, i: usize) -> (r: Option<
    (SpotifyKind, usize),
>)
    requires
        pats.wf(),
        i <= cs@.len(),
    ensures
        r matches Some(kp) ==> spotify_at(cs@, i as int) == Some((kp.0, kp.1 as int)) && kp.1
            < cs@.len(),
        r is None ==> spotify_at(cs@, i as int) is None,
{
    proof {
        reveal_strlit("open.spotify.com/");
        reveal_strlit("track/");
        reveal_strlit("playlist/");
        reveal_strlit("album/");
    }
    let n = cs.len();
    if !match_at(cs, &pats.base, i) {
        return None;
    }
    if match_at(cs, &pats.track, i + 17) {
        if i + 23 < n && exec_is_alnum_char(cs[i + 23]) {
            return Some((SpotifyKind::Track, i + 23));
        }
        return None;
    }
    if match_at(cs, &pats.playlist, i + 17) {
        if i + 26 < n && exec_is_alnum_char(cs[i + 26]) {
            return Some((SpotifyKind::Playlist, i + 26));
        }
        return None;
    }
    if match_at(cs, &pats.album, i + 17) {
        if i + 23 < n && exec_is_alnum_char(cs[i + 23]) {
            return Some((SpotifyKind::Album, i + 23));
        }
        return None;
    }
    None
}

/// Parses the leftmost Spotify address in the query, as
/// `spec_parse_spotify_url` describes it.
pub fn parse_spotify_url(query: &str) -> (r: Option<SpotifyUrl>)
    ensures
        r matches Some(u) ==> spec_parse_spotify_url(query@) matches Some(m) && u@ == m,
        r is None ==> spec_parse_spotify_url(query@) is None,
{
    let cs = chars_vec(query);
    let pats = SpotifyPatterns::new();
    let n = cs.len();
    for i in 0..n
        invariant
            pats.wf(),
            n == cs@.len(),
            cs@ == query@,
            find_spotify(cs@, 0) == find_spotify(cs@, i as int),
    {
        match spotify_at_exec(&cs, &pats, i) {
            Some((kind, p)) => {
                proof {
                    assert(find_spotify(cs@, 0) == Some((kind, p as int)));
                }
                let e = alnum_run_end_exec(&cs, p);
                let id = string_from_range(&cs, p, e);
                return Some(
                    match kind {
                        SpotifyKind::Track => SpotifyUrl::Track(id),
                        SpotifyKind::Playlist => SpotifyUrl::Playlist(id),
                        SpotifyKind::Album => SpotifyUrl::Album(id),
                    },
                );
            },
            None => {},
        }
    }
    None
}

/// Whether the query holds a Spotify address.
pub fn is_spotify_url(query: &str) -> (r: bool)
    ensures
        r == (spec_parse_spotify_url(query@) is Some),
{
    match parse_spotify_url(query) {
        Some(_) => true,
        None => false,
    }
}

} // verus!

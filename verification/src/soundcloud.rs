//! What the SoundCloud provider decides: where the client id sits in a
//! script, whether a stored one is still fresh, how a search is asked for,
//! how a search record becomes a track, and which transcoding is streamed.
//! The requests themselves are made by the caller.
use vstd::prelude::*;

use crate::fs::{base_path_spec, cache_path_spec, join_path, join_spec};
use crate::random::{choose_string, thread_rng};
use crate::text::{decimal, push_decimal, str_chars, str_eq, string_from_chars};
use crate::track::{opt_str_view, transcodings_view, SoundCloudTrack, Transcoding, TranscodingFormat, TranscodingView, TrackView};

verus! {

/// Where SoundCloud's scripts write the client id: right after this text,
/// up to the next double quote.
pub const CLIENT_ID_MARKER: &'static str = ",client_id:\"";

/// How long a stored client id is trusted, in milliseconds (a week).
pub const CLIENT_ID_TTL_MS: i64 = 604800000;

/// How many tracks a search asks for when no limit is given.
pub const DEFAULT_SEARCH_LIMIT: u32 = 30;

/// Whether `pat` occurs in `s` at `i`.
pub open spec fn occurs_at(s: Seq<char>, pat: Seq<char>, i: int) -> bool {
    0 <= i && i + pat.len() <= s.len() && s.subrange(i, i + pat.len()) == pat
}

/// The first position at or after `i` where `pat` occurs in `s`.
pub open spec fn find_from(s: Seq<char>, pat: Seq<char>, i: int) -> Option<int>
    decreases s.len() - i,
{
    if i < 0 || i + pat.len() > s.len() {
        None
    } else if occurs_at(s, pat, i) {
        Some(i)
    } else if i >= s.len() {
        None
    } else {
        find_from(s, pat, i + 1)
    }
}

/// A position that `find_from` gives is an occurrence at or after the start.
pub proof fn lemma_find_from(s: Seq<char>, pat: Seq<char>, i: int)
    ensures
        find_from(s, pat, i) matches Some(r) ==> i <= r && occurs_at(s, pat, r),
    decreases s.len() - i,
{
    if i < 0 || i + pat.len() > s.len() {
    } else if occurs_at(s, pat, i) {
    } else if i >= s.len() {
    } else {
        lemma_find_from(s, pat, i + 1);
    }
}

/// The client id that a script holds: what stands between the first marker
/// and the next double quote, when that is not empty.
pub open spec fn client_id_in(text: Seq<char>) -> Option<Seq<char>> {
    match find_from(text, CLIENT_ID_MARKER@, 0) {
        None => None,
        Some(i) => {
            let start = i + CLIENT_ID_MARKER@.len();
            match find_from(text, seq!['"'], start) {
                None => None,
                Some(end) => if end == start {
                    None
                } else {
                    Some(text.subrange(start, end))
                },
            }
        },
    }
}

/// No occurrence of `pat` lies between the start and the position that
/// `find_from` gives.
pub proof fn lemma_find_first(s: Seq<char>, pat: Seq<char>, i: int, j: int)
    requires
        find_from(s, pat, i) matches Some(r) && i <= j < r,
    ensures
        !occurs_at(s, pat, j),
    decreases s.len() - i,
{
    if i < 0 || i + pat.len() > s.len() {
    } else if occurs_at(s, pat, i) {
    } else if i >= s.len() {
    } else if j > i {
        lemma_find_first(s, pat, i + 1, j);
    }
}

/// A client id found in a script is never empty and holds no double quote.
pub proof fn law_client_id_shape(text: Seq<char>)
    ensures
        client_id_in(text) matches Some(id) ==> id.len() > 0 && !id.contains('"'),
{
    if let Some(id) = client_id_in(text) {
        let i = find_from(text, CLIENT_ID_MARKER@, 0)->Some_0;
        let start = i + CLIENT_ID_MARKER@.len();
        let end = find_from(text, seq!['"'], start)->Some_0;
        lemma_find_from(text, seq!['"'], start);
        assert(id == text.subrange(start, end));
        if id.contains('"') {
            let k = choose|k: int| 0 <= k < id.len() && id[k] == '"';
            lemma_find_first(text, seq!['"'], start, start + k);
            assert(text.subrange(start + k, start + k + 1) =~= seq!['"']);
        }
    }
}

/// The first position at or after `from` where `pat` occurs in `s`.
fn find_chars(s: &Vec<char>, pat: &Vec<char>, from: usize) -> (r: Option<usize>)
    requires
        from <= s@.len(),
    ensures
        r is Some ==> find_from(s@, pat@, from as int) == Some(r.unwrap() as int),
        r is None ==> find_from(s@, pat@, from as int) is None,
{
    let n = s.len();
    let m = pat.len();
    if m > n {
        proof {
            assert(find_from(s@, pat@, from as int) is None);
        }
        return None;
    }
    let mut i = from;
    while i <= n - m
        invariant
            n == s@.len(),
            m == pat@.len(),
            m <= n,
            from <= i,
            find_from(s@, pat@, from as int) == find_from(s@, pat@, i as int),
        decreases n - i,
    {
        let mut j: usize = 0;
        let mut same = true;
        while j < m
            invariant
                n == s@.len(),
                m == pat@.len(),
                i + m <= n,
                j <= m,
                same == (forall|k: int| 0 <= k < j ==> s@[i + k] == pat@[k]),
            decreases m - j,
        {
            if s[i + j] != pat[j] {
                same = false;
            }
            j = j + 1;
        }
        if same {
            assert(s@.subrange(i as int, i + m) =~= pat@);
            return Some(i);
        }
        assert(!occurs_at(s@, pat@, i as int)) by {
            if occurs_at(s@, pat@, i as int) {
                assert forall|k: int| 0 <= k < m implies s@[i + k] == pat@[k] by {
                    assert(s@.subrange(i as int, i + m)[k] == s@[i + k]);
                }
            }
        }
        i = i + 1;
    }
    None
}

/// The client id that a script holds (see `client_id_in`).
pub fn extract_client_id(text: &str) -> (r: Option<String>)
    ensures
        r is Some <==> client_id_in(text@) is Some,
        r is Some ==> r.unwrap()@ == client_id_in(text@).unwrap(),
{
    let chars = str_chars(text);
    let marker = str_chars(CLIENT_ID_MARKER);
    proof {
        lemma_find_from(chars@, marker@, 0);
    }
    let idx = match find_chars(&chars, &marker, 0) {
        Some(i) => i,
        None => return None,
    };
    assert(occurs_at(chars@, marker@, idx as int));
    let _n = chars.len();
    let start = idx + marker.len();
    let mut quote: Vec<char> = Vec::new();
    quote.push('"');
    assert(quote@ =~= seq!['"']);
    proof {
        lemma_find_from(chars@, quote@, start as int);
    }
    let end = match find_chars(&chars, &quote, start) {
        Some(e) => e,
        None => return None,
    };
    if end == start {
        return None;
    }
    Some(string_from_chars(&chars, start, end))
}

/// Whether a script text was read and holds a client id.
pub open spec fn yields_client_id(text: Option<&str>) -> bool {
    match text {
        Some(t) => client_id_in(t@) is Some,
        None => false,
    }
}

/// Where the search for a client id goes after reading one script.
pub enum ClientIdStep {
    /// The script holds this client id: the search ends with it.
    Found(String),
    /// The script at this position is read next.
    Next(usize),
    /// No script is left: the search fails.
    Exhausted,
}

/// The search for a client id reads the page's scripts in order; this is
/// its decision once the script at `index` of `count` has been read (`None`
/// when its text could not be read): stop with the id it holds, else go on
/// to the next script, else give up.
pub fn client_id_step(count: usize, index: usize, text: Option<&str>) -> (r: ClientIdStep)
    requires
        index < count,
    ensures
        yields_client_id(text) ==> (r matches ClientIdStep::Found(id) && id@ == client_id_in(text.unwrap()@).unwrap()),
        !yields_client_id(text) && index + 1 < count ==> (r matches ClientIdStep::Next(j) && j == index + 1),
        !yields_client_id(text) && index + 1 >= count ==> r is Exhausted,
{
    if let Some(t) = text {
        if let Some(id) = extract_client_id(t) {
            return ClientIdStep::Found(id);
        }
    }
    if index + 1 < count {
        ClientIdStep::Next(index + 1)
    } else {
        ClientIdStep::Exhausted
    }
}

/// A stored client id and when it was obtained, in milliseconds since the
/// Unix epoch.
pub struct AuthorizationData {
    pub client_id: String,
    pub update_ts: i64,
}

/// Whether a client id obtained at `update_ts` may still be used at `now_ms`.
pub fn auth_is_fresh(now_ms: i64, update_ts: i64) -> (b: bool)
    requires
        i64::MIN <= now_ms - update_ts <= i64::MAX,
    ensures
        b == (now_ms - update_ts < CLIENT_ID_TTL_MS),
{
    now_ms - update_ts < CLIENT_ID_TTL_MS
}

/// `chrono::Utc::now().timestamp_millis()`: the current time in
/// milliseconds since the Unix epoch. It depends on the clock; nothing is
/// claimed of it.
#[verifier::external_body]
fn now_millis() -> i64 {
    chrono::Utc::now().timestamp_millis()
}

/// A client id, stamped with the current time.
pub fn stamp_authorization(client_id: String) -> (d: AuthorizationData)
    ensures
        d.client_id@ == client_id@,
{
    AuthorizationData { client_id, update_ts: now_millis() }
}

/// Whether a client id obtained at `update_ts` may be used at `now_ms`;
/// `None` when the time between does not fit in 64 bits.
pub open spec fn fresh_spec(now_ms: i64, update_ts: i64) -> Option<bool> {
    if i64::MIN <= now_ms - update_ts <= i64::MAX {
        Some(now_ms - update_ts < CLIENT_ID_TTL_MS)
    } else {
        None
    }
}

/// Whether a client id obtained at `update_ts` may be used at `now_ms`
/// (see `fresh_spec`).
pub fn fresh_at(now_ms: i64, update_ts: i64) -> (r: Option<bool>)
    ensures
        r == fresh_spec(now_ms, update_ts),
{
    if now_ms >= 0 && update_ts < 0 && now_ms > i64::MAX + update_ts {
        return None;
    }
    if now_ms < 0 && update_ts > 0 && now_ms < i64::MIN + update_ts {
        return None;
    }
    Some(auth_is_fresh(now_ms, update_ts))
}

/// Whether a stored client id may still be used now (see `fresh_spec`).
pub fn client_id_fresh(data: &AuthorizationData) -> (r: Option<bool>)
    ensures
        exists|now: i64| r == #[trigger] fresh_spec(now, data.update_ts),
{
    let now = now_millis();
    fresh_at(now, data.update_ts)
}

/// How many tracks a search from the search bar asks for.
pub const SEARCH_BAR_LIMIT: u32 = 50;

/// Options of a search.
pub struct SearchOptions {
    pub limit: u32,
}

/// How many tracks a search asks for.
pub fn search_limit(opts: Option<&SearchOptions>) -> (n: u32)
    ensures
        opts is Some ==> n == opts.unwrap().limit,
        opts is None ==> n == DEFAULT_SEARCH_LIMIT,
{
    match opts {
        Some(o) => o.limit,
        None => DEFAULT_SEARCH_LIMIT,
    }
}

/// The query parameters of a track search, in order.
pub open spec fn search_params_spec(query: Seq<char>, client_id: Seq<char>, limit: nat) -> Seq<(Seq<char>, Seq<char>)> {
    seq![
        ("q"@, query),
        ("client_id"@, client_id),
        ("limit"@, decimal(limit)),
        ("offset"@, "0"@),
        ("linked_partition"@, "1"@),
        ("app_locale"@, "vn"@),
    ]
}

/// The views of a list of string pairs.
pub open spec fn pairs_view(v: Seq<(String, String)>) -> Seq<(Seq<char>, Seq<char>)> {
    v.map_values(|p: (String, String)| (p.0@, p.1@))
}

fn pair(a: &str, b: String) -> (p: (String, String))
    ensures
        p.0@ == a@,
        p.1@ == b@,
{
    (String::from_str(a), b)
}

/// The query parameters of a track search (see `search_params_spec`).
pub fn search_params(query: &str, client_id: &str, opts: Option<&SearchOptions>) -> (r: Vec<(String, String)>)
    ensures
        pairs_view(r@) == search_params_spec(query@, client_id@, search_limit_spec(opts) as nat),
{
    let limit = search_limit(opts);
    let mut limit_text = String::new();
    push_decimal(&mut limit_text, limit as u64);
    let mut r: Vec<(String, String)> = Vec::new();
    r.push(pair("q", String::from_str(query)));
    r.push(pair("client_id", String::from_str(client_id)));
    r.push(pair("limit", limit_text));
    r.push(pair("offset", String::from_str("0")));
    r.push(pair("linked_partition", String::from_str("1")));
    r.push(pair("app_locale", String::from_str("vn")));
    assert(pairs_view(r@) =~= search_params_spec(query@, client_id@, search_limit_spec(opts) as nat));
    r
}

/// How many tracks a search asks for, as a value.
pub open spec fn search_limit_spec(opts: Option<&SearchOptions>) -> u32 {
    match opts {
        Some(o) => o.limit,
        None => DEFAULT_SEARCH_LIMIT,
    }
}

/// What a search result says of a transcoding; a field is `None` when the
/// result lacks it or holds something else than text.
pub struct TranscodingRecord {
    pub protocol: Option<String>,
    pub mime_type: Option<String>,
    pub url: Option<String>,
}

/// What a search result says of a track; a field is `None` when the result
/// lacks it or holds a value of another kind. The id may come as a number or
/// as text.
pub struct TrackRecord {
    pub id_number: Option<u64>,
    pub id_text: Option<String>,
    pub title: Option<String>,
    pub username: Option<String>,
    pub permalink_url: Option<String>,
    pub created_at: Option<String>,
    pub track_authorization: Option<String>,
    pub duration_ms: Option<u64>,
    pub transcodings: Option<Vec<TranscodingRecord>>,
}

/// The text of an optional field, or `default`.
pub open spec fn text_or(o: Option<String>, default: Seq<char>) -> Seq<char> {
    match o {
        Some(s) => s@,
        None => default,
    }
}

/// The transcoding that a record describes: missing texts become empty.
pub open spec fn transcoding_of(r: TranscodingRecord) -> TranscodingView {
    TranscodingView {
        mime_type: text_or(r.mime_type, Seq::empty()),
        protocol: text_or(r.protocol, Seq::empty()),
        url: text_or(r.url, Seq::empty()),
    }
}

/// The track that a search record describes: a missing title, artist or
/// date is "Unknown", a missing link empty; the id is the number written in
/// decimal, else the text, else the title; the duration is in whole seconds.
pub open spec fn track_of(r: TrackRecord) -> TrackView {
    let title = text_or(r.title, "Unknown"@);
    TrackView {
        id: match r.id_number {
            Some(n) => decimal(n as nat),
            None => text_or(r.id_text, title),
        },
        title,
        artist: text_or(r.username, "Unknown"@),
        permalink_url: text_or(r.permalink_url, Seq::empty()),
        duration: match r.duration_ms {
            Some(ms) => if ms > 0 { (ms / 1000) as u64 } else { 0 },
            None => 0,
        },
        created_at: text_or(r.created_at, "Unknown"@),
        track_authorization: opt_str_view(r.track_authorization),
        transcodings: match r.transcodings {
            Some(v) => Some(v@.map_values(|t: TranscodingRecord| transcoding_of(t))),
            None => None,
        },
    }
}

/// A record's duration in milliseconds becomes whole seconds, rounded down:
/// the track lasts `d` seconds exactly when the milliseconds reach `d`
/// seconds and fall short of `d + 1`. A record without a duration gives 0.
pub proof fn law_duration_from_millis(rec: TrackRecord)
    ensures
        rec.duration_ms matches Some(ms) ==> (track_of(rec).duration * 1000 <= ms && ms < (track_of(rec).duration + 1) * 1000),
        rec.duration_ms is None ==> track_of(rec).duration == 0,
{
    if let Some(ms) = rec.duration_ms {
        let d = track_of(rec).duration;
        assert(d == ms / 1000);
        assert((ms / 1000) * 1000 <= ms && ms < (ms / 1000 + 1) * 1000) by (nonlinear_arith);
    }
}

fn text_or_default(o: Option<String>, default: &str) -> (s: String)
    ensures
        s@ == text_or(o, default@),
{
    match o {
        Some(s) => s,
        None => String::from_str(default),
    }
}

/// The transcoding that a record describes (see `transcoding_of`).
pub fn transcoding_from_record(r: TranscodingRecord) -> (t: Transcoding)
    ensures
        t@ == transcoding_of(r),
{
    proof {
        reveal_strlit("");
        assert(""@ =~= Seq::<char>::empty());
    }
    Transcoding {
        format: TranscodingFormat {
            protocol: text_or_default(r.protocol, ""),
            mime_type: text_or_default(r.mime_type, ""),
        },
        url: text_or_default(r.url, ""),
    }
}

/// The track that a search record describes (see `track_of`).
pub fn track_from_record(r: TrackRecord) -> (t: SoundCloudTrack)
    ensures
        t@ == track_of(r),
        r.duration_ms matches Some(ms) ==> (t.duration * 1000 <= ms && ms < (t.duration + 1) * 1000),
        r.duration_ms is None ==> t.duration == 0,
{
    proof {
        reveal_strlit("");
        assert(""@ =~= Seq::<char>::empty());
    }
    let title = text_or_default(r.title, "Unknown");
    let id = match r.id_number {
        Some(n) => {
            let mut s = String::new();
            push_decimal(&mut s, n);
            s
        },
        None => match r.id_text {
            Some(s) => s,
            None => title.clone(),
        },
    };
    let duration = match r.duration_ms {
        Some(ms) => if ms > 0 { ms / 1000 } else { 0 },
        None => 0,
    };
    proof {
        law_duration_from_millis(r);
    }
    let transcodings = match r.transcodings {
        Some(v) => {
            let ghost gv = v@;
            let mut v = v;
            let mut out: Vec<Transcoding> = Vec::new();
            let n = v.len();
            let mut i: usize = 0;
            while i < n
                invariant
                    n == gv.len(),
                    i <= n,
                    v@ == gv.subrange(i as int, n as int),
                    out@.len() == i,
                    forall|j: int| 0 <= j < i ==> #[trigger] out@[j]@ == transcoding_of(gv[j]),
                decreases n - i,
            {
                let rec = v.remove(0);
                assert(rec == gv[i as int]);
                out.push(transcoding_from_record(rec));
                i = i + 1;
                assert(v@ =~= gv.subrange(i as int, n as int));
            }
            assert(transcodings_view(out@) =~= gv.map_values(|t: TranscodingRecord| transcoding_of(t)));
            Some(out)
        },
        None => None,
    };
    let t = SoundCloudTrack {
        id,
        title,
        artist: text_or_default(r.username, "Unknown"),
        permalink_url: text_or_default(r.permalink_url, ""),
        duration,
        created_at: text_or_default(r.created_at, "Unknown"),
        track_authorization: r.track_authorization,
        transcodings,
    };
    t
}

/// The tracks that a list of search records describes.
pub fn tracks_from_records(records: Vec<TrackRecord>) -> (r: Vec<SoundCloudTrack>)
    ensures
        r@.len() == records@.len(),
        forall|i: int| 0 <= i < r@.len() ==> #[trigger] r@[i]@ == track_of(records@[i]),
{
    let ghost g = records@;
    let mut records = records;
    let mut out: Vec<SoundCloudTrack> = Vec::new();
    let n = records.len();
    let mut i: usize = 0;
    while i < n
        invariant
            n == g.len(),
            i <= n,
            records@ == g.subrange(i as int, n as int),
            out@.len() == i,
            forall|j: int| 0 <= j < i ==> #[trigger] out@[j]@ == track_of(g[j]),
        decreases n - i,
    {
        let rec = records.remove(0);
        assert(rec == g[i as int]);
        out.push(track_from_record(rec));
        i = i + 1;
        assert(records@ =~= g.subrange(i as int, n as int));
    }
    out
}

/// The address of the first transcoding that streams progressively.
pub open spec fn progressive_url_in(ts: Seq<TranscodingView>) -> Option<Seq<char>>
    decreases ts.len(),
{
    if ts.len() == 0 {
        None
    } else if ts[0].protocol == "progressive"@ {
        Some(ts[0].url)
    } else {
        progressive_url_in(ts.drop_first())
    }
}

/// Why no stream could be asked for.
#[derive(Debug, PartialEq, Eq, Structural)]
pub enum StreamError {
    /// No transcoding streams progressively.
    NoProgressiveStream,
    /// The track carries no authorization.
    NoTrackAuthorization,
    /// The service's answer holds no stream address.
    NoStreamUrl,
}

impl StreamError {
    /// The message of the error.
    pub fn message(&self) -> (s: &'static str)
        ensures
            *self == StreamError::NoProgressiveStream ==> s@ == "no progressive stream url found"@,
            *self == StreamError::NoTrackAuthorization ==> s@ == "no track authorization found"@,
            *self == StreamError::NoStreamUrl ==> s@ == "stream url not found in response"@,
    {
        match self {
            StreamError::NoProgressiveStream => "no progressive stream url found",
            StreamError::NoTrackAuthorization => "no track authorization found",
            StreamError::NoStreamUrl => "stream url not found in response",
        }
    }
}

/// The address of the first transcoding of the track that streams
/// progressively.
pub fn progressive_url(track: &SoundCloudTrack) -> (r: Option<String>)
    ensures
        track@.transcodings is None ==> r is None,
        track@.transcodings matches Some(ts) ==> {
            &&& (r is Some <==> progressive_url_in(ts) is Some)
            &&& r is Some ==> r.unwrap()@ == progressive_url_in(ts).unwrap()
        },
{
    match &track.transcodings {
        None => None,
        Some(v) => {
            let ghost ts = transcodings_view(v@);
            let n = v.len();
            let mut i: usize = 0;
            assert(ts.subrange(0, n as int) =~= ts);
            while i < n
                invariant
                    n == v@.len(),
                    ts == transcodings_view(v@),
                    track@.transcodings == Some(ts),
                    i <= n,
                    progressive_url_in(ts) == progressive_url_in(ts.subrange(i as int, n as int)),
                decreases n - i,
            {
                let ghost rest = ts.subrange(i as int, n as int);
                assert(rest[0] == v@[i as int]@);
                assert(rest.drop_first() =~= ts.subrange(i + 1, n as int));
                if str_eq(v[i].format.protocol.as_str(), "progressive") {
                    return Some(v[i].url.clone());
                }
                i = i + 1;
            }
            assert(ts.subrange(n as int, n as int).len() == 0);
            None
        },
    }
}

/// The stream address and the authorization to ask the service with: the
/// first progressive transcoding, and the track's authorization.
pub fn stream_request(track: &SoundCloudTrack) -> (r: Result<(String, String), StreamError>)
    ensures
        track@.transcodings is None ==> r == Err::<(String, String), StreamError>(StreamError::NoProgressiveStream),
        track@.transcodings matches Some(ts) ==> {
            &&& progressive_url_in(ts) is None ==> r == Err::<(String, String), StreamError>(StreamError::NoProgressiveStream)
            &&& progressive_url_in(ts) is Some && track.track_authorization is None ==> r == Err::<(String, String), StreamError>(StreamError::NoTrackAuthorization)
            &&& progressive_url_in(ts) is Some && track.track_authorization is Some ==> {
                &&& r is Ok
                &&& r.unwrap().0@ == progressive_url_in(ts).unwrap()
                &&& r.unwrap().1@ == track.track_authorization.unwrap()@
            }
        },
{
    let url = match progressive_url(track) {
        Some(u) => u,
        None => return Err(StreamError::NoProgressiveStream),
    };
    let auth = match &track.track_authorization {
        Some(a) => a.clone(),
        None => return Err(StreamError::NoTrackAuthorization),
    };
    Ok((url, auth))
}

/// The stream that the service's answer points to.
pub fn stream_meta(url: Option<String>) -> (r: Result<crate::track::TrackStreamMeta, StreamError>)
    ensures
        url is None ==> r is Err && r->Err_0 == StreamError::NoStreamUrl,
        url is Some ==> r is Ok && r->Ok_0.url@ == url.unwrap()@,
{
    match url {
        Some(u) => Ok(crate::track::TrackStreamMeta { url: u }),
        None => Err(StreamError::NoStreamUrl),
    }
}

/// The provider's cache directory, given the player's: `soundcloud` in it.
pub fn cache_path_from(player_cache: &str) -> (r: String)
    ensures
        r@ == join_spec(player_cache@, "soundcloud"@),
{
    join_path(player_cache, "soundcloud")
}

/// The provider's cache directory.
pub fn get_cache_path() -> (r: String)
    ensures
        exists|c: Option<String>, b: Option<String>| r@ == join_spec(cache_path_spec(c, base_path_spec(b)), "soundcloud"@),
{
    let player_cache = crate::fs::get_cache_path();
    cache_path_from(player_cache.as_str())
}

/// The file that keeps the client id, given the provider's cache directory:
/// `auth/config.json` in it.
pub fn auth_file_path_from(provider_cache: &str) -> (r: String)
    ensures
        r@ == join_spec(join_spec(provider_cache@, "auth"@), "config.json"@),
{
    let dir = join_path(provider_cache, "auth");
    join_path(dir.as_str(), "config.json")
}

/// The headers of every request of a session: a browser's user agent and
/// an accepted language, each picked at random from the given lists, and the
/// accepted encodings and a kept-alive connection.
pub fn ss_headers(user_agents: &Vec<String>, accept_languages: &Vec<String>) -> (r: Vec<(String, String)>)
    requires
        user_agents@.len() > 0,
        accept_languages@.len() > 0,
    ensures
        r@.len() == 4,
        r@[0].0@ == "User-Agent"@,
        exists|i: int| 0 <= i < user_agents@.len() && #[trigger] user_agents@[i]@ == r@[0].1@,
        r@[1].0@ == "Accept-Language"@,
        exists|i: int| 0 <= i < accept_languages@.len() && #[trigger] accept_languages@[i]@ == r@[1].1@,
        r@[2].0@ == "Accept-Encoding"@,
        r@[2].1@ == "gzip, deflate, br"@,
        r@[3].0@ == "Connection"@,
        r@[3].1@ == "keep-alive"@,
{
    let mut rng = thread_rng();
    let ua = match choose_string(user_agents, &mut rng) {
        Some(u) => u.clone(),
        None => String::new(),
    };
    let lang = match choose_string(accept_languages, &mut rng) {
        Some(l) => l.clone(),
        None => String::new(),
    };
    let mut r: Vec<(String, String)> = Vec::new();
    r.push(pair("User-Agent", ua));
    r.push(pair("Accept-Language", lang));
    r.push(pair("Accept-Encoding", String::from_str("gzip, deflate, br")));
    r.push(pair("Connection", String::from_str("keep-alive")));
    r
}

/// What `scraper` gives for an HTML document, a CSS selector and an attribute
/// name, through four of its calls together: the document parsed by
/// `Html::parse_document`, the selector parsed by `Selector::parse`, the
/// elements that `Html::select` yields for it, in document order, and for each
/// the attribute read by `Element::attr` (`None` where an element lacks it).
/// `None` as a whole when the selector does not parse.
pub uninterp spec fn selected_attrs(html: Seq<char>, selector: Seq<char>, attr: Seq<char>) -> Option<Seq<Option<Seq<char>>>>;

/// The views of a list of optional strings.
pub open spec fn opt_strings_view(v: Seq<Option<String>>) -> Seq<Option<Seq<char>>> {
    v.map_values(|o: Option<String>| opt_str_view(o))
}

/// `scraper`: the document is parsed (`Html::parse_document`), the selector
/// too (`Selector::parse`), and for each element that `Html::select` yields,
/// `attr` of the element's value is read. The outcome is named by
/// `selected_attrs`, a function of the three texts alone; what HTML parsing
/// and selector matching do is not stated here.
#[verifier::external_body]
fn select_attrs(html: &str, selector: &str, attr: &str) -> (r: Result<Vec<Option<String>>, ()>)
    ensures
        r is Ok <==> selected_attrs(html@, selector@, attr@) is Some,
        r is Ok ==> opt_strings_view(r.unwrap()@) == selected_attrs(html@, selector@, attr@).unwrap(),
{
    let doc = scraper::Html::parse_document(html);
    match scraper::Selector::parse(selector) {
        Ok(sel) => Ok(doc.select(&sel).map(|e| e.value().attr(attr).map(String::from)).collect()),
        Err(_) => Err(()),
    }
}

/// The present values of a list of optional texts, in order.
pub open spec fn present(v: Seq<Option<Seq<char>>>) -> Seq<Seq<char>>
    decreases v.len(),
{
    if v.len() == 0 {
        Seq::empty()
    } else {
        match v.last() {
            Some(x) => present(v.drop_last()).push(x),
            None => present(v.drop_last()),
        }
    }
}

/// The present values of a list of optional strings, in order.
pub fn present_values(v: Vec<Option<String>>) -> (r: Vec<String>)
    ensures
        r@.map_values(|s: String| s@) == present(opt_strings_view(v@)),
{
    let ghost g = opt_strings_view(v@);
    let ghost gv = v@;
    let mut v = v;
    let mut out: Vec<String> = Vec::new();
    let n = v.len();
    let mut i: usize = 0;
    while i < n
        invariant
            n == gv.len(),
            g == opt_strings_view(gv),
            i <= n,
            v@ == gv.subrange(i as int, n as int),
            out@.map_values(|s: String| s@) == present(g.subrange(0, i as int)),
        decreases n - i,
    {
        let x = v.remove(0);
        assert(x == gv[i as int]);
        assert(g.subrange(0, i + 1).drop_last() =~= g.subrange(0, i as int));
        assert(g.subrange(0, i + 1).last() == opt_str_view(x));
        match x {
            Some(s) => {
                out.push(s);
            },
            None => {},
        }
        assert(out@.map_values(|s: String| s@) =~= present(g.subrange(0, i + 1)));
        i = i + 1;
        assert(v@ =~= gv.subrange(i as int, n as int));
    }
    assert(g.subrange(0, n as int) =~= g);
    out
}

/// Why the scripts of SoundCloud's page could not be listed.
#[derive(Debug, PartialEq, Eq, Structural)]
pub enum ScrapeError {
    SelectorParse,
}

impl ScrapeError {
    /// The message of the error.
    pub fn message(&self) -> (s: &'static str)
        ensures
            s@ == "selector parse error"@,
    {
        "selector parse error"
    }
}

/// The selector of the scripts that may hold the client id.
pub const SCRIPT_SELECTOR: &'static str = "script[crossorigin]";

/// The addresses of the cross-origin scripts of a page, in document order.
pub fn script_urls(html: &str) -> (r: Result<Vec<String>, ScrapeError>)
    ensures
        selected_attrs(html@, SCRIPT_SELECTOR@, "src"@) is None ==> r == Err::<Vec<String>, ScrapeError>(ScrapeError::SelectorParse),
        selected_attrs(html@, SCRIPT_SELECTOR@, "src"@) is Some ==> {
            &&& r is Ok
            &&& r.unwrap()@.map_values(|s: String| s@) == present(selected_attrs(html@, SCRIPT_SELECTOR@, "src"@).unwrap())
        },
{
    match select_attrs(html, SCRIPT_SELECTOR, "src") {
        Ok(v) => Ok(present_values(v)),
        Err(_) => Err(ScrapeError::SelectorParse),
    }
}

/// Why a search gave no tracks.
#[derive(Debug, PartialEq, Eq, Structural)]
pub enum SearchError {
    /// The answer holds no list of results.
    NoCollection,
}

impl SearchError {
    /// The message of the error.
    pub fn message(&self) -> (s: &'static str)
        ensures
            s@ == "no collection in search response"@,
    {
        "no collection in search response"
    }
}

/// The tracks of a search answer, given its list of results if it has one.
pub fn search_tracks(collection: Option<Vec<TrackRecord>>) -> (r: Result<Vec<SoundCloudTrack>, SearchError>)
    ensures
        collection is None ==> r == Err::<Vec<SoundCloudTrack>, SearchError>(SearchError::NoCollection),
        collection is Some ==> {
            &&& r is Ok
            &&& r.unwrap()@.len() == collection.unwrap()@.len()
            &&& forall|i: int| 0 <= i < r.unwrap()@.len() ==> #[trigger] r.unwrap()@[i]@ == track_of(collection.unwrap()@[i])
        },
{
    match collection {
        Some(records) => Ok(tracks_from_records(records)),
        None => Err(SearchError::NoCollection),
    }
}

} // verus!

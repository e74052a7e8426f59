//! The tracks that the player lists, queues and plays.
use vstd::prelude::*;

verus! {

/// The services that tracks come from.
#[derive(Debug, Clone, Copy, PartialEq, Eq, Structural)]
pub enum ProviderType {
    SoundCloud,
}

impl ProviderType {
    /// The name of the service, as the board shows it.
    pub fn name(&self) -> (s: &'static str)
        ensures
            s@ == "SoundCloud"@,
    {
        proof {
            reveal_strlit("SoundCloud");
        }
        match self {
            ProviderType::SoundCloud => "SoundCloud",
        }
    }
}

/// Where the audio of a track can be streamed from.
pub struct TrackStreamMeta {
    pub url: String,
}

/// The format of one transcoding that SoundCloud offers for a track.
#[derive(Debug)]
pub struct TranscodingFormat {
    pub mime_type: String,
    pub protocol: String,
}

/// One transcoding of a track: its format and the address that resolves it.
#[derive(Debug)]
pub struct Transcoding {
    pub format: TranscodingFormat,
    pub url: String,
}

/// A track found on SoundCloud. Its duration is held in whole seconds.
#[derive(Debug)]
pub struct SoundCloudTrack {
    pub id: String,
    pub title: String,
    pub artist: String,
    pub permalink_url: String,
    pub duration: u64,
    pub created_at: String,
    pub track_authorization: Option<String>,
    pub transcodings: Option<Vec<Transcoding>>,
}

/// What a transcoding holds, as plain values.
pub struct TranscodingView {
    pub mime_type: Seq<char>,
    pub protocol: Seq<char>,
    pub url: Seq<char>,
}

/// What a track holds, as plain values.
pub struct TrackView {
    pub id: Seq<char>,
    pub title: Seq<char>,
    pub artist: Seq<char>,
    pub permalink_url: Seq<char>,
    pub duration: u64,
    pub created_at: Seq<char>,
    pub track_authorization: Option<Seq<char>>,
    pub transcodings: Option<Seq<TranscodingView>>,
}

impl View for Transcoding {
    type V = TranscodingView;

    open spec fn view(&self) -> TranscodingView {
        TranscodingView {
            mime_type: self.format.mime_type@,
            protocol: self.format.protocol@,
            url: self.url@,
        }
    }
}

/// The views of a list of transcodings.
pub open spec fn transcodings_view(v: Seq<Transcoding>) -> Seq<TranscodingView> {
    v.map_values(|t: Transcoding| t@)
}

/// The view of an optional string.
pub open spec fn opt_str_view(o: Option<String>) -> Option<Seq<char>> {
    match o {
        Some(s) => Some(s@),
        None => None,
    }
}

impl View for SoundCloudTrack {
    type V = TrackView;

    open spec fn view(&self) -> TrackView {
        TrackView {
            id: self.id@,
            title: self.title@,
            artist: self.artist@,
            permalink_url: self.permalink_url@,
            duration: self.duration,
            created_at: self.created_at@,
            track_authorization: opt_str_view(self.track_authorization),
            transcodings: match self.transcodings {
                Some(v) => Some(transcodings_view(v@)),
                None => None,
            },
        }
    }
}

impl Clone for TranscodingFormat {
    fn clone(&self) -> (r: Self)
        ensures
            r.mime_type@ == self.mime_type@,
            r.protocol@ == self.protocol@,
    {
        TranscodingFormat { mime_type: self.mime_type.clone(), protocol: self.protocol.clone() }
    }
}

impl Clone for Transcoding {
    fn clone(&self) -> (r: Self)
        ensures
            r@ == self@,
    {
        Transcoding { format: self.format.clone(), url: self.url.clone() }
    }
}

fn copy_transcodings(v: &Vec<Transcoding>) -> (r: Vec<Transcoding>)
    ensures
        transcodings_view(r@) == transcodings_view(v@),
{
    let mut r: Vec<Transcoding> = Vec::new();
    let mut i: usize = 0;
    while i < v.len()
        invariant
            i <= v.len(),
            r@.len() == i,
            forall|j: int| 0 <= j < i ==> #[trigger] r@[j]@ == v@[j]@,
        decreases v.len() - i,
    {
        r.push(v[i].clone());
        i = i + 1;
    }
    assert(transcodings_view(r@) =~= transcodings_view(v@));
    r
}

fn copy_opt_string(o: &Option<String>) -> (r: Option<String>)
    ensures
        opt_str_view(r) == opt_str_view(*o),
{
    match o {
        Some(s) => Some(s.clone()),
        None => None,
    }
}

impl Clone for SoundCloudTrack {
    fn clone(&self) -> (r: Self)
        ensures
            r@ == self@,
    {
        let transcodings = match &self.transcodings {
            Some(v) => Some(copy_transcodings(v)),
            None => None,
        };
        SoundCloudTrack {
            id: self.id.clone(),
            title: self.title.clone(),
            artist: self.artist.clone(),
            permalink_url: self.permalink_url.clone(),
            duration: self.duration,
            created_at: self.created_at.clone(),
            track_authorization: copy_opt_string(&self.track_authorization),
            transcodings,
        }
    }
}

/// What every track offers the player and the board.
pub trait Track {
    fn provider(&self) -> ProviderType;

    fn id(&self) -> &str;

    fn url(&self) -> &str;

    fn title(&self) -> &str;

    fn artist(&self) -> &str;

    /// The length of the track in whole seconds.
    fn duration(&self) -> u64;

    /// A stream that is already known, without asking the service.
    fn stream(&self) -> Option<TrackStreamMeta>;
}

impl Track for SoundCloudTrack {
    fn provider(&self) -> (p: ProviderType)
        ensures
            p == ProviderType::SoundCloud,
    {
        ProviderType::SoundCloud
    }

    fn id(&self) -> (s: &str)
        ensures
            s@ == self.id@,
    {
        self.id.as_str()
    }

    fn url(&self) -> (s: &str)
        ensures
            s@ == self.permalink_url@,
    {
        self.permalink_url.as_str()
    }

    fn title(&self) -> (s: &str)
        ensures
            s@ == self.title@,
    {
        self.title.as_str()
    }

    fn artist(&self) -> (s: &str)
        ensures
            s@ == self.artist@,
    {
        self.artist.as_str()
    }

    fn duration(&self) -> (d: u64)
        ensures
            d == self.duration,
    {
        self.duration
    }

    fn stream(&self) -> (s: Option<TrackStreamMeta>)
        ensures
            s is None,
    {
        None
    }
}

/// The views of a list of tracks.
pub open spec fn tracks_view(v: Seq<SoundCloudTrack>) -> Seq<TrackView> {
    v.map_values(|t: SoundCloudTrack| t@)
}

} // verus!

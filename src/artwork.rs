use vstd::prelude::*;
use vstd::string::*;

use crate::album::ArtworkState;
use crate::providers::{
    ALBUM_LINK_PREFIX,
    album_cover_url, album_info_url, artist_picture_url, bearer_value, cover_file_name,
    dashes_to_slashes, embedded_album_id, has_embedded_id, image_extension, is_embedded_id,
    is_extension, release_images_url, release_search_url, search_term, ALBUM_COVER_FILE,
    ALBUM_ENDPOINT, ALBUM_QUERY, ARTIST_PICTURE_FILE, BEARER, COVER_STEM, IMAGE_HOST,
    RELEASE_IMAGES, RELEASE_SEARCH, RELEASE_SEARCH_END, RELEASE_SEARCH_TITLE,
};

verus! {

/// A network step that resolving artwork asks the caller to carry out.
pub enum Request {
    /// Album metadata from the authenticated catalog, sent with an
    /// authorization header. The caller replies with `Reply::AlbumInfo`.
    AlbumInfo { url: String, authorization: String },
    /// A release search of the open provider. The caller replies with the
    /// identifier of the first release found, as `Reply::Found`.
    ReleaseSearch { url: String },
    /// The image listing of a release. The caller replies with the address of
    /// the first image, as `Reply::Found`.
    ReleaseImages { url: String },
    /// An image to save into the album directory under `file_name`. The
    /// caller replies with `Reply::Saved`.
    Download { url: String, file_name: String },
}

/// A request, over character sequences.
pub enum RequestView {
    AlbumInfo { url: Seq<char>, authorization: Seq<char> },
    ReleaseSearch { url: Seq<char> },
    ReleaseImages { url: Seq<char> },
    Download { url: Seq<char>, file_name: Seq<char> },
}

impl View for Request {
    type V = RequestView;

    open spec fn view(&self) -> RequestView {
        match self {
            Request::AlbumInfo { url, authorization } => RequestView::AlbumInfo {
                url: url@,
                authorization: authorization@,
            },
            Request::ReleaseSearch { url } => RequestView::ReleaseSearch { url: url@ },
            Request::ReleaseImages { url } => RequestView::ReleaseImages { url: url@ },
            Request::Download { url, file_name } => RequestView::Download {
                url: url@,
                file_name: file_name@,
            },
        }
    }
}

/// The outcome of a request. A step that failed (transport, decoding, a
/// missing field) is reported as finding nothing or saving nothing.
pub enum Reply {
    /// The artist picture and album cover identifiers of the album metadata.
    AlbumInfo { picture: Option<String>, cover: Option<String> },
    /// The value that a search or listing yielded.
    Found(Option<String>),
    /// Whether a downloaded image was saved.
    Saved(bool),
}

/// A reply, over character sequences.
pub enum ReplyView {
    AlbumInfo { picture: Option<Seq<char>>, cover: Option<Seq<char>> },
    Found(Option<Seq<char>>),
    Saved(bool),
}

impl View for Reply {
    type V = ReplyView;

    open spec fn view(&self) -> ReplyView {
        match self {
            Reply::AlbumInfo { picture, cover } => ReplyView::AlbumInfo {
                picture: picture.deep_view(),
                cover: cover.deep_view(),
            },
            Reply::Found(v) => ReplyView::Found(v.deep_view()),
            Reply::Saved(b) => ReplyView::Saved(*b),
        }
    }
}

/// The request that a resolution waits on.
#[derive(PartialEq, Eq, Structural)]
pub enum Phase {
    AlbumInfo,
    ArtistPicture,
    CatalogCover,
    ReleaseSearch,
    ReleaseImages,
    FallbackCover,
    Done,
}

/// The resolution of one album's missing artwork through the provider chain.
pub struct ArtworkJob {
    pub has_album_cover: bool,
    pub has_artist_picture: bool,
    /// Artwork was wanted and an access token was at hand.
    pub authenticated: bool,
    /// Some image was written into the album directory.
    pub wrote_any: bool,
    /// A cover was written into the album directory.
    pub cover_obtained: bool,
    /// The catalog cover identifier that waits for its download.
    pub pending_cover: Option<String>,
    pub phase: Phase,
    pub artist: String,
    pub album: String,
}

/// A resolution, over plain values.
pub struct JobView {
    pub has_album_cover: bool,
    pub has_artist_picture: bool,
    pub authenticated: bool,
    pub wrote_any: bool,
    pub cover_obtained: bool,
    pub pending_cover: Option<Seq<char>>,
    pub phase: Phase,
    pub artist: Seq<char>,
    pub album: Seq<char>,
}

impl View for ArtworkJob {
    type V = JobView;

    open spec fn view(&self) -> JobView {
        JobView {
            has_album_cover: self.has_album_cover,
            has_artist_picture: self.has_artist_picture,
            authenticated: self.authenticated,
            wrote_any: self.wrote_any,
            cover_obtained: self.cover_obtained,
            pending_cover: self.pending_cover.deep_view(),
            phase: self.phase,
            artist: self.artist@,
            album: self.album@,
        }
    }
}

/// Artwork is resolved only when asked for and some of it is missing.
pub open spec fn wants_artwork(fetch_covers: bool, state: ArtworkState) -> bool {
    fetch_covers && (!state.has_album_cover || !state.has_artist_picture)
}

/// The identifier embedded in an album link (meaningful where it has one).
pub open spec fn album_id(d: Seq<char>) -> Seq<char> {
    choose|id: Seq<char>| is_embedded_id(d, id)
}

/// The download of a catalog image.
pub open spec fn catalog_download(id: Seq<char>, size: Seq<char>, file_name: Seq<char>) -> RequestView {
    RequestView::Download { url: IMAGE_HOST@ + dashes_to_slashes(id) + size, file_name }
}

/// The release search for the job's artist and album.
pub open spec fn search_request(j: JobView) -> RequestView {
    RequestView::ReleaseSearch {
        url: RELEASE_SEARCH@ + search_term(j.artist) + RELEASE_SEARCH_TITLE@ + search_term(j.album)
            + RELEASE_SEARCH_END@,
    }
}

/// Moves to the open provider: it runs only while the album still lacks a cover.
pub open spec fn to_fallback(j: JobView) -> (JobView, Option<RequestView>) {
    if !j.has_album_cover && !j.cover_obtained {
        (JobView { phase: Phase::ReleaseSearch, ..j }, Some(search_request(j)))
    } else {
        (JobView { phase: Phase::Done, ..j }, None)
    }
}

/// Moves to the catalog cover, if one is pending, else to the open provider.
pub open spec fn to_catalog_cover(j: JobView) -> (JobView, Option<RequestView>) {
    match j.pending_cover {
        Some(c) => (
            JobView { phase: Phase::CatalogCover, pending_cover: None, ..j },
            Some(catalog_download(c, ALBUM_COVER_FILE@, "cover.jpg"@)),
        ),
        None => to_fallback(j),
    }
}

/// The first step of a resolution.
pub open spec fn begun(
    fetch_covers: bool,
    state: ArtworkState,
    token: Option<Seq<char>>,
    description: Option<Seq<char>>,
    artist: Seq<char>,
    album: Seq<char>,
) -> (JobView, Option<RequestView>) {
    let linked = token is Some && description is Some && has_embedded_id(description->0);
    let j = JobView {
        has_album_cover: state.has_album_cover,
        has_artist_picture: state.has_artist_picture,
        authenticated: wants_artwork(fetch_covers, state) && token is Some,
        wrote_any: false,
        cover_obtained: false,
        pending_cover: None,
        phase: Phase::AlbumInfo,
        artist,
        album,
    };
    if !wants_artwork(fetch_covers, state) {
        (JobView { phase: Phase::Done, ..j }, None)
    } else if linked {
        (
            j,
            Some(
                RequestView::AlbumInfo {
                    url: ALBUM_ENDPOINT@ + album_id(description->0) + ALBUM_QUERY@,
                    authorization: BEARER@ + token->0,
                },
            ),
        )
    } else {
        to_fallback(j)
    }
}

/// One step of a resolution: the state and request that follow a reply. A
/// reply of another kind than the phase waits on counts as a failed step.
pub open spec fn stepped(j: JobView, reply: ReplyView) -> (JobView, Option<RequestView>) {
    match j.phase {
        Phase::AlbumInfo => {
            let (picture, cover) = match reply {
                ReplyView::AlbumInfo { picture, cover } => (picture, cover),
                _ => (None, None),
            };
            let j2 = JobView { pending_cover: if j.has_album_cover { None } else { cover }, ..j };
            if !j.has_artist_picture && picture is Some {
                (
                    JobView { phase: Phase::ArtistPicture, ..j2 },
                    Some(catalog_download(picture->0, ARTIST_PICTURE_FILE@, "artist.jpg"@)),
                )
            } else {
                to_catalog_cover(j2)
            }
        },
        Phase::ArtistPicture => {
            let saved = reply == ReplyView::Saved(true);
            to_catalog_cover(JobView { wrote_any: j.wrote_any || saved, ..j })
        },
        Phase::CatalogCover => {
            let saved = reply == ReplyView::Saved(true);
            to_fallback(JobView { wrote_any: j.wrote_any || saved, cover_obtained: saved, ..j })
        },
        Phase::ReleaseSearch => match reply {
            ReplyView::Found(Some(id)) => (
                JobView { phase: Phase::ReleaseImages, ..j },
                Some(RequestView::ReleaseImages { url: RELEASE_IMAGES@ + id }),
            ),
            _ => (JobView { phase: Phase::Done, ..j }, None),
        },
        Phase::ReleaseImages => match reply {
            ReplyView::Found(Some(u)) => if exists|k: int| 0 <= k < u.len() && u[k] == '.' {
                (
                    JobView { phase: Phase::FallbackCover, ..j },
                    Some(
                        RequestView::Download {
                            url: u,
                            file_name: COVER_STEM@ + choose|e: Seq<char>| is_extension(u, e),
                        },
                    ),
                )
            } else {
                (JobView { phase: Phase::Done, ..j }, None)
            },
            _ => (JobView { phase: Phase::Done, ..j }, None),
        },
        Phase::FallbackCover => {
            let saved = reply == ReplyView::Saved(true);
            (
                JobView {
                    phase: Phase::Done,
                    wrote_any: j.wrote_any || saved,
                    cover_obtained: j.cover_obtained || saved,
                    ..j
                },
                None,
            )
        },
        Phase::Done => (j, None),
    }
}

/// An optional request, over character sequences.
pub open spec fn opt_view(r: Option<Request>) -> Option<RequestView> {
    match r {
        Some(q) => Some(q@),
        None => None,
    }
}

/// The characters of an optional string.
pub open spec fn opt_chars(o: Option<&str>) -> Option<Seq<char>> {
    match o {
        Some(s) => Some(s@),
        None => None,
    }
}

/// An album link embeds one identifier at most.
pub proof fn lemma_embedded_id_unique(d: Seq<char>, a: Seq<char>, b: Seq<char>)
    requires
        is_embedded_id(d, a),
        is_embedded_id(d, b),
    ensures
        a == b,
{
    let p: int = ALBUM_LINK_PREFIX@.len() as int;
    if a.len() < b.len() {
        assert(b[a.len() as int] == d.subrange(p, p + b.len())[a.len() as int]);
    } else if b.len() < a.len() {
        assert(a[b.len() as int] == d.subrange(p, p + a.len())[b.len() as int]);
    }
    assert(a =~= b);
}

/// An address has one extension at most.
pub proof fn lemma_extension_unique(u: Seq<char>, a: Seq<char>, b: Seq<char>)
    requires
        is_extension(u, a),
        is_extension(u, b),
    ensures
        a == b,
{
    let n = u.len();
    if a.len() < b.len() {
        assert(b[b.len() - a.len() - 1] == u.subrange(n - b.len(), n as int)[b.len() - a.len() - 1]);
    } else if b.len() < a.len() {
        assert(a[a.len() - b.len() - 1] == u.subrange(n - a.len(), n as int)[a.len() - b.len() - 1]);
    }
    assert(a =~= b);
}

/// With covers not asked for, no request is ever issued: the resolution starts
/// done, whatever artwork the album holds, and stays so whatever it is handed.
pub proof fn lemma_no_fetch_no_request(
    state: ArtworkState,
    token: Option<Seq<char>>,
    description: Option<Seq<char>>,
    artist: Seq<char>,
    album: Seq<char>,
    reply: ReplyView,
)
    ensures
        begun(false, state, token, description, artist, album).1 is None,
        begun(false, state, token, description, artist, album).0.phase == Phase::Done,
        stepped(begun(false, state, token, description, artist, album).0, reply)
            == (begun(false, state, token, description, artist, album).0, None::<RequestView>),
{
}

impl ArtworkJob {
    /// Opens the open provider if the album still lacks a cover; else ends.
    fn open_fallback(&mut self) -> (r: Option<Request>)
        ensures
            (final(self)@, opt_view(r)) == to_fallback(old(self)@),
    {
        if !self.has_album_cover && !self.cover_obtained {
            self.phase = Phase::ReleaseSearch;
            Some(Request::ReleaseSearch { url: release_search_url(self.artist.as_str(), self.album.as_str()) })
        } else {
            self.phase = Phase::Done;
            None
        }
    }

    /// Downloads the pending catalog cover, if any; else opens the open provider.
    fn open_catalog_cover(&mut self) -> (r: Option<Request>)
        ensures
            (final(self)@, opt_view(r)) == to_catalog_cover(old(self)@),
    {
        match self.pending_cover.take() {
            Some(c) => {
                self.phase = Phase::CatalogCover;
                Some(Request::Download { url: album_cover_url(c.as_str()), file_name: String::from_str("cover.jpg") })
            },
            None => self.open_fallback(),
        }
    }

    /// Starts resolving the artwork of an album: `state` is what it already
    /// holds, `token` the access token of the run if any, `description` its
    /// description or comment tag. Returns the resolution and its first request;
    /// with `fetch_covers` false, or nothing missing, it has none.
    pub fn start(
        fetch_covers: bool,
        state: ArtworkState,
        token: Option<&str>,
        description: Option<&str>,
        artist: &str,
        album: &str,
    ) -> (r: (ArtworkJob, Option<Request>))
        ensures
            (r.0@, opt_view(r.1)) == begun(fetch_covers, state, opt_chars(token), opt_chars(description), artist@, album@),
    {
        let wants = fetch_covers && (!state.has_album_cover || !state.has_artist_picture);
        let linked: Option<(String, &str)> = match (token, description) {
            (Some(t), Some(d)) => match embedded_album_id(d) {
                Some(id) => Some((id, t)),
                None => None,
            },
            _ => None,
        };
        let mut job = ArtworkJob {
            has_album_cover: state.has_album_cover,
            has_artist_picture: state.has_artist_picture,
            authenticated: wants && token.is_some(),
            wrote_any: false,
            cover_obtained: false,
            pending_cover: None,
            phase: Phase::AlbumInfo,
            artist: String::from_str(artist),
            album: String::from_str(album),
        };
        if !wants {
            job.phase = Phase::Done;
            return (job, None);
        }
        match linked {
            Some((id, t)) => {
                proof {
                    let d = description->0@;
                    lemma_embedded_id_unique(d, id@, album_id(d));
                }
                let q = Request::AlbumInfo { url: album_info_url(id.as_str()), authorization: bearer_value(t) };
                (job, Some(q))
            },
            None => {
                let q = job.open_fallback();
                (job, q)
            },
        }
    }

    /// Takes the reply to the last request and returns the next request, or
    /// `None` once the resolution is done.
    pub fn advance(&mut self, reply: Reply) -> (r: Option<Request>)
        ensures
            (final(self)@, opt_view(r)) == stepped(old(self)@, reply@),
    {
        match self.phase {
            Phase::AlbumInfo => {
                let (picture, cover) = match reply {
                    Reply::AlbumInfo { picture, cover } => (picture, cover),
                    _ => (None, None),
                };
                self.pending_cover = if self.has_album_cover { None } else { cover };
                match picture {
                    Some(p) => if !self.has_artist_picture {
                        self.phase = Phase::ArtistPicture;
                        Some(Request::Download { url: artist_picture_url(p.as_str()), file_name: String::from_str("artist.jpg") })
                    } else {
                        self.open_catalog_cover()
                    },
                    None => self.open_catalog_cover(),
                }
            },
            Phase::ArtistPicture => {
                let saved = match reply { Reply::Saved(b) => b, _ => false };
                self.wrote_any = self.wrote_any || saved;
                self.open_catalog_cover()
            },
            Phase::CatalogCover => {
                let saved = match reply { Reply::Saved(b) => b, _ => false };
                self.wrote_any = self.wrote_any || saved;
                self.cover_obtained = saved;
                self.open_fallback()
            },
            Phase::ReleaseSearch => match reply {
                Reply::Found(Some(id)) => {
                    self.phase = Phase::ReleaseImages;
                    Some(Request::ReleaseImages { url: release_images_url(id.as_str()) })
                },
                _ => {
                    self.phase = Phase::Done;
                    None
                },
            },
            Phase::ReleaseImages => match reply {
                Reply::Found(Some(u)) => match image_extension(u.as_str()) {
                    Some(e) => {
                        proof {
                            lemma_extension_unique(u@, e@, choose|x: Seq<char>| is_extension(u@, x));
                        }
                        self.phase = Phase::FallbackCover;
                        let file_name = cover_file_name(e.as_str());
                        Some(Request::Download { url: u, file_name })
                    },
                    None => {
                        self.phase = Phase::Done;
                        None
                    },
                },
                _ => {
                    self.phase = Phase::Done;
                    None
                },
            },
            Phase::FallbackCover => {
                let saved = match reply { Reply::Saved(b) => b, _ => false };
                self.wrote_any = self.wrote_any || saved;
                self.cover_obtained = self.cover_obtained || saved;
                self.phase = Phase::Done;
                None
            },
            Phase::Done => None,
        }
    }

    /// An access token was at hand for a wanted cover, yet the catalog gave
    /// none: worth reporting, though the open provider still ran.
    pub fn missed_catalog_cover(&self) -> (r: bool)
        ensures
            r == (self.authenticated && !self.cover_obtained && !self.has_album_cover),
    {
        self.authenticated && !self.cover_obtained && !self.has_album_cover
    }

    /// Whether the resolution is done.
    pub fn is_done(&self) -> (r: bool)
        ensures
            r == (self.phase == Phase::Done),
    {
        match self.phase {
            Phase::Done => true,
            _ => false,
        }
    }
}

} // verus!

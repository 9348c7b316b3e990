use vstd::prelude::*;
use vstd::string::*;

use crate::text::{has_prefix, starts_with, substring};

verus! {

/// Album links of the authenticated catalog start with this.
pub const ALBUM_LINK_PREFIX: &'static str = "https://listen.tidal.com/album/";

/// The album endpoint of the authenticated catalog; the identifier follows.
pub const ALBUM_ENDPOINT: &'static str = "https://listen.tidal.com/v1/albums/";

/// The query that follows the identifier in an album request.
pub const ALBUM_QUERY: &'static str = "?countryCode=US&locale=en_US&deviceType=BROWSER";

/// Where the authenticated catalog serves its images.
pub const IMAGE_HOST: &'static str = "https://resources.tidal.com/images/";

/// The resolution at which artist pictures are fetched.
pub const ARTIST_PICTURE_FILE: &'static str = "/750x750.jpg";

/// The resolution at which album covers are fetched.
pub const ALBUM_COVER_FILE: &'static str = "/1280x1280.jpg";

/// The release search of the open provider; the artist term follows.
pub const RELEASE_SEARCH: &'static str = "http://musicbrainz.org/ws/2/release/?query=artist:";

/// Separates the artist term from the title term in a release search.
pub const RELEASE_SEARCH_TITLE: &'static str = "%20AND%20title:";

/// Ends a release search.
pub const RELEASE_SEARCH_END: &'static str = "%20AND%20packaging:None";

/// The image listing of a release; the release identifier follows.
pub const RELEASE_IMAGES: &'static str = "http://coverartarchive.org/release/";

/// The scheme of an authorization header value.
pub const BEARER: &'static str = "Bearer ";

/// The name of a cover image file, before its extension.
pub const COVER_STEM: &'static str = "cover.";

/// The identifier that an album link embeds: the characters after the prefix up
/// to the next '/'.
pub open spec fn is_embedded_id(d: Seq<char>, id: Seq<char>) -> bool {
    let p = ALBUM_LINK_PREFIX@;
    &&& has_prefix(d, p)
    &&& p.len() + id.len() < d.len()
    &&& d.subrange(p.len() as int, (p.len() + id.len()) as int) == id
    &&& d[(p.len() + id.len()) as int] == '/'
    &&& forall|k: int| 0 <= k < id.len() ==> id[k] != '/'
}

/// A description or comment that links to an album, with a '/' after the identifier.
pub open spec fn has_embedded_id(d: Seq<char>) -> bool {
    let p = ALBUM_LINK_PREFIX@;
    has_prefix(d, p) && exists|j: int| p.len() <= j < d.len() && d[j] == '/'
}

/// An identifier with each '-' turned into '/'.
pub open spec fn dashes_to_slashes(id: Seq<char>) -> Seq<char> {
    id.map_values(|c: char| if c == '-' { '/' } else { c })
}

/// Characters that a search term keeps.
pub open spec fn is_term_char(c: char) -> bool {
    ('A' <= c <= 'Z') || ('a' <= c <= 'z') || ('0' <= c <= '9') || c == ' ' || c == '_'
}

/// A search term: characters other than letters, digits, space and underscore
/// removed, each space written "%20".
pub open spec fn search_term(s: Seq<char>) -> Seq<char>
    decreases s.len(),
{
    if s.len() == 0 {
        Seq::empty()
    } else {
        let c = s.last();
        search_term(s.drop_last()) + if c == ' ' {
            "%20"@
        } else if is_term_char(c) {
            seq![c]
        } else {
            Seq::empty()
        }
    }
}

/// The identifier that an album description links to, if any.
pub fn embedded_album_id(description: &str) -> (r: Option<String>)
    ensures
        r is None <==> !has_embedded_id(description@),
        r matches Some(id) ==> is_embedded_id(description@, id@),
{
    if !starts_with(description, ALBUM_LINK_PREFIX) {
        return None;
    }
    let start = ALBUM_LINK_PREFIX.unicode_len();
    let n = description.unicode_len();
    let mut j: usize = start;
    while j < n
        invariant
            start == ALBUM_LINK_PREFIX@.len(),
            has_prefix(description@, ALBUM_LINK_PREFIX@),
            n == description@.len(),
            start <= j <= n,
            forall|k: int| start <= k < j ==> description@[k] != '/',
        decreases n - j,
    {
        if description.get_char(j) == '/' {
            let id = substring(description, start, j - start);
            assert forall|k: int| 0 <= k < id@.len() implies id@[k] != '/' by {
                assert(id@[k] == description@[start + k]);
            }
            assert(id@.len() == j - start);
            assert(description@[j as int] == '/');
            return Some(id);
        }
        j = j + 1;
    }
    None
}

/// Turns each '-' of an identifier into '/'.
pub fn image_path(id: &str) -> (r: String)
    ensures
        r@ == dashes_to_slashes(id@),
{
    let n = id.unicode_len();
    let mut out = String::new();
    let mut i: usize = 0;
    proof {
        reveal_strlit("/");
    }
    while i < n
        invariant
            n == id@.len(),
            i <= n,
            "/"@ == seq!['/'],
            out@ == dashes_to_slashes(id@.subrange(0, i as int)),
        decreases n - i,
    {
        let ghost before = out@;
        if id.get_char(i) == '-' {
            out.append("/");
        } else {
            out.append(id.substring_char(i, i + 1));
        }
        assert(out@ =~= dashes_to_slashes(id@.subrange(0, i + 1)));
        i = i + 1;
    }
    assert(id@.subrange(0, n as int) =~= id@);
    out
}

/// A search term for the open release search: letters, digits, space and
/// underscore kept, each space written "%20".
pub fn query_term(s: &str) -> (r: String)
    ensures
        r@ == search_term(s@),
{
    let n = s.unicode_len();
    let mut out = String::new();
    let mut i: usize = 0;
    while i < n
        invariant
            n == s@.len(),
            i <= n,
            out@ == search_term(s@.subrange(0, i as int)),
        decreases n - i,
    {
        let c = s.get_char(i);
        let ghost prefix = s@.subrange(0, i + 1);
        assert(prefix.drop_last() =~= s@.subrange(0, i as int));
        if c == ' ' {
            out.append("%20");
        } else if ('A' <= c && c <= 'Z') || ('a' <= c && c <= 'z') || ('0' <= c && c <= '9') || c == '_' {
            out.append(s.substring_char(i, i + 1));
        }
        assert(out@ =~= search_term(prefix));
        i = i + 1;
    }
    assert(s@.subrange(0, n as int) =~= s@);
    out
}

/// `e` is what follows the last '.' of `u`.
pub open spec fn is_extension(u: Seq<char>, e: Seq<char>) -> bool {
    &&& e.len() < u.len()
    &&& u[u.len() - e.len() - 1] == '.'
    &&& u.subrange(u.len() - e.len(), u.len() as int) == e
    &&& forall|k: int| 0 <= k < e.len() ==> e[k] != '.'
}

/// `a` followed by `b`.
fn concat(a: &str, b: &str) -> (r: String)
    ensures
        r@ == a@ + b@,
{
    let mut r = String::from_str(a);
    r.append(b);
    r
}

/// The album request of the authenticated catalog for an identifier.
pub fn album_info_url(id: &str) -> (r: String)
    ensures
        r@ == ALBUM_ENDPOINT@ + id@ + ALBUM_QUERY@,
{
    let mut r = concat(ALBUM_ENDPOINT, id);
    r.append(ALBUM_QUERY);
    r
}

/// The authorization header value that carries an access token.
pub fn bearer_value(token: &str) -> (r: String)
    ensures
        r@ == BEARER@ + token@,
{
    concat(BEARER, token)
}

/// The image of an artist picture identifier, at the artist picture resolution.
pub fn artist_picture_url(picture: &str) -> (r: String)
    ensures
        r@ == IMAGE_HOST@ + dashes_to_slashes(picture@) + ARTIST_PICTURE_FILE@,
{
    let path = image_path(picture);
    let mut r = concat(IMAGE_HOST, path.as_str());
    r.append(ARTIST_PICTURE_FILE);
    r
}

/// The image of an album cover identifier, at the album cover resolution.
pub fn album_cover_url(cover: &str) -> (r: String)
    ensures
        r@ == IMAGE_HOST@ + dashes_to_slashes(cover@) + ALBUM_COVER_FILE@,
{
    let path = image_path(cover);
    let mut r = concat(IMAGE_HOST, path.as_str());
    r.append(ALBUM_COVER_FILE);
    r
}

/// The release search of the open provider for an artist and an album title.
pub fn release_search_url(artist: &str, album: &str) -> (r: String)
    ensures
        r@ == RELEASE_SEARCH@ + search_term(artist@) + RELEASE_SEARCH_TITLE@ + search_term(album@)
            + RELEASE_SEARCH_END@,
{
    let a = query_term(artist);
    let t = query_term(album);
    let mut r = concat(RELEASE_SEARCH, a.as_str());
    r.append(RELEASE_SEARCH_TITLE);
    r.append(t.as_str());
    r.append(RELEASE_SEARCH_END);
    r
}

/// The image listing of a release.
pub fn release_images_url(release: &str) -> (r: String)
    ensures
        r@ == RELEASE_IMAGES@ + release@,
{
    concat(RELEASE_IMAGES, release)
}

/// What follows the last '.' of an image address, or `None` where it holds no '.'.
pub fn image_extension(url: &str) -> (r: Option<String>)
    ensures
        r is None <==> forall|k: int| 0 <= k < url@.len() ==> url@[k] != '.',
        r matches Some(e) ==> is_extension(url@, e@),
{
    let n = url.unicode_len();
    let mut j: usize = n;
    while j > 0
        invariant
            n == url@.len(),
            j <= n,
            forall|k: int| j <= k < n ==> url@[k] != '.',
        decreases j,
    {
        if url.get_char(j - 1) == '.' {
            let e = substring(url, j, n - j);
            assert forall|k: int| 0 <= k < e@.len() implies e@[k] != '.' by {
                assert(e@[k] == url@[j + k]);
            }
            return Some(e);
        }
        j = j - 1;
    }
    None
}

/// The file name under which a fallback cover with extension `ext` is saved.
pub fn cover_file_name(ext: &str) -> (r: String)
    ensures
        r@ == COVER_STEM@ + ext@,
{
    concat(COVER_STEM, ext)
}

} // verus!

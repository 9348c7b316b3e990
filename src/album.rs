use vstd::prelude::*;

use crate::text::{has_prefix, occurs_at, occurs_at_pos, starts_with};

verus! {

/// One of the audio extensions, dot included, occurs in `s` at `i`.
pub open spec fn audio_extension_at(s: Seq<char>, i: int) -> bool {
    occurs_at(s, i, ".flac"@) || occurs_at(s, i, ".m4a"@) || occurs_at(s, i, ".mp3"@)
}

/// A file name holds an audio extension after at least one character, where
/// the character just before the dot is not a line break.
pub open spec fn is_audio_name(s: Seq<char>) -> bool {
    exists|i: int| 1 <= i < s.len() && s[i - 1] != '\n' && #[trigger] audio_extension_at(s, i)
}

/// What artwork an album directory already holds.
pub struct ArtworkState {
    pub has_album_cover: bool,
    pub has_artist_picture: bool,
}

/// Some name of `names` starts with `p`.
pub open spec fn some_name_starts_with(names: Seq<Seq<char>>, p: Seq<char>) -> bool {
    exists|k: int| 0 <= k < names.len() && has_prefix(#[trigger] names[k], p)
}

/// Whether a file name counts as an audio track of the album.
pub fn is_audio_file(name: &str) -> (r: bool)
    ensures
        r == is_audio_name(name@),
{
    let n = name.unicode_len();
    let mut i: usize = 1;
    while i < n
        invariant
            n == name@.len(),
            1 <= i,
            forall|j: int| 1 <= j < i && j < n ==> !(name@[j - 1] != '\n' && #[trigger] audio_extension_at(name@, j)),
        decreases n - i,
    {
        if name.get_char(i - 1) != '\n' {
            if occurs_at_pos(name, i, ".flac") || occurs_at_pos(name, i, ".m4a") || occurs_at_pos(name, i, ".mp3") {
                assert(audio_extension_at(name@, i as int));
                return true;
            }
        }
        i = i + 1;
    }
    false
}

/// The position of the first audio track among the entries of an album
/// directory, or `None` when it holds none: such a directory is skipped.
pub fn first_audio_file(names: &Vec<String>) -> (r: Option<usize>)
    ensures
        r is None <==> forall|k: int| 0 <= k < names.len() ==> !is_audio_name(#[trigger] names@[k]@),
        r matches Some(i) ==> i < names.len() && is_audio_name(names@[i as int]@)
            && forall|k: int| 0 <= k < i ==> !is_audio_name(#[trigger] names@[k]@),
{
    let mut i: usize = 0;
    while i < names.len()
        invariant
            i <= names.len(),
            forall|k: int| 0 <= k < i ==> !is_audio_name(#[trigger] names@[k]@),
        decreases names.len() - i,
    {
        if is_audio_file(names[i].as_str()) {
            return Some(i);
        }
        i = i + 1;
    }
    None
}

/// Whether some entry name starts with `p`.
fn any_starts_with(names: &Vec<String>, p: &str) -> (r: bool)
    ensures
        r == some_name_starts_with(names.deep_view(), p@),
{
    let mut i: usize = 0;
    while i < names.len()
        invariant
            i <= names.len(),
            forall|k: int| 0 <= k < i ==> !has_prefix(#[trigger] names.deep_view()[k], p@),
        decreases names.len() - i,
    {
        assert(names.deep_view()[i as int] == names@[i as int]@);
        if starts_with(names[i].as_str(), p) {
            return true;
        }
        i = i + 1;
    }
    false
}

/// The artwork already present in an album directory, from the names of its
/// entries: a cover is a name that starts with "cover.", an artist picture one
/// that starts with "artist.".
pub fn artwork_state(names: &Vec<String>) -> (r: ArtworkState)
    ensures
        r.has_album_cover == some_name_starts_with(names.deep_view(), "cover."@),
        r.has_artist_picture == some_name_starts_with(names.deep_view(), "artist."@),
{
    ArtworkState {
        has_album_cover: any_starts_with(names, "cover."),
        has_artist_picture: any_starts_with(names, "artist."),
    }
}

} // verus!

// Reconciles a tree of album directories with an artist/album mirror: which
// artwork to fetch and from which provider, which albums are stale, and which
// files of a mirrored album to copy.

pub mod album;
pub mod artwork;
pub mod credentials;
pub mod layout;
pub mod providers;
pub mod sync;
pub mod text;

use vstd::prelude::*;

verus! {

/// An entry of a top-level source directory.
pub struct Entry {
    pub path: String,
    pub is_dir: bool,
}

/// How a top-level source directory holds its albums.
#[derive(PartialEq, Eq, Structural, Debug, Clone, Copy)]
pub enum Layout {
    /// Each subdirectory is an album.
    Nested,
    /// The directory itself is the album.
    Flat,
}

/// Some entry is a directory.
pub open spec fn has_subdir(children: Seq<Entry>) -> bool {
    exists|k: int| 0 <= k < children.len() && (#[trigger] children[k]).is_dir
}

/// The paths of the subdirectories among `children`, in listing order.
pub open spec fn subdir_paths(children: Seq<Entry>) -> Seq<Seq<char>>
    decreases children.len(),
{
    if children.len() == 0 {
        Seq::empty()
    } else {
        let e = children.last();
        subdir_paths(children.drop_last()) + if e.is_dir {
            seq![e.path@]
        } else {
            Seq::empty()
        }
    }
}

/// The album directories of a top-level directory at `top` with entries `children`.
pub open spec fn albums_of(top: Seq<char>, children: Seq<Entry>) -> Seq<Seq<char>> {
    if has_subdir(children) {
        subdir_paths(children)
    } else {
        seq![top]
    }
}

/// The layout of a top-level directory: nested when it holds a subdirectory.
pub fn detect_layout(children: &Vec<Entry>) -> (r: Layout)
    ensures
        r == (if has_subdir(children@) { Layout::Nested } else { Layout::Flat }),
{
    let mut i: usize = 0;
    while i < children.len()
        invariant
            i <= children.len(),
            forall|k: int| 0 <= k < i ==> !(#[trigger] children@[k]).is_dir,
        decreases children.len() - i,
    {
        if children[i].is_dir {
            return Layout::Nested;
        }
        i = i + 1;
    }
    Layout::Flat
}

/// The album directories of a top-level directory at `top`: each of its
/// subdirectories in listing order, or, when it has none, the directory itself.
pub fn album_dirs(top: &String, children: &Vec<Entry>) -> (r: Vec<String>)
    ensures
        r.deep_view() == albums_of(top@, children@),
{
    match detect_layout(children) {
        Layout::Flat => {
            let mut r: Vec<String> = Vec::new();
            r.push(top.clone());
            assert(r.deep_view() =~= seq![top@]);
            r
        },
        Layout::Nested => {
            let mut r: Vec<String> = Vec::new();
            let mut i: usize = 0;
            while i < children.len()
                invariant
                    i <= children.len(),
                    r.deep_view() == subdir_paths(children@.subrange(0, i as int)),
                decreases children.len() - i,
            {
                let ghost before = r.deep_view();
                assert(children@.subrange(0, i + 1).drop_last() =~= children@.subrange(0, i as int));
                if children[i].is_dir {
                    r.push(children[i].path.clone());
                }
                assert(r.deep_view() =~= subdir_paths(children@.subrange(0, i + 1)));
                i = i + 1;
            }
            assert(children@.subrange(0, children.len() as int) =~= children@);
            r
        },
    }
}

} // verus!

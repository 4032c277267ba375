//! Paths as text: the target that a request names below the root, and the
//! test that a canonical path lies inside the root.

use crate::text::{fields, split_fields, texts, trim, trimmed, Separator};
use vstd::prelude::*;

verus! {

/// The path relative to the root that a decoded request path names: the
/// index file for an empty path or a lone `/`, otherwise the path without
/// its first `/`.
pub open spec fn relative_target(decoded: Seq<char>, index_file: Seq<char>) -> Seq<char> {
    let t = trimmed(decoded);
    if t.len() == 0 || t == seq!['/'] {
        index_file
    } else if t[0] == '/' {
        t.skip(1)
    } else {
        t
    }
}

/// `rel` appended to `root`, with one `/` between them unless `root`
/// already ends in one.
pub open spec fn joined(root: Seq<char>, rel: Seq<char>) -> Seq<char> {
    if root.len() > 0 && root.last() == '/' {
        root + rel
    } else {
        root + seq!['/'] + rel
    }
}

/// The file-system path that a request names, before it is canonicalized:
/// nothing when the root or the index file name is empty or the request
/// path could not be decoded.
pub open spec fn target_path(
    root: Seq<char>,
    decoded: Option<Seq<char>>,
    index_file: Seq<char>,
) -> Option<Seq<char>> {
    if root.len() == 0 || index_file.len() == 0 {
        None
    } else {
        match decoded {
            Some(d) => Some(joined(root, relative_target(d, index_file))),
            None => None,
        }
    }
}

/// Appends `rel` to `root` as [`joined`] describes.
pub fn join(root: &str, rel: &str) -> (r: String)
    ensures
        r@ == joined(root@, rel@),
{
    let n = root.unicode_len();
    let mut out = root.to_owned();
    if n == 0 || root.get_char(n - 1) != '/' {
        proof {
            reveal_strlit("/");
        }
        out.append("/");
    }
    out.append(rel);
    out
}

/// Chooses the target below `root` for a request path that has already been
/// percent-decoded (`None` when decoding failed).
pub fn target_for(root: &str, decoded: Option<&str>, index_file: &str) -> (r: Option<String>)
    ensures
        crate::request::option_text(r) == target_path(
            root@,
            match decoded {
                Some(d) => Some(d@),
                None => None,
            },
            index_file@,
        ),
{
    if root.unicode_len() == 0 || index_file.unicode_len() == 0 {
        return None;
    }
    match decoded {
        None => None,
        Some(d) => {
            let t = trim(d);
            let n = t.unicode_len();
            if n == 0 {
                Some(join(root, index_file))
            } else if t.get_char(0) == '/' {
                if n == 1 {
                    assert(t@ == seq!['/']);
                    Some(join(root, index_file))
                } else {
                    Some(join(root, t.substring_char(1, n)))
                }
            } else {
                Some(join(root, t))
            }
        },
    }
}

/// Whether `p` starts at the file-system root.
pub open spec fn is_absolute(p: Seq<char>) -> bool {
    p.len() > 0 && p[0] == '/'
}

/// The components of `p`: its non-empty parts between `/` characters.
pub open spec fn components(p: Seq<char>) -> Seq<Seq<char>> {
    fields(p, Separator::Slash)
}

/// Whether `path` lies at or below `root`, compared component by component:
/// both are absolute or both relative, and the components of `root` are the
/// first components of `path`. A shared prefix of characters is not enough:
/// `/www2` is not within `/www`.
pub open spec fn is_within(root: Seq<char>, path: Seq<char>) -> bool {
    &&& is_absolute(root) == is_absolute(path)
    &&& components(root).len() <= components(path).len()
    &&& forall|i: int|
        0 <= i < components(root).len() ==> components(root)[i] == components(path)[i]
}

/// Every path lies within itself.
pub proof fn law_within_is_reflexive(path: Seq<char>)
    ensures
        is_within(path, path),
{
}

/// What lies within a directory that lies within the root lies within the
/// root.
pub proof fn law_within_is_transitive(root: Seq<char>, dir: Seq<char>, path: Seq<char>)
    requires
        is_within(root, dir),
        is_within(dir, path),
    ensures
        is_within(root, path),
{
}

/// Tests whether `path` lies at or below `root`.
pub fn path_starts_with(path: &str, root: &str) -> (r: bool)
    ensures
        r == is_within(root@, path@),
{
    let root_absolute = root.unicode_len() > 0 && root.get_char(0) == '/';
    let path_absolute = path.unicode_len() > 0 && path.get_char(0) == '/';
    if root_absolute != path_absolute {
        return false;
    }
    let rc = split_fields(root, Separator::Slash);
    let pc = split_fields(path, Separator::Slash);
    if rc.len() > pc.len() {
        return false;
    }
    let mut i: usize = 0;
    while i < rc.len()
        invariant
            i <= rc@.len() <= pc@.len(),
            texts(rc@) == components(root@),
            texts(pc@) == components(path@),
            forall|k: int| 0 <= k < i ==> components(root@)[k] == components(path@)[k],
        decreases rc@.len() - i,
    {
        if rc[i] != pc[i] {
            assert(texts(pc@)[i as int] == pc@[i as int]@);
            return false;
        }
        i += 1;
    }
    true
}

} // verus!

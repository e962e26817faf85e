//! The path sanitizer: where an archive entry may be written.
//!
//! Paths are texts whose segments are separated by `/`. An entry's path is
//! cut off the archive's root prefix, together with the separators that
//! follow the prefix, and what is left of it is placed under the destination
//! directory unless one of its segments is `..`.

use crate::text::{split, split_text, starts_with, texts};
use vstd::prelude::*;
use vstd::string::*;

verus! {

/// The segment that names the parent directory.
pub open spec fn parent_segment() -> Seq<char> {
    seq!['.', '.']
}

/// The segments of a path.
pub open spec fn segments(path: Seq<char>) -> Seq<Seq<char>> {
    split(path, '/')
}

/// Whether some segment of `path` names the parent directory.
pub open spec fn has_parent_segment(path: Seq<char>) -> bool {
    exists|i: int| 0 <= i < segments(path).len() && #[trigger] segments(path)[i] == parent_segment()
}

/// Whether `path` starts at the root of the file system.
pub open spec fn is_absolute(path: Seq<char>) -> bool {
    path.len() > 0 && path[0] == '/'
}

/// A relative path that cannot leave the directory it is joined onto: it
/// does not start at the root and none of its segments is `..`.
pub open spec fn is_enclosed(relative: Seq<char>) -> bool {
    !is_absolute(relative) && !has_parent_segment(relative)
}

/// `path` without the separators it begins with.
pub open spec fn without_leading_separators(path: Seq<char>) -> Seq<char>
    decreases path.len(),
{
    if path.len() > 0 && path[0] == '/' {
        without_leading_separators(path.skip(1))
    } else {
        path
    }
}

/// What is left of `raw` once `prefix`, and every separator that follows it,
/// is taken from its front, if `raw` begins with `prefix`. It makes no
/// difference whether the prefix ends in a separator.
pub open spec fn strip_prefix(raw: Seq<char>, prefix: Seq<char>) -> Option<Seq<char>> {
    if prefix.is_prefix_of(raw) {
        Some(without_leading_separators(raw.skip(prefix.len() as int)))
    } else {
        None
    }
}

/// `relative` placed under `base`: the two are written one after the other,
/// with one `/` between them unless `base` is empty or already ends in one.
pub open spec fn join_path(base: Seq<char>, relative: Seq<char>) -> Seq<char> {
    if base.len() == 0 {
        relative
    } else if base.last() == '/' {
        base + relative
    } else {
        base + seq!['/'] + relative
    }
}

/// The place under `destination` for the entry `raw`, or `None` where the
/// entry is to be skipped: its path does not begin with `prefix`, or what
/// follows the prefix holds a `..` segment.
pub open spec fn sanitized(raw: Seq<char>, prefix: Seq<char>, destination: Seq<char>) -> Option<
    Seq<char>,
> {
    match strip_prefix(raw, prefix) {
        Some(relative) => if has_parent_segment(relative) {
            None
        } else {
            Some(join_path(destination, relative))
        },
        None => None,
    }
}

/// A path that its leading separators were taken off does not start at the
/// root.
pub proof fn lemma_without_leading_separators(path: Seq<char>)
    ensures
        !is_absolute(without_leading_separators(path)),
    decreases path.len(),
{
    if path.len() > 0 && path[0] == '/' {
        lemma_without_leading_separators(path.skip(1));
    }
}

/// It makes no difference whether the root prefix ends in a separator: an
/// entry that lies under the prefix is given the same place either way.
pub proof fn lemma_prefix_separator(raw: Seq<char>, prefix: Seq<char>, destination: Seq<char>)
    requires
        prefix.push('/').is_prefix_of(raw),
    ensures
        strip_prefix(raw, prefix) == strip_prefix(raw, prefix.push('/')),
        sanitized(raw, prefix, destination) == sanitized(raw, prefix.push('/'), destination),
{
    let longer = prefix.push('/');
    assert(prefix.is_prefix_of(raw)) by {
        assert forall|i: int| 0 <= i < prefix.len() implies prefix[i] == raw[i] by {
            assert(longer[i] == raw[i]);
        }
    }
    let rest = raw.skip(prefix.len() as int);
    assert(rest[0] == '/') by {
        assert(longer[prefix.len() as int] == raw[prefix.len() as int]);
    }
    assert(rest.skip(1) =~= raw.skip(longer.len() as int));
}

/// How far one segment moves down the tree: `..` goes up one level, an empty
/// segment and `.` stay, any other name goes down one level.
pub open spec fn segment_step(segment: Seq<char>) -> int {
    if segment == parent_segment() {
        -1
    } else if segment.len() == 0 || segment == seq!['.'] {
        0
    } else {
        1
    }
}

/// The level reached after walking `segs` from level 0.
pub open spec fn depth_after(segs: Seq<Seq<char>>) -> int
    decreases segs.len(),
{
    if segs.len() == 0 {
        0
    } else {
        depth_after(segs.drop_last()) + segment_step(segs.last())
    }
}

/// Whether walking `relative` segment by segment ever rises above the
/// directory the walk started in.
pub open spec fn escapes(relative: Seq<char>) -> bool {
    exists|k: int|
        0 <= k <= segments(relative).len() && #[trigger] depth_after(segments(relative).take(k))
            < 0
}

/// A walk without `..` never rises.
proof fn lemma_depth_nonnegative(segs: Seq<Seq<char>>)
    requires
        forall|i: int| 0 <= i < segs.len() ==> #[trigger] segs[i] != parent_segment(),
    ensures
        depth_after(segs) >= 0,
    decreases segs.len(),
{
    if segs.len() > 0 {
        assert forall|i: int| 0 <= i < segs.drop_last().len() implies #[trigger] segs.drop_last()[i]
            != parent_segment() by {}
        lemma_depth_nonnegative(segs.drop_last());
    }
}

/// An enclosed path never leaves the directory it is joined onto.
pub proof fn lemma_enclosed_never_escapes(relative: Seq<char>)
    requires
        is_enclosed(relative),
    ensures
        !escapes(relative),
{
    let segs = segments(relative);
    assert forall|k: int| 0 <= k <= segs.len() implies #[trigger] depth_after(segs.take(k))
        >= 0 by {
        assert forall|i: int| 0 <= i < segs.take(k).len() implies #[trigger] segs.take(k)[i]
            != parent_segment() by {}
        lemma_depth_nonnegative(segs.take(k));
    }
}

/// An entry whose path would climb above the destination is never given a
/// place: the sanitizer answers `None` for it, whatever the prefix and the
/// destination are.
pub proof fn lemma_escaping_entry_rejected(
    raw: Seq<char>,
    prefix: Seq<char>,
    destination: Seq<char>,
)
    requires
        strip_prefix(raw, prefix) matches Some(relative) && escapes(relative),
    ensures
        sanitized(raw, prefix, destination) is None,
{
    let relative = strip_prefix(raw, prefix)->0;
    lemma_without_leading_separators(raw.skip(prefix.len() as int));
    if !has_parent_segment(relative) {
        lemma_enclosed_never_escapes(relative);
    }
}

/// Every place the sanitizer hands out lies under the destination: it is
/// the destination followed by a relative path that never climbs out.
pub proof fn lemma_sanitized_inside(raw: Seq<char>, prefix: Seq<char>, destination: Seq<char>)
    requires
        sanitized(raw, prefix, destination) is Some,
    ensures
        destination.is_prefix_of(sanitized(raw, prefix, destination)->0),
        strip_prefix(raw, prefix) matches Some(relative) && !escapes(relative) && sanitized(
            raw,
            prefix,
            destination,
        ) == Some(join_path(destination, relative)),
{
    lemma_without_leading_separators(raw.skip(prefix.len() as int));
    lemma_enclosed_never_escapes(strip_prefix(raw, prefix)->0);
}

/// A place inside a destination directory that an archive entry may be
/// written to.
///
/// A value of this type is only made by [`sanitize`], so every one of them
/// names a place that lies under its destination.
pub struct SafePath {
    destination: String,
    relative: String,
}

impl SafePath {
    /// The directory the place lies in.
    pub closed spec fn destination(&self) -> Seq<char> {
        self.destination@
    }

    /// The path of the place as seen from the destination.
    pub closed spec fn relative(&self) -> Seq<char> {
        self.relative@
    }

    #[verifier::type_invariant]
    closed spec fn enclosed(&self) -> bool {
        is_enclosed(self.relative@)
    }

    /// The whole path: the destination with the relative path under it.
    ///
    /// The path begins with the destination, and what follows never climbs
    /// out of it.
    pub fn to_path(&self) -> (path: String)
        ensures
            path@ == self@,
            self.destination().is_prefix_of(path@),
            is_enclosed(self.relative()),
            !escapes(self.relative()),
    {
        proof {
            use_type_invariant(self);
            lemma_enclosed_never_escapes(self.relative@);
        }
        join_paths(self.destination.as_str(), self.relative.as_str())
    }

    /// The path as seen from the destination.
    pub fn relative_path(&self) -> (relative: &str)
        ensures
            relative@ == self.relative(),
    {
        self.relative.as_str()
    }
}

impl View for SafePath {
    type V = Seq<char>;

    /// The whole path, as a text.
    open spec fn view(&self) -> Seq<char> {
        join_path(self.destination(), self.relative())
    }
}

/// Places `relative` under `base`.
pub fn join_paths(base: &str, relative: &str) -> (joined: String)
    ensures
        joined@ == join_path(base@, relative@),
{
    let n = base.unicode_len();
    let mut joined = base.to_owned();
    if n > 0 && base.get_char(n - 1) != '/' {
        proof {
            reveal_strlit("/");
        }
        joined.append("/");
    }
    joined.append(relative);
    joined
}

/// Takes the separators off the front of `path`.
pub fn skip_separators(path: &str) -> (rest: &str)
    ensures
        rest@ == without_leading_separators(path@),
{
    let n = path.unicode_len();
    let mut i: usize = 0;
    assert(path@.skip(0) =~= path@);
    while i < n && path.get_char(i) == '/'
        invariant
            i <= n,
            n == path@.len(),
            without_leading_separators(path@) == without_leading_separators(path@.skip(i as int)),
        decreases n - i,
    {
        assert(path@.skip(i as int).skip(1) =~= path@.skip(i + 1));
        i = i + 1;
    }
    assert(path@.subrange(i as int, n as int) =~= path@.skip(i as int));
    path.substring_char(i, n)
}

/// Whether some segment of `path` is `..`.
pub fn names_parent(path: &str) -> (found: bool)
    ensures
        found == has_parent_segment(path@),
{
    let segs = split_text(path, '/');
    let wanted = "..".to_owned();
    proof {
        reveal_strlit("..");
    }
    let mut i: usize = 0;
    while i < segs.len()
        invariant
            i <= segs.len(),
            texts(segs@) == segments(path@),
            wanted@ == parent_segment(),
            forall|k: int| 0 <= k < i ==> #[trigger] segments(path@)[k] != parent_segment(),
        decreases segs.len() - i,
    {
        assert(texts(segs@)[i as int] == segs@[i as int]@);
        if segs[i] == wanted {
            return true;
        }
        i = i + 1;
    }
    false
}

/// Finds the place under `destination` for the archive entry `raw_path`.
///
/// The entry is given a place if its path begins with `root_prefix` and
/// what follows the prefix, once the separators at its front are taken off,
/// holds no `..` segment. Every other entry is answered with `None`, and is
/// to be skipped.
pub fn sanitize(raw_path: &str, root_prefix: &str, destination: &str) -> (place: Option<SafePath>)
    ensures
        match place {
            Some(safe) => sanitized(raw_path@, root_prefix@, destination@) == Some(safe@)
                && safe.destination() == destination@ && strip_prefix(raw_path@, root_prefix@)
                == Some(safe.relative()),
            None => sanitized(raw_path@, root_prefix@, destination@) is None,
        },
{
    if !starts_with(raw_path, root_prefix) {
        return None;
    }
    let cut = raw_path.substring_char(root_prefix.unicode_len(), raw_path.unicode_len());
    assert(cut@ =~= raw_path@.skip(root_prefix@.len() as int));
    let relative = skip_separators(cut);
    if names_parent(relative) {
        return None;
    }
    proof {
        lemma_without_leading_separators(cut@);
    }
    Some(SafePath { destination: destination.to_owned(), relative: relative.to_owned() })
}

} // verus!

//! Paths of the host, as the bytes that Unix keeps them as: components
//! separated by `/`, where repeated separators, trailing separators and `.`
//! components behind the first do not count. Paths of systems with other rules are
//! not read here.
use vstd::prelude::*;

use crate::bytes::{append_prefix, copy};

verus! {

/// The byte that separates components.
pub const SLASH: u8 = 47;

/// The byte that stands before an extension.
pub const DOT: u8 = 46;

/// `path[start..end]` is a component of `path`. A `.` is one only where it is
/// the first thing in a relative path.
pub open spec fn is_component(path: Seq<u8>, start: int, end: int) -> bool {
    &&& 0 <= start < end <= path.len()
    &&& forall|i: int| start <= i < end ==> path[i] != SLASH
    &&& start == 0 || path[start - 1] == SLASH
    &&& end == path.len() || path[end] == SLASH
    &&& start == 0 || end - start != 1 || path[start] != DOT
}

/// `path[start..end]` is the last component that ends at or before `limit`.
pub open spec fn is_last_component(path: Seq<u8>, limit: int, start: int, end: int) -> bool {
    &&& is_component(path, start, end)
    &&& end <= limit
    &&& forall|s: int, e: int| #[trigger] is_component(path, s, e) && e <= limit ==> e <= end
}

/// The last component that ends at or before `limit`, if there is one.
pub open spec fn last_component(path: Seq<u8>, limit: int) -> Option<(int, int)> {
    if exists|s: int, e: int| is_last_component(path, limit, s, e) {
        Some(choose|s: int, e: int| is_last_component(path, limit, s, e))
    } else {
        None
    }
}

/// Where the file name stands: the last component, unless it is `.` or `..`.
pub open spec fn file_name(path: Seq<u8>) -> Option<(int, int)> {
    match last_component(path, path.len() as int) {
        Some((s, e)) => if is_dots(path, s, e) {
            None
        } else {
            Some((s, e))
        },
        None => None,
    }
}

/// `path[start..end]` is `.` or `..`.
pub open spec fn is_dots(path: Seq<u8>, start: int, end: int) -> bool {
    end - start <= 2 && forall|i: int| start <= i < end ==> path[i] == DOT
}

/// `mid` ends the stem of the file name `path[start..end]`: it is the last dot
/// behind the first byte, or `end` where there is none.
pub open spec fn is_stem_end(path: Seq<u8>, start: int, end: int, mid: int) -> bool {
    &&& start < mid <= end
    &&& mid < end ==> path[mid] == DOT
    &&& forall|i: int| mid < i < end ==> path[i] != DOT
    &&& mid == end ==> forall|i: int| start < i < end ==> path[i] != DOT
}

/// Where the stem of the file name `path[start..end]` ends.
pub open spec fn stem_end(path: Seq<u8>, start: int, end: int) -> int {
    choose|mid: int| is_stem_end(path, start, end, mid)
}

/// `path` with the extension of its file name, and what follows it, replaced; an
/// empty extension leaves the stem alone. A path without a file name stays as it is.
pub open spec fn with_extension_of(path: Seq<u8>, extension: Seq<u8>) -> Seq<u8> {
    match file_name(path) {
        Some((s, e)) => if extension.len() == 0 {
            path.take(stem_end(path, s, e))
        } else {
            path.take(stem_end(path, s, e)).push(DOT) + extension
        },
        None => path,
    }
}

/// `path` without its last component, if it has one.
pub open spec fn parent_of(path: Seq<u8>) -> Option<Seq<u8>> {
    match last_component(path, path.len() as int) {
        Some((s, e)) => Some(
            match last_component(path, s) {
                Some((s2, e2)) => path.take(e2),
                None => if path[0] == SLASH {
                    path.take(1)
                } else {
                    Seq::empty()
                },
            },
        ),
        None => None,
    }
}

/// `path` is absolute.
pub open spec fn is_absolute(path: Seq<u8>) -> bool {
    path.len() > 0 && path[0] == SLASH
}

/// `path` seen from `base`.
pub open spec fn joined(base: Seq<u8>, path: Seq<u8>) -> Seq<u8> {
    if is_absolute(path) {
        path
    } else if base.len() == 0 || base.last() == SLASH {
        base + path
    } else {
        base.push(SLASH) + path
    }
}

/// Two components with a byte in common are one and the same.
proof fn lemma_component_unique(path: Seq<u8>, s1: int, e1: int, s2: int, e2: int, i: int)
    requires
        is_component(path, s1, e1),
        is_component(path, s2, e2),
        s1 <= i < e1,
        s2 <= i < e2,
    ensures
        s1 == s2,
        e1 == e2,
{
    if s1 < s2 {
        assert(path[s2 - 1] == SLASH);
        assert(path[s2 - 1] != SLASH);
    }
    if s2 < s1 {
        assert(path[s1 - 1] == SLASH);
        assert(path[s1 - 1] != SLASH);
    }
    if e1 < e2 {
        assert(path[e1] == SLASH);
    }
    if e2 < e1 {
        assert(path[e2] == SLASH);
    }
}

/// There is one last component at most, so whoever finds one has found
/// `last_component`.
proof fn lemma_last_component(path: Seq<u8>, limit: int, start: int, end: int)
    requires
        is_last_component(path, limit, start, end),
    ensures
        last_component(path, limit) == Some((start, end)),
{
    let (s, e) = choose|s: int, e: int| is_last_component(path, limit, s, e);
    assert(is_last_component(path, limit, s, e));
    lemma_component_unique(path, s, e, start, end, e - 1);
}

/// Whoever finds the end of the stem has found `stem_end`.
proof fn lemma_stem_end(path: Seq<u8>, start: int, end: int, mid: int)
    requires
        is_stem_end(path, start, end, mid),
    ensures
        stem_end(path, start, end) == mid,
{
    let other = stem_end(path, start, end);
    assert(is_stem_end(path, start, end, other));
}

/// Finds the last component that ends at or before `limit`, which is the end of
/// the path or the start of a component.
fn find_last_component(path: &[u8], limit: usize) -> (found: Option<(usize, usize)>)
    requires
        limit <= path@.len(),
        limit == path@.len() || limit == 0 || path@[limit - 1] == SLASH,
    ensures
        match found {
            Some((s, e)) => {
                &&& s < e <= limit
                &&& is_component(path@, s as int, e as int)
                &&& last_component(path@, limit as int) == Some((s as int, e as int))
            },
            None => last_component(path@, limit as int) is None,
        },
{
    let mut end: usize = limit;
    while end > 0
        invariant
            end <= limit <= path@.len(),
            end == path@.len() || end == 0 || path@[end - 1] == SLASH || path@[end as int] == SLASH,
            forall|s: int, e: int| #[trigger]
                is_component(path@, s, e) && e <= limit ==> e <= end,
        decreases end,
    {
        if path[end - 1] == SLASH {
            assert forall|s: int, e: int| #[trigger]
                is_component(path@, s, e) && e <= limit implies e <= end - 1 by {
                if e == end {
                    assert(path@[e - 1] != SLASH);
                }
            }
            end = end - 1;
        } else {
            let mut start: usize = end - 1;
            while start > 0 && path[start - 1] != SLASH
                invariant
                    start < end <= path@.len(),
                    forall|i: int| start <= i < end ==> path@[i] != SLASH,
                decreases start,
            {
                start = start - 1;
            }
            if start > 0 && end - start == 1 && path[start] == DOT {
                assert forall|s: int, e: int| #[trigger]
                    is_component(path@, s, e) && e <= limit implies e <= start by {
                    if e == end {
                        assert(s == start) by {
                            if s < start {
                                assert(path@[start - 1] != SLASH);
                            }
                        }
                    }
                }
                end = start;
            } else {
                assert(is_component(path@, start as int, end as int));
                assert(is_last_component(path@, limit as int, start as int, end as int));
                proof {
                    lemma_last_component(path@, limit as int, start as int, end as int);
                }
                return Some((start, end));
            }
        }
    }
    assert forall|s: int, e: int| !is_last_component(path@, limit as int, s, e) by {
        if is_last_component(path@, limit as int, s, e) {
            assert(is_component(path@, s, e));
        }
    }
    None
}

/// `path` seen from `base`: an absolute `path` stands for itself.
pub fn join(base: &[u8], path: &[u8]) -> (out: Vec<u8>)
    ensures
        out@ == joined(base@, path@),
{
    let mut out: Vec<u8> = Vec::new();
    if path.len() == 0 || path[0] != SLASH {
        append_prefix(&mut out, base, base.len());
        assert(out@ =~= base@);
        if base.len() > 0 && base[base.len() - 1] != SLASH {
            out.push(SLASH);
        }
    }
    append_prefix(&mut out, path, path.len());
    assert(path@.take(path@.len() as int) =~= path@);
    out
}

/// `path` without its last component, or `None` where it has none: the path is
/// empty or nothing but the root.
pub fn parent(path: &[u8]) -> (out: Option<Vec<u8>>)
    ensures
        match out {
            Some(p) => parent_of(path@) == Some(p@),
            None => parent_of(path@) is None,
        },
{
    match find_last_component(path, path.len()) {
        None => None,
        Some((start, end)) => {
            let mut out: Vec<u8> = Vec::new();
            match find_last_component(path, start) {
                Some((start2, end2)) => {
                    append_prefix(&mut out, path, end2);
                    assert(out@ =~= path@.take(end2 as int));
                },
                None => {
                    if path[0] == SLASH {
                        out.push(SLASH);
                        assert(out@ =~= path@.take(1));
                    }
                },
            }
            Some(out)
        },
    }
}

/// `path[start..end]` is `.` or `..`.
fn only_dots(path: &[u8], start: usize, end: usize) -> (yes: bool)
    requires
        start < end <= path@.len(),
    ensures
        yes == is_dots(path@, start as int, end as int),
{
    if end - start > 2 {
        return false;
    }
    if path[start] != DOT {
        return false;
    }
    path[end - 1] == DOT
}

/// `path` with the extension of its file name replaced.
pub fn with_extension(path: &[u8], extension: &[u8]) -> (out: Vec<u8>)
    ensures
        out@ == with_extension_of(path@, extension@),
{
    let (start, end) = match find_last_component(path, path.len()) {
        Some((start, end)) => {
            if only_dots(path, start, end) {
                return copy(path);
            }
            (start, end)
        },
        None => {
            return copy(path);
        },
    };
    let mut mid: usize = end - 1;
    while mid > start && path[mid] != DOT
        invariant
            start <= mid < end <= path@.len(),
            forall|i: int| mid < i < end ==> path@[i] != DOT,
        decreases mid,
    {
        mid = mid - 1;
    }
    if mid == start {
        mid = end;
    }
    proof {
        assert(is_stem_end(path@, start as int, end as int, mid as int));
        lemma_stem_end(path@, start as int, end as int, mid as int);
    }
    let mut out: Vec<u8> = Vec::new();
    append_prefix(&mut out, path, mid);
    if extension.len() > 0 {
        out.push(DOT);
        append_prefix(&mut out, extension, extension.len());
        assert(out@ =~= path@.take(mid as int).push(DOT) + extension@);
    } else {
        assert(out@ =~= path@.take(mid as int));
    }
    out
}

/// A last component, where one exists, is what `last_component` gives.
proof fn lemma_last_component_is(path: Seq<u8>, limit: int)
    ensures
        match last_component(path, limit) {
            Some((s, e)) => is_last_component(path, limit, s, e),
            None => true,
        },
{
}

/// Every file name has a stem.
proof fn lemma_stem_exists(path: Seq<u8>, start: int, end: int, from: int)
    requires
        0 <= start <= from < end <= path.len(),
        forall|i: int| from < i < end ==> path[i] != DOT,
    ensures
        is_stem_end(path, start, end, stem_end(path, start, end)),
    decreases from - start,
{
    if from == start {
        assert(is_stem_end(path, start, end, end));
    } else if path[from] == DOT {
        assert(is_stem_end(path, start, end, from));
    } else {
        lemma_stem_exists(path, start, end, from - 1);
    }
}

/// Paths that agree up to a component, and have one there, agree on the last
/// component before it.
proof fn lemma_last_component_prefix(p: Seq<u8>, q: Seq<u8>, start: int)
    requires
        0 <= start < p.len(),
        start < q.len(),
        forall|i: int| 0 <= i <= start ==> p[i] == q[i],
        p[start] != SLASH,
    ensures
        last_component(p, start) == last_component(q, start),
{
    assert forall|s: int, e: int| e <= start implies is_component(p, s, e) == is_component(
        q,
        s,
        e,
    ) by {}
    assert forall|s: int, e: int|
        is_last_component(p, start, s, e) == is_last_component(q, start, s, e) by {
        if is_last_component(p, start, s, e) {
            assert(is_component(q, s, e));
            assert forall|s2: int, e2: int| #[trigger]
                is_component(q, s2, e2) && e2 <= start implies e2 <= e by {
                assert(is_component(p, s2, e2));
            }
        }
        if is_last_component(q, start, s, e) {
            assert(is_component(p, s, e));
            assert forall|s2: int, e2: int| #[trigger]
                is_component(p, s2, e2) && e2 <= start implies e2 <= e by {
                assert(is_component(q, s2, e2));
            }
        }
    }
    match last_component(p, start) {
        Some((s, e)) => {
            assert(is_last_component(p, start, s, e));
            lemma_last_component(q, start, s, e);
        },
        None => {
            assert forall|s: int, e: int| !is_last_component(q, start, s, e) by {
                assert(!is_last_component(p, start, s, e));
            }
        },
    }
}

/// Where the file name of a path stands once its extension is replaced.
proof fn lemma_renamed(path: Seq<u8>, extension: Seq<u8>)
    requires
        file_name(path) is Some,
        extension.len() > 0,
        !extension.contains(SLASH),
    ensures
        ({
            let (s, e) = file_name(path)->0;
            let k = stem_end(path, s, e);
            let out = with_extension_of(path, extension);
            &&& is_component(path, s, e)
            &&& is_stem_end(path, s, e, k)
            &&& out == path.take(k).push(DOT) + extension
            &&& last_component(out, out.len() as int) == Some((s, out.len() as int))
        }),
{
    let (s, e) = file_name(path)->0;
    lemma_last_component_is(path, path.len() as int);
    lemma_stem_exists(path, s, e, e - 1);
    let k = stem_end(path, s, e);
    let out = with_extension_of(path, extension);
    assert forall|i: int| s <= i < out.len() implies out[i] != SLASH by {
        if i > k {
            assert(out[i] == extension[i - k - 1]);
        }
    }
    assert(is_component(out, s, out.len() as int));
    assert(is_last_component(out, out.len() as int, s, out.len() as int));
    lemma_last_component(out, out.len() as int, s, out.len() as int);
}

/// Replacing the extension of a file leaves it in its directory.
pub proof fn law_extension_keeps_directory(path: Seq<u8>, extension: Seq<u8>)
    requires
        extension.len() > 0,
        !extension.contains(SLASH),
    ensures
        parent_of(with_extension_of(path, extension)) == parent_of(path),
{
    if file_name(path) is Some {
        let (s, e) = file_name(path)->0;
        let out = with_extension_of(path, extension);
        lemma_renamed(path, extension);
        lemma_last_component_prefix(path, out, s);
        lemma_last_component_is(path, s);
        match last_component(path, s) {
            Some((s2, e2)) => {
                assert(path.take(e2) =~= out.take(e2));
            },
            None => {
                assert(path[0] == out[0]);
                assert(path.take(1) =~= out.take(1));
            },
        }
    }
}

/// Replacing the extension twice is replacing it once.
pub proof fn law_extension_idempotent(path: Seq<u8>, extension: Seq<u8>)
    requires
        extension.len() > 0,
        !extension.contains(SLASH),
        !extension.contains(DOT),
    ensures
        with_extension_of(with_extension_of(path, extension), extension) == with_extension_of(
            path,
            extension,
        ),
{
    if file_name(path) is Some {
        let (s, e) = file_name(path)->0;
        let k = stem_end(path, s, e);
        let out = with_extension_of(path, extension);
        lemma_renamed(path, extension);
        assert(out[out.len() - 1] == extension[extension.len() - 1]);
        assert(extension.contains(extension[extension.len() - 1]));
        assert(!is_dots(out, s, out.len() as int));
        assert forall|i: int| k < i < out.len() implies out[i] != DOT by {
            assert(out[i] == extension[i - k - 1]);
        }
        assert(is_stem_end(out, s, out.len() as int, k));
        lemma_stem_end(out, s, out.len() as int, k);
        assert(out.take(k) =~= path.take(k));
    }
}

/// An absolute path is the same seen from anywhere.
pub proof fn law_absolute_ignores_base(base1: Seq<u8>, base2: Seq<u8>, path: Seq<u8>)
    requires
        is_absolute(path),
    ensures
        joined(base1, path) == joined(base2, path),
        joined(base1, path) == path,
{
}

/// Seen from an absolute base, every path is absolute.
pub proof fn law_joined_absolute(base: Seq<u8>, path: Seq<u8>)
    requires
        is_absolute(base),
    ensures
        is_absolute(joined(base, path)),
{
}

/// A path has no parent if and only if it has no component at all.
pub proof fn law_parent_exists(path: Seq<u8>)
    ensures
        parent_of(path) is Some <==> exists|s: int, e: int| is_component(path, s, e),
{
    lemma_some_last_component(path, path.len() as int);
}

/// Where there is a component up to `limit`, there is a last one.
proof fn lemma_some_last_component(path: Seq<u8>, limit: int)
    requires
        0 <= limit <= path.len(),
    ensures
        last_component(path, limit) is Some <==> exists|s: int, e: int| #[trigger]
            is_component(path, s, e) && e <= limit,
    decreases limit,
{
    if exists|s: int, e: int| #[trigger] is_component(path, s, e) && e <= limit {
        let (s, e) = choose|s: int, e: int| #[trigger] is_component(path, s, e) && e <= limit;
        if exists|s: int| is_component(path, s, limit) {
            let s2 = choose|s: int| is_component(path, s, limit);
            assert(is_last_component(path, limit, s2, limit));
        } else {
            assert(e <= limit - 1);
            lemma_some_last_component(path, limit - 1);
            let (s2, e2) = last_component(path, limit - 1)->0;
            assert(is_last_component(path, limit - 1, s2, e2));
            assert(is_last_component(path, limit, s2, e2));
        }
    }
}

/// `bytes` are separators and nothing else: slashes, and dots that stand alone between
/// them.
pub open spec fn only_separators(bytes: Seq<u8>) -> bool {
    forall|i: int|
        0 <= i < bytes.len() ==> (#[trigger] bytes[i]) == 47u8 || (bytes[i] == 46u8 && i > 0
            && bytes[i - 1] == 47u8 && (i + 1 == bytes.len() || bytes[i + 1] == 47u8))
}

/// In front of nothing but separators, a name is the last component.
proof fn lemma_named(head: Seq<u8>, name: Seq<u8>, tail: Seq<u8>)
    requires
        head.len() == 0 || head.last() == 47u8,
        name.len() > 0,
        !name.contains(47u8),
        head.len() == 0 || name != seq![46u8],
        tail.len() == 0 || tail[0] == 47u8,
        only_separators(tail),
    ensures
        last_component(head + name + tail, (head + name + tail).len() as int) == Some(
            (head.len() as int, (head.len() + name.len()) as int),
        ),
{
    let path = head + name + tail;
    let start = head.len() as int;
    let end = start + name.len();
    assert forall|i: int| start <= i < end implies path[i] != SLASH by {
        assert(path[i] == name[i - start]);
    }
    if start > 0 && name.len() == 1 && path[start] == DOT {
        assert(name =~= seq![46u8]);
    }
    assert(is_component(path, start, end));
    assert forall|s: int, e: int| #[trigger]
        is_component(path, s, e) && e <= path.len() implies e <= end by {
        if e > end {
            let k = e - 1 - end;
            assert(path[e - 1] == tail[k]);
            assert(tail[k] == 46u8);
            assert(path[e - 2] == tail[k - 1]);
            assert(s == e - 1);
        }
    }
    assert(is_last_component(path, path.len() as int, start, end));
    lemma_last_component(path, path.len() as int, start, end);
}

/// Where the last piece between slashes before `end` starts.
proof fn lemma_piece(path: Seq<u8>, end: int) -> (start: int)
    requires
        0 <= end <= path.len(),
    ensures
        0 <= start <= end,
        forall|i: int| start <= i < end ==> path[i] != SLASH,
        start == 0 || path[start - 1] == SLASH,
    decreases end,
{
    if end == 0 || path[end - 1] == SLASH {
        end
    } else {
        lemma_piece(path, end - 1)
    }
}

/// The parent of a path is what stands before its last name, however many separators
/// stand between them or behind.
pub proof fn law_parent_of_name(dir: Seq<u8>, gap: Seq<u8>, name: Seq<u8>, tail: Seq<u8>)
    requires
        dir.len() > 0,
        dir.last() != 47u8,
        dir.len() >= 2 ==> !(dir[dir.len() - 2] == 47u8 && dir.last() == 46u8),
        gap.len() > 0,
        gap[0] == 47u8,
        gap.last() == 47u8,
        only_separators(gap),
        name.len() > 0,
        !name.contains(47u8),
        name != seq![46u8],
        tail.len() == 0 || tail[0] == 47u8,
        only_separators(tail),
    ensures
        parent_of(dir + gap + name + tail) == Some(dir),
{
    let path = dir + gap + name + tail;
    let start = (dir + gap).len() as int;
    let end = dir.len() as int;
    lemma_named(dir + gap, name, tail);
    let piece = lemma_piece(path, end);
    assert(path[end - 1] == dir.last());
    assert(path[end] == gap[0]);
    if piece > 0 && end - piece == 1 && path[piece] == DOT {
        assert(path[piece - 1] == dir[dir.len() - 2]);
    }
    assert(is_component(path, piece, end));
    assert forall|s: int, e: int| #[trigger]
        is_component(path, s, e) && e <= start implies e <= end by {
        if e > end {
            let k = e - 1 - end;
            assert(path[e - 1] == gap[k]);
            assert(gap[k] == 46u8);
            assert(path[e - 2] == gap[k - 1]);
            assert(s == e - 1);
        }
    }
    assert(is_last_component(path, start, piece, end));
    lemma_last_component(path, start, piece, end);
    assert(path.take(end) =~= dir);
}

/// The parent of a single name below the root is the root.
pub proof fn law_parent_below_root(gap: Seq<u8>, name: Seq<u8>, tail: Seq<u8>)
    requires
        gap.len() > 0,
        gap[0] == 47u8,
        gap.last() == 47u8,
        only_separators(gap),
        name.len() > 0,
        !name.contains(47u8),
        name != seq![46u8],
        tail.len() == 0 || tail[0] == 47u8,
        only_separators(tail),
    ensures
        parent_of(gap + name + tail) == Some(seq![47u8]),
{
    let path = gap + name + tail;
    let start = gap.len() as int;
    lemma_named(gap, name, tail);
    assert forall|s: int, e: int| !is_last_component(path, start, s, e) by {
        if is_last_component(path, start, s, e) {
            assert(is_component(path, s, e));
            assert(path[e - 1] == gap[e - 1]);
            assert(gap[e - 1] == 46u8);
            assert(path[e - 2] == gap[e - 2]);
            assert(s == e - 1);
        }
    }
    assert(path[0] == gap[0]);
    assert(path.take(1) =~= seq![47u8]);
}

/// The parent of a single name is the empty path.
pub proof fn law_parent_of_lone_name(name: Seq<u8>, tail: Seq<u8>)
    requires
        name.len() > 0,
        !name.contains(47u8),
        tail.len() == 0 || tail[0] == 47u8,
        only_separators(tail),
    ensures
        parent_of(name + tail) == Some(Seq::<u8>::empty()),
{
    let path = name + tail;
    let head = Seq::<u8>::empty();
    assert(head + name + tail =~= path);
    lemma_named(head, name, tail);
    assert forall|s: int, e: int| !is_last_component(path, 0, s, e) by {}
    assert(path[0] == name[0]);
    assert(name.contains(name[0]));
}

/// A path has no parent if and only if it is empty or, from the root on, nothing but
/// separators.
pub proof fn law_no_parent(path: Seq<u8>)
    ensures
        parent_of(path) is None <==> path.len() == 0 || (path[0] == 47u8 && only_separators(path)),
{
    law_parent_exists(path);
    if path.len() > 0 && path[0] == 47u8 && only_separators(path) {
        assert forall|s: int, e: int| !is_component(path, s, e) by {
            if is_component(path, s, e) {
                assert(path[e - 1] == 46u8);
                assert(path[e - 2] == 47u8);
                assert(s == e - 1);
            }
        }
    }
    if path.len() > 0 && (forall|s: int, e: int| !is_component(path, s, e)) {
        assert forall|i: int| 0 <= i < path.len() implies (#[trigger] path[i]) == 47u8 || (
        path[i] == 46u8 && i > 0 && path[i - 1] == 47u8 && (i + 1 == path.len() || path[i + 1]
            == 47u8)) by {
            if path[i] != 47u8 {
                let start = lemma_piece(path, i);
                let end = lemma_piece_end(path, i);
                assert(!is_component(path, start, end));
            }
        }
    }
}

/// Where the piece between slashes that holds `at` ends.
proof fn lemma_piece_end(path: Seq<u8>, at: int) -> (end: int)
    requires
        0 <= at <= path.len(),
    ensures
        at <= end <= path.len(),
        forall|i: int| at <= i < end ==> path[i] != SLASH,
        end == path.len() || path[end] == SLASH,
    decreases path.len() - at,
{
    if at == path.len() || path[at] == SLASH {
        at
    } else {
        lemma_piece_end(path, at + 1)
    }
}

/// The extension of a file is what stands behind the last dot of its name, whatever it
/// is: a new extension takes its place, and an empty one takes the dot away too.
pub proof fn law_extension_replaced(
    head: Seq<u8>,
    stem: Seq<u8>,
    extension: Seq<u8>,
    tail: Seq<u8>,
    new: Seq<u8>,
)
    requires
        head.len() == 0 || head.last() == 47u8,
        stem.len() > 0,
        !stem.contains(47u8),
        !extension.contains(47u8),
        !extension.contains(46u8),
        stem != seq![46u8] || extension.len() > 0,
        tail.len() == 0 || tail[0] == 47u8,
        only_separators(tail),
    ensures
        with_extension_of(head + stem + seq![46u8] + extension + tail, new) == if new.len() == 0 {
            head + stem
        } else {
            head + stem + seq![46u8] + new
        },
{
    let name = stem + seq![46u8] + extension;
    let path = head + name + tail;
    assert(head + stem + seq![46u8] + extension + tail =~= path);
    let start = head.len() as int;
    let end = start + name.len();
    let mid = start + stem.len();
    assert forall|i: int| 0 <= i < name.len() implies name[i] != 47u8 by {
        if i < stem.len() {
            assert(stem.contains(stem[i]));
        } else if i > stem.len() {
            assert(name[i] == extension[i - stem.len() - 1]);
            assert(extension.contains(extension[i - stem.len() - 1]));
        }
    }
    lemma_named(head, name, tail);
    if is_dots(path, start, end) {
        assert(path[start] == stem[0]);
        assert(stem =~= seq![46u8]);
    }
    assert(path[mid] == name[stem.len() as int]);
    assert forall|i: int| mid < i < end implies path[i] != DOT by {
        assert(path[i] == extension[i - mid - 1]);
        assert(extension.contains(extension[i - mid - 1]));
    }
    assert(is_stem_end(path, start, end, mid));
    lemma_stem_end(path, start, end, mid);
    assert(path.take(mid) =~= head + stem);
    assert(path.take(mid).push(DOT) + new =~= head + stem + seq![46u8] + new);
}

/// A file whose name has no dot behind its first byte gets the extension behind its
/// name.
pub proof fn law_extension_added(head: Seq<u8>, name: Seq<u8>, tail: Seq<u8>, new: Seq<u8>)
    requires
        head.len() == 0 || head.last() == 47u8,
        name.len() > 0,
        !name.contains(47u8),
        forall|i: int| 0 < i < name.len() ==> (#[trigger] name[i]) != 46u8,
        name != seq![46u8],
        tail.len() == 0 || tail[0] == 47u8,
        only_separators(tail),
    ensures
        with_extension_of(head + name + tail, new) == if new.len() == 0 {
            head + name
        } else {
            head + name + seq![46u8] + new
        },
{
    let path = head + name + tail;
    let start = head.len() as int;
    let end = start + name.len();
    lemma_named(head, name, tail);
    if is_dots(path, start, end) {
        assert(path[end - 1] == name[name.len() - 1]);
        assert(name =~= seq![46u8]);
    }
    assert forall|i: int| start < i < end implies path[i] != DOT by {
        assert(path[i] == name[i - start]);
    }
    assert(is_stem_end(path, start, end, end));
    lemma_stem_end(path, start, end, end);
    assert(path.take(end) =~= head + name);
    assert(path.take(end).push(DOT) + new =~= head + name + seq![46u8] + new);
}

/// A path that ends in `..`, that is `.` alone or that has no parent names no file, and
/// stays as it is.
pub proof fn law_extension_of_no_file(head: Seq<u8>, tail: Seq<u8>, new: Seq<u8>)
    requires
        tail.len() == 0 || tail[0] == 47u8,
        only_separators(tail),
    ensures
        head.len() == 0 || head.last() == 47u8 ==> with_extension_of(
            head + seq![46u8, 46u8] + tail,
            new,
        ) == head + seq![46u8, 46u8] + tail,
        with_extension_of(seq![46u8] + tail, new) == seq![46u8] + tail,
        with_extension_of(tail, new) == tail,
{
    if head.len() == 0 || head.last() == 47u8 {
        let name = seq![46u8, 46u8];
        let path = head + name + tail;
        lemma_named(head, name, tail);
        assert forall|i: int| head.len() <= i < head.len() + 2 implies path[i] == DOT by {
            assert(path[i] == name[i - head.len()]);
        }
        assert(is_dots(path, head.len() as int, (head.len() + 2) as int));
    }
    let none = Seq::<u8>::empty();
    let name = seq![46u8];
    assert(none + name + tail =~= name + tail);
    lemma_named(none, name, tail);
    assert((name + tail)[0] == DOT);
    assert(is_dots(name + tail, 0, 1));
    law_no_parent(tail);
}

/// What is seen from what is seen from somewhere is seen from there: it does not matter
/// which step is taken first.
pub proof fn law_joined_steps(base: Seq<u8>, middle: Seq<u8>, path: Seq<u8>)
    ensures
        joined(joined(base, middle), path) == joined(base, joined(middle, path)),
{
    if is_absolute(path) || is_absolute(middle) {
    } else {
        assert(joined(joined(base, middle), path) =~= joined(base, joined(middle, path)));
    }
}

/// A relative path stands behind the base with one separator between them, or with none
/// where the base is empty or ends in one; an absolute path stands for itself.
pub proof fn law_joined_is(base: Seq<u8>, path: Seq<u8>)
    ensures
        path.len() > 0 && path[0] == 47u8 ==> joined(base, path) == path,
        (path.len() == 0 || path[0] != 47u8) && base.len() > 0 && base.last() != 47u8 ==> joined(
            base,
            path,
        ) == base + seq![47u8] + path,
        (path.len() == 0 || path[0] != 47u8) && (base.len() == 0 || base.last() == 47u8) ==> joined(
            base,
            path,
        ) == base + path,
{
    assert(base.push(SLASH) + path =~= base + seq![47u8] + path);
}

/// Below a directory, a single name has that directory as its parent again.
pub proof fn law_parent_undoes_join(dir: Seq<u8>, name: Seq<u8>)
    requires
        dir.len() > 0 ==> dir.last() != 47u8,
        dir.len() >= 2 ==> !(dir[dir.len() - 2] == 47u8 && dir.last() == 46u8),
        name.len() > 0,
        !name.contains(47u8),
        name != seq![46u8],
    ensures
        parent_of(joined(dir, name)) == Some(dir),
{
    let none = Seq::<u8>::empty();
    law_joined_is(dir, name);
    assert(name.contains(name[0]));
    if dir.len() == 0 {
        law_parent_of_lone_name(name, none);
        assert(name + none =~= joined(dir, name));
    } else {
        law_parent_of_name(dir, seq![47u8], name, none);
        assert(dir + seq![47u8] + name + none =~= joined(dir, name));
    }
}

/// Separators are told by their bytes: nothing at all, slashes, and dots that stand
/// alone between them.
pub proof fn law_only_separators(bytes: Seq<u8>)
    ensures
        only_separators(Seq::<u8>::empty()),
        only_separators(bytes) <==> forall|i: int|
            0 <= i < bytes.len() && (#[trigger] bytes[i]) != 47u8 ==> bytes[i] == 46u8 && i > 0
                && bytes[i - 1] == 47u8 && (i + 1 == bytes.len() || bytes[i + 1] == 47u8),
{
}

} // verus!

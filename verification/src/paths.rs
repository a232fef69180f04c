//! Pure path algebra: joining a relative link destination to the directory
//! of the current document and normalizing `.` and `..` components, testing
//! whether one path lies under another, and rewriting a path relative to
//! the working directory. All of it is string and segment manipulation:
//! nothing here touches the filesystem, and nothing panics on malformed
//! input. A `..` that would pop past the root is dropped silently.

use vstd::prelude::*;

verus! {

/// Whether a path string is absolute (begins with `/`).
pub open spec fn is_abs(s: Seq<char>) -> bool {
    s.len() > 0 && s[0] == '/'
}

/// The views of a vector of segment strings.
pub open spec fn views_of(segs: Seq<String>) -> Seq<Seq<char>> {
    segs.map_values(|s: String| s@)
}

/// Splits the remaining characters into segments at `/`, with `cur` the
/// partial segment read so far; empty segments are dropped.
pub open spec fn seg_split(s: Seq<char>, cur: Seq<char>) -> Seq<Seq<char>>
    decreases s.len(),
{
    if s.len() == 0 {
        if cur.len() == 0 {
            Seq::empty()
        } else {
            seq![cur]
        }
    } else if s[0] == '/' {
        (if cur.len() == 0 {
            Seq::<Seq<char>>::empty()
        } else {
            seq![cur]
        }) + seg_split(s.drop_first(), Seq::empty())
    } else {
        seg_split(s.drop_first(), cur.push(s[0]))
    }
}

/// The non-empty segments of a path string, in order.
pub open spec fn spec_segments(s: Seq<char>) -> Seq<Seq<char>> {
    seg_split(s, Seq::empty())
}

/// Normalizes a segment list: `.` segments are dropped, and a `..` segment
/// pops the previous segment if there is one and is dropped otherwise.
pub open spec fn clean_segs(segs: Seq<Seq<char>>) -> Seq<Seq<char>>
    decreases segs.len(),
{
    if segs.len() == 0 {
        Seq::empty()
    } else {
        let rest = clean_segs(segs.drop_last());
        if segs.last() == "."@ {
            rest
        } else if segs.last() == ".."@ {
            if rest.len() > 0 {
                rest.drop_last()
            } else {
                rest
            }
        } else {
            rest.push(segs.last())
        }
    }
}

/// Joins segments with `/`, without a leading or trailing separator.
pub open spec fn join_segs(segs: Seq<Seq<char>>) -> Seq<char>
    decreases segs.len(),
{
    if segs.len() == 0 {
        Seq::empty()
    } else if segs.len() == 1 {
        segs[0]
    } else {
        join_segs(segs.drop_last()) + "/"@ + segs.last()
    }
}

/// Renders a segment list back to a path string, absolute or relative.
pub open spec fn spec_render_path(abs: bool, segs: Seq<Seq<char>>) -> Seq<char> {
    if abs {
        "/"@ + join_segs(segs)
    } else {
        join_segs(segs)
    }
}

/// The result of joining `p` to the parent directory of `current_file` and
/// normalizing, or `None` when `current_file` has no parent (no segments at
/// all). An absolute `p` replaces the base entirely; the result is absolute
/// exactly when `p` or `current_file` is.
pub open spec fn spec_join_canonical(p: Seq<char>, current_file: Seq<char>) -> Option<Seq<char>> {
    if spec_segments(current_file).len() == 0 {
        None
    } else if is_abs(p) {
        Some(spec_render_path(true, clean_segs(spec_segments(p))))
    } else {
        Some(
            spec_render_path(
                is_abs(current_file),
                clean_segs(spec_segments(current_file).drop_last() + spec_segments(p)),
            ),
        )
    }
}

/// Whether `child` lies strictly under the directory `parent`: both must be
/// absolute, and the segments of `parent` must be a proper prefix of the
/// segments of `child`.
pub open spec fn spec_is_child_path(parent: Seq<char>, child: Seq<char>) -> bool {
    &&& is_abs(child)
    &&& is_abs(parent)
    &&& spec_segments(child).len() > spec_segments(parent).len()
    &&& spec_segments(child).take(spec_segments(parent).len() as int) == spec_segments(parent)
}

/// `file` rewritten relative to `cwd` when `cwd` is a (non-strict) segment
/// prefix of `file` and both are alike absolute or relative; `None`
/// otherwise.
pub open spec fn spec_truncate_cwd(file: Seq<char>, cwd: Seq<char>) -> Option<Seq<char>> {
    if is_abs(file) == is_abs(cwd) && spec_segments(cwd).len() <= spec_segments(file).len()
        && spec_segments(file).take(spec_segments(cwd).len() as int) == spec_segments(cwd) {
        Some(join_segs(spec_segments(file).skip(spec_segments(cwd).len() as int)))
    } else {
        None
    }
}

/// A path operation that cannot proceed.
#[derive(Clone, Copy, Debug, PartialEq, Eq, Structural)]
pub enum PathError {
    /// The base document path has no parent directory to resolve against.
    NoParent,
}

/// The non-empty segments of a path string, in order.
pub fn split_segments(s: &str) -> (segs: Vec<String>)
    ensures
        views_of(segs@) == spec_segments(s@),
{
    let len = s.unicode_len();
    let mut done: Vec<String> = Vec::new();
    let mut cur = String::new();
    let mut i: usize = 0;
    proof {
        assert(s@.skip(0) =~= s@);
        assert(views_of(done@) + seg_split(s@, Seq::<char>::empty()) =~= seg_split(
            s@,
            Seq::<char>::empty(),
        ));
    }
    while i < len
        invariant
            i <= len,
            len == s@.len(),
            spec_segments(s@) == views_of(done@) + seg_split(s@.skip(i as int), cur@),
        decreases len - i,
    {
        proof {
            assert(s@.skip(i as int).drop_first() =~= s@.skip(i + 1));
            assert(s@.skip(i as int)[0] == s@[i as int]);
        }
        let ghost old_done = views_of(done@);
        let ghost old_cur = cur@;
        let ghost rest = seg_split(s@.skip(i + 1), Seq::<char>::empty());
        let c = s.get_char(i);
        if c == '/' {
            if cur.unicode_len() > 0 {
                done.push(cur);
                cur = String::new();
                proof {
                    assert(cur@ =~= Seq::<char>::empty());
                    assert(seg_split(s@.skip(i as int), old_cur) == seq![old_cur] + rest);
                    assert(views_of(done@) =~= old_done.push(old_cur));
                    assert(old_done + (seq![old_cur] + rest) =~= old_done.push(old_cur) + rest);
                }
            } else {
                proof {
                    assert(cur@ =~= Seq::<char>::empty());
                    assert(seg_split(s@.skip(i as int), old_cur) == Seq::<Seq<char>>::empty()
                        + rest);
                    assert(old_done + (Seq::<Seq<char>>::empty() + rest) =~= old_done + rest);
                }
            }
        } else {
            crate::escape::push_char(&mut cur, c);
            proof {
                assert(seg_split(s@.skip(i as int), old_cur) == seg_split(
                    s@.skip(i + 1),
                    old_cur.push(s@[i as int]),
                ));
            }
        }
        i = i + 1;
    }
    proof {
        assert(s@.skip(len as int) =~= Seq::<char>::empty());
    }
    if cur.unicode_len() > 0 {
        let ghost old_done = views_of(done@);
        let ghost old_cur = cur@;
        done.push(cur);
        proof {
            assert(views_of(done@) =~= old_done.push(old_cur));
            assert(old_done + seq![old_cur] =~= old_done.push(old_cur));
        }
    } else {
        proof {
            assert(views_of(done@) + Seq::<Seq<char>>::empty() =~= views_of(done@));
        }
    }
    done
}

/// Whether a path string is absolute.
pub fn path_is_abs(s: &str) -> (b: bool)
    ensures
        b == is_abs(s@),
{
    s.unicode_len() > 0 && s.get_char(0) == '/'
}

/// Whether a segment is `.`.
fn seg_is_dot(s: &String) -> (b: bool)
    ensures
        b == (s@ == "."@),
{
    let d = String::from_str(".");
    s.eq(&d)
}

/// Whether a segment is `..`.
fn seg_is_dotdot(s: &String) -> (b: bool)
    ensures
        b == (s@ == ".."@),
{
    let d = String::from_str("..");
    s.eq(&d)
}

/// Normalizes a segment list: drops `.`, and lets `..` pop the previous
/// segment; a `..` with nothing left to pop is dropped silently.
pub fn clean_segments(segs: Vec<String>) -> (out: Vec<String>)
    ensures
        views_of(out@) == clean_segs(views_of(segs@)),
{
    let n = segs.len();
    let mut out: Vec<String> = Vec::new();
    let mut i: usize = 0;
    while i < n
        invariant
            i <= n,
            n == segs@.len(),
            views_of(out@) == clean_segs(views_of(segs@).take(i as int)),
        decreases n - i,
    {
        proof {
            assert(views_of(segs@).take(i + 1).drop_last() =~= views_of(segs@).take(i as int));
            assert(views_of(segs@).take(i + 1).last() == segs@[i as int]@);
        }
        let seg = &segs[i];
        if seg_is_dot(seg) {
        } else if seg_is_dotdot(seg) {
            if out.len() > 0 {
                proof {
                    assert(views_of(out@.drop_last()) =~= views_of(out@).drop_last());
                }
                out.pop();
            }
        } else {
            out.push(seg.clone());
            proof {
                assert(views_of(out@) =~= views_of(out@.drop_last()).push(out@.last()@));
            }
        }
        i = i + 1;
    }
    proof {
        assert(views_of(segs@).take(n as int) =~= views_of(segs@));
    }
    out
}

/// Joins segments with `/`, without a leading or trailing separator.
pub fn join_segments(segs: &Vec<String>) -> (s: String)
    ensures
        s@ == join_segs(views_of(segs@)),
{
    let n = segs.len();
    let mut s = String::new();
    let mut i: usize = 0;
    while i < n
        invariant
            i <= n,
            n == segs@.len(),
            s@ == join_segs(views_of(segs@).take(i as int)),
        decreases n - i,
    {
        proof {
            assert(views_of(segs@).take(i + 1).drop_last() =~= views_of(segs@).take(i as int));
            assert(views_of(segs@).take(i + 1).last() == segs@[i as int]@);
            if i == 0 {
                assert(views_of(segs@).take(1)[0] == segs@[0]@);
            }
        }
        if i > 0 {
            s.append("/");
        }
        s.append(segs[i].as_str());
        i = i + 1;
    }
    proof {
        assert(views_of(segs@).take(n as int) =~= views_of(segs@));
    }
    s
}

/// Renders a segment list back to a path string.
pub fn render_path(abs: bool, segs: &Vec<String>) -> (s: String)
    ensures
        s@ == spec_render_path(abs, views_of(segs@)),
{
    let joined = join_segments(segs);
    if abs {
        let mut s = String::from_str("/");
        s.append(joined.as_str());
        s
    } else {
        joined
    }
}

/// Joins a relative link destination to the directory of the current file
/// and normalizes the result, without touching the filesystem: `.` segments
/// are dropped and `..` segments pop one path segment, popping past the
/// root being dropped silently. A relative base yields a relative result.
/// Fails only when the current file path has no parent directory.
pub fn join_and_canonicalize(path: &str, current_file: &str) -> (r: Result<String, PathError>)
    ensures
        r is Ok <==> spec_join_canonical(path@, current_file@) is Some,
        r is Ok ==> r.unwrap()@ == spec_join_canonical(path@, current_file@).unwrap(),
{
    let mut base_segs = split_segments(current_file);
    if base_segs.len() == 0 {
        return Err(PathError::NoParent);
    }
    if path_is_abs(path) {
        let cleaned = clean_segments(split_segments(path));
        Ok(render_path(true, &cleaned))
    } else {
        proof {
            assert(views_of(base_segs@.drop_last()) =~= views_of(base_segs@).drop_last());
        }
        base_segs.pop();
        let mut rel_segs = split_segments(path);
        let ghost base_views = views_of(base_segs@);
        let ghost rel_views = views_of(rel_segs@);
        base_segs.append(&mut rel_segs);
        proof {
            assert(views_of(base_segs@) =~= base_views + rel_views);
        }
        let cleaned = clean_segments(base_segs);
        Ok(render_path(path_is_abs(current_file), &cleaned))
    }
}

/// Whether `child` lies strictly under the directory `parent_dir`: both
/// absolute, with the segments of `parent_dir` a proper prefix of those of
/// `child`. A relative `child` is never a child path.
pub fn is_child_path(parent_dir: &str, child: &str) -> (b: bool)
    ensures
        b == spec_is_child_path(parent_dir@, child@),
{
    if !path_is_abs(child) || !path_is_abs(parent_dir) {
        return false;
    }
    let parent_segs = split_segments(parent_dir);
    let child_segs = split_segments(child);
    if child_segs.len() <= parent_segs.len() {
        return false;
    }
    segments_prefix(&parent_segs, &child_segs)
}

/// Whether the first segment list is a prefix of the second.
fn segments_prefix(prefix: &Vec<String>, full: &Vec<String>) -> (b: bool)
    requires
        prefix@.len() <= full@.len(),
    ensures
        b == (views_of(full@).take(prefix@.len() as int) == views_of(prefix@)),
{
    let n = prefix.len();
    let mut i: usize = 0;
    while i < n
        invariant
            i <= n,
            n == prefix@.len() <= full@.len(),
            forall|j: int| 0 <= j < i ==> views_of(full@)[j] == views_of(prefix@)[j],
        decreases n - i,
    {
        if !full[i].eq(&prefix[i]) {
            proof {
                assert(views_of(full@)[i as int] != views_of(prefix@)[i as int]);
                assert(views_of(full@).take(n as int)[i as int] == views_of(full@)[i as int]);
            }
            return false;
        }
        i = i + 1;
    }
    proof {
        assert(views_of(full@).take(n as int) =~= views_of(prefix@));
    }
    true
}

/// Rewrites `file_path` relative to the working directory `cwd` when `cwd`
/// is a segment prefix of it and both are alike absolute or relative;
/// `None` otherwise.
pub fn truncate_cwd(file_path: &str, cwd: &str) -> (r: Option<String>)
    ensures
        r is Some <==> spec_truncate_cwd(file_path@, cwd@) is Some,
        r is Some ==> r.unwrap()@ == spec_truncate_cwd(file_path@, cwd@).unwrap(),
{
    if path_is_abs(file_path) != path_is_abs(cwd) {
        return None;
    }
    let cwd_segs = split_segments(cwd);
    let file_segs = split_segments(file_path);
    if file_segs.len() < cwd_segs.len() {
        return None;
    }
    if !segments_prefix(&cwd_segs, &file_segs) {
        return None;
    }
    let rest = segments_skip(&file_segs, cwd_segs.len());
    Some(join_segments(&rest))
}

/// The segments from position `from` on.
fn segments_skip(segs: &Vec<String>, from: usize) -> (out: Vec<String>)
    requires
        from <= segs@.len(),
    ensures
        views_of(out@) == views_of(segs@).skip(from as int),
{
    let n = segs.len();
    let mut out: Vec<String> = Vec::new();
    let mut i: usize = from;
    while i < n
        invariant
            from <= i <= n,
            n == segs@.len(),
            views_of(out@) == views_of(segs@).subrange(from as int, i as int),
        decreases n - i,
    {
        out.push(segs[i].clone());
        proof {
            assert(views_of(out@) =~= views_of(out@.drop_last()).push(out@.last()@));
            assert(views_of(segs@).subrange(from as int, i + 1) =~= views_of(segs@).subrange(
                from as int,
                i as int,
            ).push(views_of(segs@)[i as int]));
        }
        i = i + 1;
    }
    proof {
        assert(views_of(segs@).subrange(from as int, n as int) =~= views_of(segs@).skip(
            from as int,
        ));
    }
    out
}

/// `file_path` rewritten relative to the working directory when it lies
/// under it, and unchanged otherwise; `None` only when the rewrite of a
/// child path fails.
pub fn get_relative_path_under_cwd(file_path: String, cwd: &str) -> (r: Option<String>)
    ensures
        spec_is_child_path(cwd@, file_path@) ==> (r is Some <==> spec_truncate_cwd(
            file_path@,
            cwd@,
        ) is Some) && (r is Some ==> r.unwrap()@ == spec_truncate_cwd(file_path@, cwd@).unwrap()),
        !spec_is_child_path(cwd@, file_path@) ==> r == Some(file_path),
{
    if is_child_path(cwd, file_path.as_str()) {
        truncate_cwd(file_path.as_str(), cwd)
    } else {
        Some(file_path)
    }
}

/// An image destination resolved against the directory of the current
/// document: an absolute destination stands as it is; a relative one is
/// joined to `base_dir` (unchanged when `base_dir` is empty), without
/// normalization.
pub open spec fn spec_resolve_image(dest: Seq<char>, base_dir: Seq<char>) -> Seq<char> {
    if is_abs(dest) {
        dest
    } else if base_dir.len() == 0 {
        dest
    } else {
        base_dir + "/"@ + dest
    }
}

/// The parent directory of a path, rendered from its segments; the empty
/// string when the path has no parent.
pub open spec fn spec_parent_dir(path: Seq<char>) -> Seq<char> {
    if spec_segments(path).len() == 0 {
        Seq::empty()
    } else {
        spec_render_path(is_abs(path), spec_segments(path).drop_last())
    }
}

/// The parent directory of a path (the empty string when it has none),
/// against which a document's images are resolved.
pub fn parent_dir(path: &str) -> (r: String)
    ensures
        r@ == spec_parent_dir(path@),
{
    let mut segs = split_segments(path);
    if segs.len() == 0 {
        let r = String::new();
        proof {
            assert(r@ =~= Seq::<char>::empty());
        }
        r
    } else {
        proof {
            assert(views_of(segs@.drop_last()) =~= views_of(segs@).drop_last());
        }
        segs.pop();
        render_path(path_is_abs(path), &segs)
    }
}

/// Resolves an image destination against the directory of the current
/// document: an absolute destination stands as it is; a relative one is
/// joined to `base_dir` (unchanged when `base_dir` is empty), without
/// normalization.
pub fn resolve_image_path(dest: &str, base_dir: &str) -> (r: String)
    ensures
        r@ == spec_resolve_image(dest@, base_dir@),
{
    if path_is_abs(dest) {
        String::from_str(dest)
    } else if base_dir.unicode_len() == 0 {
        String::from_str(dest)
    } else {
        let mut r = String::from_str(base_dir);
        r.append("/");
        r.append(dest);
        r
    }
}

} // verus!

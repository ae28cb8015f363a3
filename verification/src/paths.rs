//! A verified model of slash-separated file paths.
//!
//! A path is classified into components: a leading root marker, a leading
//! `.`, `..` segments, and plain-text (`Normal`) segments.  Empty segments
//! (from repeated separators) and non-leading `.` segments are dropped, as
//! the host platform's path inspection does.  On top of the component model
//! the module builds the two operations the tool needs: the path of a file
//! relative to a project root, and the dotted namespace that a test runner
//! expects for a file under a test root.

use vstd::prelude::*;

use crate::errors::PathError;
use crate::text::{join_with, join_strings, push_char, str_eq};

verus! {

/// The separator character between path components.
pub const SEPARATOR: char = '/';

/// One component of a file path.
#[derive(Debug)]
pub enum PathComp {
    /// A leading `/`.
    RootDir,
    /// A leading `.` segment.
    CurDir,
    /// A `..` segment.
    ParentDir,
    /// A plain-text segment; its text is never empty.
    Normal(String),
}

/// The mathematical form of a path component: a `Normal` component carries
/// its text as a sequence of characters.
pub enum CompView {
    RootDir,
    CurDir,
    ParentDir,
    Normal(Seq<char>),
}

impl View for PathComp {
    type V = CompView;

    open spec fn view(&self) -> CompView {
        match self {
            PathComp::RootDir => CompView::RootDir,
            PathComp::CurDir => CompView::CurDir,
            PathComp::ParentDir => CompView::ParentDir,
            PathComp::Normal(s) => CompView::Normal(s@),
        }
    }
}

impl DeepView for PathComp {
    type V = CompView;

    open spec fn deep_view(&self) -> CompView {
        self.view()
    }
}

/// The segments of `s`, split at every occurrence of `sep`.
/// Splitting the empty string yields one empty segment.
pub open spec fn split_on(s: Seq<char>, sep: char) -> Seq<Seq<char>>
    decreases s.len(),
{
    if s.len() == 0 {
        seq![Seq::<char>::empty()]
    } else if s.last() == sep {
        split_on(s.drop_last(), sep).push(Seq::empty())
    } else {
        let r = split_on(s.drop_last(), sep);
        r.update(r.len() - 1, r.last().push(s.last()))
    }
}

pub proof fn lemma_split_on_len(s: Seq<char>, sep: char)
    ensures
        split_on(s, sep).len() >= 1,
    decreases s.len(),
{
    if s.len() > 0 {
        lemma_split_on_len(s.drop_last(), sep);
    }
}

/// Splits `s` at every occurrence of the character `sep`.
pub fn split_string(s: &str, sep: char) -> (r: Vec<String>)
    ensures
        r.deep_view() == split_on(s@, sep),
        r.len() >= 1,
{
    let n = s.unicode_len();
    let mut done: Vec<String> = Vec::new();
    let mut cur = String::new();
    let mut i: usize = 0;
    while i < n
        invariant
            n == s@.len(),
            0 <= i <= n,
            done.deep_view().push(cur@) =~= split_on(s@.take(i as int), sep),
        decreases n - i,
    {
        let c = s.get_char(i);
        proof {
            assert(s@.take(i + 1).drop_last() =~= s@.take(i as int));
            assert(s@.take(i + 1).last() == s@[i as int]);
            lemma_split_on_len(s@.take(i as int), sep);
        }
        let ghost prev_done = done.deep_view();
        let ghost prev_cur = cur@;
        if c == sep {
            done.push(cur);
            cur = String::new();
            proof {
                assert(done.deep_view() =~= prev_done.push(prev_cur));
                assert(done.deep_view().push(cur@) =~= split_on(
                    s@.take(i as int),
                    sep,
                ).push(Seq::empty()));
            }
        } else {
            push_char(&mut cur, c);
            proof {
                let r = split_on(s@.take(i as int), sep);
                assert(r.last() == prev_cur);
                assert(done.deep_view().push(cur@) =~= r.update(
                    r.len() - 1,
                    r.last().push(s@[i as int]),
                ));
            }
        }
        i += 1;
    }
    proof {
        assert(s@.take(n as int) =~= s@);
    }
    done.push(cur);
    proof {
        lemma_split_on_len(s@, sep);
        assert(done.deep_view() =~= split_on(s@, sep));
    }
    done
}

/// How one raw segment contributes to the component list: empty segments and
/// `.` segments vanish, `..` is a parent marker, anything else is plain text.
pub open spec fn comp_of_seg(seg: Seq<char>) -> Seq<CompView> {
    if seg.len() == 0 || seg == "."@ {
        Seq::empty()
    } else if seg == ".."@ {
        seq![CompView::ParentDir]
    } else {
        seq![CompView::Normal(seg)]
    }
}

/// The components contributed by a list of raw segments.
pub open spec fn segs_comps(segs: Seq<Seq<char>>) -> Seq<CompView>
    decreases segs.len(),
{
    if segs.len() == 0 {
        Seq::empty()
    } else {
        segs_comps(segs.drop_last()) + comp_of_seg(segs.last())
    }
}

/// The leading marker of a path: a root marker if the path starts with the
/// separator, a `.` marker if its first segment is `.`, nothing otherwise.
pub open spec fn path_marker(s: Seq<char>) -> Seq<CompView> {
    if s.len() > 0 && s[0] == SEPARATOR {
        seq![CompView::RootDir]
    } else if split_on(s, SEPARATOR)[0] == "."@ {
        seq![CompView::CurDir]
    } else {
        Seq::empty()
    }
}

/// The full component list of a path string.
pub open spec fn path_comps(s: Seq<char>) -> Seq<CompView> {
    path_marker(s) + segs_comps(split_on(s, SEPARATOR))
}

fn comp_of_seg_exec(seg: String) -> (r: Option<PathComp>)
    ensures
        match r {
            Some(c) => comp_of_seg(seg@) == seq![c@],
            None => comp_of_seg(seg@) == Seq::<CompView>::empty(),
        },
{
    if seg.unicode_len() == 0 || str_eq(seg.as_str(), ".") {
        None
    } else if str_eq(seg.as_str(), "..") {
        Some(PathComp::ParentDir)
    } else {
        Some(PathComp::Normal(seg))
    }
}

/// Parses a path string into its component list.
pub fn parse_path(s: &str) -> (r: Vec<PathComp>)
    ensures
        r.deep_view() == path_comps(s@),
{
    let segs = split_string(s, SEPARATOR);
    let mut out: Vec<PathComp> = Vec::new();
    if s.unicode_len() > 0 && s.get_char(0) == SEPARATOR {
        out.push(PathComp::RootDir);
    } else if str_eq(segs[0].as_str(), ".") {
        out.push(PathComp::CurDir);
    }
    proof {
        assert(segs.deep_view()[0] == segs@[0]@);
        assert(out.deep_view() =~= path_marker(s@));
    }
    let ghost marker = path_marker(s@);
    let mut i: usize = 0;
    while i < segs.len()
        invariant
            out.deep_view() =~= marker + segs_comps(segs.deep_view().take(i as int)),
            0 <= i <= segs@.len(),
            segs.deep_view() == split_on(s@, SEPARATOR),
            marker == path_marker(s@),
        decreases segs@.len() - i,
    {
        let ghost prev_out = out.deep_view();
        let seg = segs[i].clone();
        proof {
            assert(seg@ == segs.deep_view()[i as int]);
            assert(segs.deep_view().take(i + 1).drop_last() =~= segs.deep_view().take(i as int));
            assert(segs.deep_view().take(i + 1).last() == segs.deep_view()[i as int]);
        }
        match comp_of_seg_exec(seg) {
            Some(c) => {
                out.push(c);
                proof {
                    assert(out.deep_view() =~= prev_out.push(c@));
                    assert(out.deep_view() =~= marker + segs_comps(
                        segs.deep_view().take(i + 1),
                    ));
                }
            },
            None => {
                proof {
                    assert(out.deep_view() =~= marker + segs_comps(
                        segs.deep_view().take(i + 1),
                    ));
                }
            },
        }
        i += 1;
    }
    proof {
        assert(segs.deep_view().take(segs.deep_view().len() as int) =~= segs.deep_view());
    }
    out
}

/// Whether two components are equal.
pub fn comp_eq(a: &PathComp, b: &PathComp) -> (r: bool)
    ensures
        r == (a@ == b@),
{
    match (a, b) {
        (PathComp::RootDir, PathComp::RootDir) => true,
        (PathComp::CurDir, PathComp::CurDir) => true,
        (PathComp::ParentDir, PathComp::ParentDir) => true,
        (PathComp::Normal(x), PathComp::Normal(y)) => str_eq(x.as_str(), y.as_str()),
        _ => false,
    }
}

/// Whether the components of `root` are a prefix of the components of `full`.
pub fn comps_prefix(root: &Vec<PathComp>, full: &Vec<PathComp>) -> (r: bool)
    ensures
        r == root.deep_view().is_prefix_of(full.deep_view()),
{
    if root.len() > full.len() {
        return false;
    }
    let mut i: usize = 0;
    while i < root.len()
        invariant
            0 <= i <= root@.len() <= full@.len(),
            forall|j: int| 0 <= j < i ==> root.deep_view()[j] == full.deep_view()[j],
        decreases root@.len() - i,
    {
        if !comp_eq(&root[i], &full[i]) {
            proof {
                assert(root.deep_view()[i as int] != full.deep_view().subrange(
                    0,
                    root.deep_view().len() as int,
                )[i as int]);
            }
            return false;
        }
        i += 1;
    }
    proof {
        assert(root.deep_view() =~= full.deep_view().subrange(0, root.deep_view().len() as int));
    }
    true
}

/// The text of one component.
pub open spec fn comp_text(c: CompView) -> Seq<char> {
    match c {
        CompView::RootDir => "/"@,
        CompView::CurDir => "."@,
        CompView::ParentDir => ".."@,
        CompView::Normal(t) => t,
    }
}

fn comp_text_exec(c: &PathComp) -> (r: String)
    ensures
        r@ == comp_text(c@),
{
    match c {
        PathComp::RootDir => String::from_str("/"),
        PathComp::CurDir => String::from_str("."),
        PathComp::ParentDir => String::from_str(".."),
        PathComp::Normal(s) => s.clone(),
    }
}

/// The path of `full` relative to `root`: the components that remain after
/// the components of `root`, joined by the separator.  Fails when `full`
/// does not lie under `root`, that is, when the components of `root` are not
/// a prefix of those of `full`, or when what remains is itself absolute.
pub open spec fn spec_relative_path(full: Seq<char>, root: Seq<char>) -> Result<
    Seq<char>,
    PathError,
> {
    let fc = path_comps(full);
    let rc = path_comps(root);
    if !rc.is_prefix_of(fc) {
        Err(PathError::NotUnderRoot)
    } else {
        let rem = fc.skip(rc.len() as int);
        if rem.len() > 0 && rem[0] is RootDir {
            Err(PathError::NotUnderRoot)
        } else {
            Ok(join_with(rem.map_values(|c: CompView| comp_text(c)), SEPARATOR))
        }
    }
}

/// Computes the path of `full_path` relative to `root`.
pub fn relative_path(full_path: &str, root: &str) -> (r: Result<String, PathError>)
    ensures
        match spec_relative_path(full_path@, root@) {
            Ok(rel) => r matches Ok(s) && s@ == rel,
            Err(e) => r matches Err(a) && a == e,
        },
{
    let fc = parse_path(full_path);
    let rc = parse_path(root);
    if !comps_prefix(&rc, &fc) {
        return Err(PathError::NotUnderRoot);
    }
    let start = rc.len();
    if start < fc.len() {
        if let PathComp::RootDir = &fc[start] {
            return Err(PathError::NotUnderRoot);
        }
    }
    let ghost rem = fc.deep_view().skip(rc.deep_view().len() as int);
    let mut texts: Vec<String> = Vec::new();
    let mut i: usize = start;
    while i < fc.len()
        invariant
            rc@.len() == start <= i <= fc@.len(),
            rem == fc.deep_view().skip(start as int),
            texts.deep_view() =~= fc.deep_view().subrange(start as int, i as int).map_values(
                |c: CompView| comp_text(c),
            ),
        decreases fc@.len() - i,
    {
        let ghost prev = texts.deep_view();
        texts.push(comp_text_exec(&fc[i]));
        proof {
            let sub = fc.deep_view().subrange(start as int, i as int);
            let sub1 = fc.deep_view().subrange(start as int, i + 1);
            assert(sub1.drop_last() =~= sub);
            assert(texts.deep_view() =~= prev.push(comp_text(fc.deep_view()[i as int])));
            assert(texts.deep_view() =~= sub1.map_values(|c: CompView| comp_text(c)));
        }
        i += 1;
    }
    proof {
        assert(fc.deep_view().subrange(start as int, fc.deep_view().len() as int) =~= rem);
    }
    Ok(join_strings(&texts, SEPARATOR))
}

/// Removes a trailing `.cs` extension, when there is one.
pub open spec fn strip_cs_suffix(s: Seq<char>) -> Seq<char> {
    if s.len() >= 3 && s.subrange(s.len() - 3, s.len() as int) == ".cs"@ {
        s.take(s.len() - 3)
    } else {
        s
    }
}

/// Whether every component in the list is plain text.
pub open spec fn all_normal(comps: Seq<CompView>) -> bool {
    forall|i: int| 0 <= i < comps.len() ==> comps[i] is Normal
}

/// The dotted namespace of `full` with respect to the test root `root`: the
/// remaining components joined by `.`, with a trailing `.cs` extension
/// stripped.  Fails when `full` is not under `root`, when nothing remains,
/// or when any remaining component is not plain text — a bad component is an
/// error, never silently skipped.
pub open spec fn spec_namespace(full: Seq<char>, root: Seq<char>) -> Result<
    Seq<char>,
    PathError,
> {
    let fc = path_comps(full);
    let rc = path_comps(root);
    if !rc.is_prefix_of(fc) {
        Err(PathError::NotUnderRoot)
    } else {
        let rem = fc.skip(rc.len() as int);
        if rem.len() == 0 {
            Err(PathError::EmptyRelativePath)
        } else if !all_normal(rem) {
            Err(PathError::NonTextComponent)
        } else {
            Ok(strip_cs_suffix(join_with(rem.map_values(|c: CompView| comp_text(c)), '.')))
        }
    }
}

/// Computes the dotted namespace of `full_path` under the test root `root`.
pub fn namespace_path(full_path: &str, root: &str) -> (r: Result<String, PathError>)
    ensures
        match spec_namespace(full_path@, root@) {
            Ok(ns) => r matches Ok(s) && s@ == ns,
            Err(e) => r matches Err(a) && a == e,
        },
{
    let fc = parse_path(full_path);
    let rc = parse_path(root);
    if !comps_prefix(&rc, &fc) {
        return Err(PathError::NotUnderRoot);
    }
    let start = rc.len();
    if start == fc.len() {
        return Err(PathError::EmptyRelativePath);
    }
    let ghost rem = fc.deep_view().skip(rc.deep_view().len() as int);
    let mut texts: Vec<String> = Vec::new();
    let mut i: usize = start;
    while i < fc.len()
        invariant
            rc@.len() == start <= i <= fc@.len(),
            fc.deep_view() == path_comps(full_path@),
            rc.deep_view() == path_comps(root@),
            rc.deep_view().is_prefix_of(fc.deep_view()),
            rem == fc.deep_view().skip(start as int),
            forall|j: int| start <= j < i ==> fc.deep_view()[j] is Normal,
            texts.deep_view() =~= fc.deep_view().subrange(start as int, i as int).map_values(
                |c: CompView| comp_text(c),
            ),
        decreases fc@.len() - i,
    {
        let ghost prev = texts.deep_view();
        match &fc[i] {
            PathComp::Normal(s) => {
                texts.push(s.clone());
                proof {
                    let sub = fc.deep_view().subrange(start as int, i as int);
                    let sub1 = fc.deep_view().subrange(start as int, i + 1);
                    assert(sub1.drop_last() =~= sub);
                    assert(texts.deep_view() =~= prev.push(comp_text(fc.deep_view()[i as int])));
                    assert(texts.deep_view() =~= sub1.map_values(|c: CompView| comp_text(c)));
                }
            },
            _ => {
                proof {
                    let bad = i - start as int;
                    assert(rem[bad] == fc.deep_view()[i as int]);
                    assert(!(rem[bad] is Normal));
                    assert(!all_normal(rem));
                }
                return Err(PathError::NonTextComponent);
            },
        }
        i += 1;
    }
    proof {
        assert(fc.deep_view().subrange(start as int, fc.deep_view().len() as int) =~= rem);
    }
    let joined = join_strings(&texts, '.');
    let n = joined.unicode_len();
    if n >= 3 {
        let tail = joined.as_str().substring_char(n - 3, n);
        if str_eq(tail, ".cs") {
            let head = joined.as_str().substring_char(0, n - 3);
            return Ok(String::from_str(head));
        }
    }
    Ok(joined)
}

/// The file name of a path: the text of its last component, when that
/// component is plain text.
pub open spec fn spec_file_name(s: Seq<char>) -> Option<Seq<char>> {
    let cs = path_comps(s);
    if cs.len() == 0 {
        None
    } else {
        match cs.last() {
            CompView::Normal(t) => Some(t),
            _ => None,
        }
    }
}

/// Returns the file name of `path`, when its last component is plain text.
pub fn file_name(path: &str) -> (r: Option<String>)
    ensures
        match spec_file_name(path@) {
            Some(t) => r matches Some(s) && s@ == t,
            None => r is None,
        },
{
    let comps = parse_path(path);
    if comps.len() == 0 {
        return None;
    }
    match &comps[comps.len() - 1] {
        PathComp::Normal(s) => Some(s.clone()),
        _ => None,
    }
}

/// Whether the file named by the path is hidden: its file name starts with
/// `.`.  Unknown when the path has no plain-text file name.
pub open spec fn spec_is_hidden(s: Seq<char>) -> Option<bool> {
    match spec_file_name(s) {
        Some(t) => Some(t.len() > 0 && t[0] == '.'),
        None => None,
    }
}

/// Law: a file that does not lie under the root — the root's components are
/// not a prefix of the file's — has no namespace; the computation fails
/// rather than approximating.
pub proof fn lemma_namespace_requires_root_prefix(full: Seq<char>, root: Seq<char>)
    requires
        !path_comps(root).is_prefix_of(path_comps(full)),
    ensures
        spec_namespace(full, root) == Err::<Seq<char>, PathError>(PathError::NotUnderRoot),
{
}

/// Law: when the file lies under the root and at least one component
/// remains, all of them plain text, the namespace is those components'
/// texts joined by `.`, with a trailing `.cs` extension stripped.
pub proof fn lemma_namespace_of_normal_components(full: Seq<char>, root: Seq<char>)
    requires
        path_comps(root).is_prefix_of(path_comps(full)),
        path_comps(root).len() < path_comps(full).len(),
        all_normal(path_comps(full).skip(path_comps(root).len() as int)),
    ensures
        spec_namespace(full, root) == Ok::<Seq<char>, PathError>(
            strip_cs_suffix(
                join_with(
                    path_comps(full).skip(path_comps(root).len() as int).map_values(
                        |c: CompView| comp_text(c),
                    ),
                    '.',
                ),
            ),
        ),
{
}

/// Law: one bad segment spoils the whole namespace.  When any component of
/// the path relative to the root is not plain text — a `..` segment, say —
/// the computation fails with `NonTextComponent`; the bad segment is never
/// silently skipped.
pub proof fn lemma_namespace_rejects_bad_component(full: Seq<char>, root: Seq<char>, i: int)
    requires
        path_comps(root).is_prefix_of(path_comps(full)),
        path_comps(root).len() <= i < path_comps(full).len(),
        !(path_comps(full)[i] is Normal),
    ensures
        spec_namespace(full, root) == Err::<Seq<char>, PathError>(PathError::NonTextComponent),
{
    let rem = path_comps(full).skip(path_comps(root).len() as int);
    assert(rem[i - path_comps(root).len()] == path_comps(full)[i]);
    assert(!all_normal(rem));
}

} // verus!

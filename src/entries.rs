use vstd::prelude::*;
use vstd::string::StringExecFns;

use crate::error::VenvError;
use crate::text::{blank, is_blank, join, join_path, split_chars, split_on, views};

verus! {

/// Where relative extra entries are resolved: the root of the enclosing build
/// workspace and the workspace-relative paths to add, in order.
pub struct WorkspaceContext {
    pub workspace_root: String,
    pub additional_relative_paths: Vec<String>,
}

/// The path-configuration file to generate: the path-list file it is read
/// from and the prefix placed in front of every entry.
pub struct PathConfigSpec {
    pub source_file: String,
    pub entry_prefix: Option<String>,
}

impl PathConfigSpec {
    pub fn new(source_file: String, entry_prefix: Option<String>) -> (r: PathConfigSpec)
        ensures
            r.source_file == source_file,
            r.entry_prefix == entry_prefix,
    {
        PathConfigSpec { source_file, entry_prefix }
    }
}

/// The source lines that become entries: those that are not blank, in order.
pub open spec fn kept_lines(lines: Seq<Seq<char>>) -> Seq<Seq<char>> {
    lines.filter(|e: Seq<char>| !is_blank(e))
}

proof fn lemma_kept_lines_push(lines: Seq<Seq<char>>, e: Seq<char>)
    ensures
        kept_lines(lines.push(e)) == if is_blank(e) {
            kept_lines(lines)
        } else {
            kept_lines(lines).push(e)
        },
{
    lines.lemma_filter_push(e, |x: Seq<char>| !is_blank(x));
}

/// The additional paths, each resolved under the workspace root.
pub open spec fn resolved_paths(root: Seq<char>, paths: Seq<Seq<char>>) -> Seq<Seq<char>> {
    paths.map_values(|p: Seq<char>| join_path(root, p))
}

/// The resolved additional paths of an optional workspace; none without one.
pub open spec fn workspace_entries(ws: Option<WorkspaceContext>) -> Seq<Seq<char>> {
    match ws {
        Some(w) => resolved_paths(w.workspace_root@, views(w.additional_relative_paths@)),
        None => Seq::empty(),
    }
}

pub open spec fn opt_view(s: Option<String>) -> Option<Seq<char>> {
    match s {
        Some(p) => Some(p@),
        None => None,
    }
}

/// An entry placed under the prefix, where there is one.
pub open spec fn with_prefix(prefix: Option<Seq<char>>, e: Seq<char>) -> Seq<char> {
    match prefix {
        Some(p) => join_path(p, e),
        None => e,
    }
}

/// The final entries: the kept source lines, then the extra entries, each
/// under the prefix.
pub open spec fn transformed(
    lines: Seq<Seq<char>>,
    prefix: Option<Seq<char>>,
    extra: Seq<Seq<char>>,
) -> Seq<Seq<char>> {
    (kept_lines(lines) + extra).map_values(|e: Seq<char>| with_prefix(prefix, e))
}

/// The text of a path-configuration file: each entry on a line of its own.
pub open spec fn rendered(entries: Seq<Seq<char>>) -> Seq<char>
    decreases entries.len(),
{
    if entries.len() == 0 {
        Seq::empty()
    } else {
        rendered(entries.drop_last()) + entries.last() + seq!['\n']
    }
}

/// Pairs the workspace root with the additional paths. Paths without a root
/// are refused; a root without paths adds nothing.
pub fn workspace_context(root: Option<String>, paths: Option<Vec<String>>) -> (r: Result<
    Option<WorkspaceContext>,
    VenvError,
>)
    ensures
        r is Err <==> (paths is Some && root is None),
        r is Err ==> r == Err::<Option<WorkspaceContext>, VenvError>(
            VenvError::WorkspacePathsWithoutRoot,
        ),
        r matches Ok(c) ==> (c is Some <==> paths is Some),
        r matches Ok(Some(w)) ==> root == Some(w.workspace_root) && paths == Some(
            w.additional_relative_paths,
        ),
{
    match paths {
        None => Ok(None),
        Some(p) => match root {
            None => Err(VenvError::WorkspacePathsWithoutRoot),
            Some(w) => Ok(Some(WorkspaceContext { workspace_root: w, additional_relative_paths: p })),
        },
    }
}

/// Places an entry under the prefix, where there is one.
pub fn prefixed(prefix: &Option<String>, e: &str) -> (r: String)
    ensures
        r@ == with_prefix(opt_view(*prefix), e@),
{
    match prefix {
        Some(p) => join(p.as_str(), e),
        None => String::from_str(e),
    }
}

/// Turns source lines into the final entries: blank lines are dropped, the
/// workspace's additional paths are resolved under its root and appended, and
/// every entry is placed under the prefix. Order is kept and nothing is
/// deduplicated.
pub fn transform(
    lines: &Vec<String>,
    prefix: &Option<String>,
    workspace: &Option<WorkspaceContext>,
) -> (r: Vec<String>)
    ensures
        views(r@) == transformed(views(lines@), opt_view(*prefix), workspace_entries(*workspace)),
{
    let ghost pv = opt_view(*prefix);
    let ghost f = |e: Seq<char>| with_prefix(pv, e);
    let ghost all = views(lines@);
    let mut out: Vec<String> = Vec::new();
    let mut i: usize = 0;
    assert(all.take(0) =~= Seq::<Seq<char>>::empty());
    assert(views(out@) =~= kept_lines(all.take(0)).map_values(f));
    while i < lines.len()
        invariant
            i <= lines@.len(),
            all == views(lines@),
            pv == opt_view(*prefix),
            f == (|e: Seq<char>| with_prefix(pv, e)),
            views(out@) == kept_lines(all.take(i as int)).map_values(f),
        decreases lines@.len() - i,
    {
        let line = &lines[i];
        assert(all.take(i + 1).drop_last() =~= all.take(i as int));
        assert(all.take(i + 1).last() == line@);
        let ghost prev = kept_lines(all.take(i as int));
        proof {
            assert(all.take(i + 1) =~= all.take(i as int).push(line@));
            lemma_kept_lines_push(all.take(i as int), line@);
        }
        if !blank(line.as_str()) {
            let e = prefixed(prefix, line.as_str());
            assert(kept_lines(all.take(i + 1)) == prev.push(line@));
            assert(prev.push(line@).map_values(f) =~= prev.map_values(f).push(e@));
            assert(views(out@.push(e)) =~= views(out@).push(e@));
            out.push(e);
        } else {
            assert(kept_lines(all.take(i + 1)) == prev);
        }
        i = i + 1;
    }
    assert(all.take(lines@.len() as int) =~= all);
    let ghost kept = kept_lines(all);
    let ghost extra = workspace_entries(*workspace);
    assert(views(out@) =~= (kept + extra.take(0)).map_values(f));
    match workspace {
        None => {
            assert(extra.take(0) =~= extra);
        },
        Some(w) => {
            let mut j: usize = 0;
            while j < w.additional_relative_paths.len()
                invariant
                    j <= w.additional_relative_paths@.len(),
                    *workspace == Some(*w),
                    extra == resolved_paths(w.workspace_root@, views(w.additional_relative_paths@)),
                    pv == opt_view(*prefix),
                    f == (|e: Seq<char>| with_prefix(pv, e)),
                    views(out@) == (kept + extra.take(j as int)).map_values(f),
                decreases w.additional_relative_paths@.len() - j,
            {
                let full = join(w.workspace_root.as_str(), w.additional_relative_paths[j].as_str());
                let e = prefixed(prefix, full.as_str());
                assert(extra[j as int] == full@);
                assert((kept + extra.take(j + 1)) =~= (kept + extra.take(j as int)).push(full@));
                let ghost before = kept + extra.take(j as int);
                assert(before.push(full@).map_values(f) =~= before.map_values(f).push(e@));
                assert(views(out@.push(e)) =~= views(out@).push(e@));
                out.push(e);
                j = j + 1;
            }
            assert(extra.take(j as int) =~= extra);
        },
    }
    out
}

/// Writes the entries one per line, each line ended by a newline.
pub fn render(entries: &Vec<String>) -> (r: String)
    ensures
        r@ == rendered(views(entries@)),
{
    proof {
        reveal_strlit("\n");
    }
    let ghost all = views(entries@);
    let mut out = String::new();
    let mut i: usize = 0;
    assert(all.take(0) =~= Seq::<Seq<char>>::empty());
    while i < entries.len()
        invariant
            i <= entries@.len(),
            all == views(entries@),
            "\n"@ == seq!['\n'],
            out@ == rendered(all.take(i as int)),
        decreases entries@.len() - i,
    {
        assert(all.take(i + 1).drop_last() =~= all.take(i as int));
        assert(all.take(i + 1).last() == entries@[i as int]@);
        out.append(entries[i].as_str());
        out.append("\n");
        i = i + 1;
    }
    assert(all.take(entries@.len() as int) =~= all);
    out
}

/// The content of the path-configuration file built from the text of the
/// source path list: its lines become entries as `transform` says, rendered
/// one per line.
pub fn build_path_config(
    source: &str,
    prefix: &Option<String>,
    workspace: &Option<WorkspaceContext>,
) -> (r: String)
    ensures
        r@ == rendered(
            transformed(split_on(source@, '\n'), opt_view(*prefix), workspace_entries(*workspace)),
        ),
{
    let lines = split_chars(source, '\n');
    let entries = transform(&lines, prefix, workspace);
    render(&entries)
}

/// The blank source lines.
pub open spec fn blank_lines(lines: Seq<Seq<char>>) -> Seq<Seq<char>> {
    lines.filter(|e: Seq<char>| is_blank(e))
}

/// Every source line is either kept or blank.
pub proof fn lemma_kept_count(lines: Seq<Seq<char>>)
    ensures
        kept_lines(lines).len() + blank_lines(lines).len() == lines.len(),
    decreases lines.len(),
{
    if lines.len() > 0 {
        let init = lines.drop_last();
        lemma_kept_count(init);
        assert(init.push(lines.last()) =~= lines);
        lemma_kept_lines_push(init, lines.last());
        init.lemma_filter_push(lines.last(), |x: Seq<char>| is_blank(x));
    }
}

/// Under a prefix, every final entry is that prefix joined as a path with the
/// entry it came from, so it begins with the prefix; there is one final entry
/// per source line that is not blank and one per additional workspace path.
pub proof fn lemma_prefix_on_every_entry(
    lines: Seq<Seq<char>>,
    p: Seq<char>,
    root: Seq<char>,
    paths: Seq<Seq<char>>,
)
    ensures
        transformed(lines, Some(p), resolved_paths(root, paths)).len() == lines.len()
            - blank_lines(lines).len() + paths.len(),
        forall|i: int|
            0 <= i < transformed(lines, Some(p), resolved_paths(root, paths)).len() ==> {
                &&& #[trigger] transformed(lines, Some(p), resolved_paths(root, paths))[i]
                    == join_path(p, (kept_lines(lines) + resolved_paths(root, paths))[i])
                &&& p.is_prefix_of(transformed(lines, Some(p), resolved_paths(root, paths))[i])
            },
{
    lemma_kept_count(lines);
    let extra = resolved_paths(root, paths);
    let out = transformed(lines, Some(p), extra);
    assert forall|i: int| 0 <= i < out.len() implies p.is_prefix_of(#[trigger] out[i]) by {
        let e = (kept_lines(lines) + extra)[i];
        assert(out[i] == join_path(p, e));
        if p.len() > 0 {
            if p.last() == '/' {
                assert((p + e).subrange(0, p.len() as int) =~= p);
            } else {
                assert((p + seq!['/'] + e).subrange(0, p.len() as int) =~= p);
            }
        }
    }
}

/// Order is kept, with or without a prefix: first the source lines that are
/// not blank, in file order, then the additional workspace paths, each
/// resolved under the root, in the order given.
pub proof fn lemma_order_kept(
    lines: Seq<Seq<char>>,
    prefix: Option<Seq<char>>,
    root: Seq<char>,
    paths: Seq<Seq<char>>,
)
    ensures
        transformed(lines, prefix, resolved_paths(root, paths)).len() == kept_lines(lines).len()
            + paths.len(),
        forall|i: int|
            0 <= i < kept_lines(lines).len() ==> #[trigger] transformed(
                lines,
                prefix,
                resolved_paths(root, paths),
            )[i] == with_prefix(prefix, kept_lines(lines)[i]),
        forall|j: int|
            0 <= j < paths.len() ==> #[trigger] transformed(
                lines,
                prefix,
                resolved_paths(root, paths),
            )[kept_lines(lines).len() + j] == with_prefix(prefix, join_path(root, paths[j])),
{
    let k = kept_lines(lines);
    let extra = resolved_paths(root, paths);
    assert forall|j: int| 0 <= j < paths.len() implies #[trigger] transformed(
        lines,
        prefix,
        extra,
    )[k.len() + j] == with_prefix(prefix, join_path(root, paths[j])) by {
        assert((k + extra)[k.len() + j] == extra[j]);
    }
}

/// The kept source lines are exactly the lines that are not blank, in the
/// order of the file.
pub proof fn lemma_kept_lines_in_order(lines: Seq<Seq<char>>)
    ensures
        forall|i: int| 0 <= i < kept_lines(lines).len() ==> !is_blank(#[trigger] kept_lines(lines)[i]),
        forall|i: int|
            0 <= i < lines.len() && !is_blank(#[trigger] lines[i]) ==> kept_lines(lines).contains(
                lines[i],
            ),
        forall|i: int| 0 <= i < kept_lines(lines).len() ==> lines.contains(#[trigger] kept_lines(lines)[i]),
{
    broadcast use vstd::seq_lib::group_filter_ensures;

    let k = kept_lines(lines);
    assert forall|i: int| 0 <= i < k.len() implies lines.contains(#[trigger] k[i]) by {
        assert(k.contains(k[i]));
        lines.lemma_filter_contains_rev(|e: Seq<char>| !is_blank(e), k[i]);
    }
}

} // verus!

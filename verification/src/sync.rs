//! The data synchronizer: merging bundled template assets into the
//! persistent data directory, additively.
//!
//! The decision logic is a pure planner: given the template's file listing
//! and the destination's, it computes the copies to perform. A plain file is
//! copied only when missing; an example-named file always refreshes its own
//! destination copy and seeds its live counterpart only when that is
//! missing. The driver executes the plan in order; nothing is ever deleted.

use vstd::prelude::*;

use crate::paths::join_seq;
use crate::text::{contains_at, find_at, find_sub, str_eq};

verus! {

/// The example-file naming convention: the name contains this infix.
pub open spec fn example_pat() -> Seq<char> {
    ".example."@
}

/// Is this an example-named file?
pub open spec fn is_example_seq(name: Seq<char>) -> bool {
    find_at(name, example_pat(), 0) is Some
}

/// Does the file name follow the example naming convention?
pub fn is_example_name(name: &str) -> (r: bool)
    ensures
        r == is_example_seq(name@),
{
    proof {
        reveal_strlit(".example.");
    }
    match find_sub(name, ".example.") {
        Some(_) => true,
        None => false,
    }
}

/// The live counterpart of a file name: every occurrence of the example
/// infix replaced by a single dot, scanning left to right.
pub open spec fn live_seq(s: Seq<char>) -> Seq<char>
    decreases s.len(),
{
    if 0 < example_pat().len() <= s.len() && s.subrange(0, example_pat().len() as int)
        == example_pat() {
        seq!['.'] + live_seq(s.skip(example_pat().len() as int))
    } else if s.len() > 0 {
        seq![s[0]] + live_seq(s.skip(1))
    } else {
        Seq::empty()
    }
}

/// Compute the live counterpart of a file name.
pub fn live_name(name: &str) -> (r: String)
    ensures
        r@ == live_seq(name@),
{
    proof {
        reveal_strlit(".example.");
        reveal_strlit(".");
    }
    let len = name.unicode_len();
    let mut out = String::new();
    let mut i: usize = 0;
    proof {
        assert(name@.skip(0) =~= name@);
        assert(Seq::<char>::empty() + live_seq(name@) =~= live_seq(name@));
    }
    while i < len
        invariant
            len == name@.len(),
            i <= len,
            example_pat().len() == 9,
            "."@ =~= seq!['.'],
            live_seq(name@) == out@ + live_seq(name@.skip(i as int)),
        decreases len - i,
    {
        let ghost rest = name@.skip(i as int);
        if len >= 9 && i <= len - 9 && contains_at(name, ".example.", i) {
            proof {
                assert(rest.subrange(0, 9) =~= name@.subrange(i as int, i + 9));
                assert(rest.skip(9) =~= name@.skip(i + 9));
                assert(live_seq(rest) == seq!['.'] + live_seq(name@.skip(i + 9)));
                assert((out@ + "."@) + live_seq(name@.skip(i + 9)) =~= out@ + (seq!['.']
                    + live_seq(name@.skip(i + 9))));
            }
            out.append(".");
            i += 9;
        } else {
            proof {
                if i + 9 <= len {
                    assert(rest.subrange(0, 9) =~= name@.subrange(i as int, i + 9));
                }
                assert(rest.skip(1) =~= name@.skip(i + 1));
                assert(rest[0] == name@[i as int]);
                assert(live_seq(rest) == seq![name@[i as int]] + live_seq(name@.skip(i + 1)));
                assert(name@.subrange(i as int, i + 1) =~= seq![name@[i as int]]);
            }
            let piece = name.substring_char(i, i + 1);
            proof {
                assert((out@ + piece@) + live_seq(name@.skip(i + 1)) =~= out@ + (seq![name@[
                    i as int]] + live_seq(name@.skip(i + 1))));
            }
            out.append(piece);
            i += 1;
        }
    }
    proof {
        assert(name@.skip(len as int) =~= Seq::<char>::empty());
        assert(out@ + Seq::<char>::empty() =~= out@);
    }
    out
}

/// One bundled template file: the relative path of its directory (empty for
/// the asset root) and its file name.
#[derive(Debug, Clone, PartialEq, Eq)]
pub struct TemplateFile {
    pub dir: String,
    pub name: String,
}

/// One copy the driver must perform: template-relative source to
/// destination-relative target. The driver creates the target's parent
/// directories; it never deletes anything.
#[derive(Debug, Clone, PartialEq, Eq)]
pub struct CopyStep {
    pub from: String,
    pub to: String,
}

/// A relative path: the directory, a slash, the name; just the name at the
/// root.
pub open spec fn rel_seq(dir: Seq<char>, name: Seq<char>) -> Seq<char> {
    if dir.len() == 0 {
        name
    } else {
        join_seq(dir, name)
    }
}

/// A template file's own relative path.
pub open spec fn file_rel(f: TemplateFile) -> Seq<char> {
    rel_seq(f.dir@, f.name@)
}

/// The relative path of a template file's live counterpart.
pub open spec fn live_rel(f: TemplateFile) -> Seq<char> {
    rel_seq(f.dir@, live_seq(f.name@))
}

/// Membership of a path in a listing.
pub open spec fn in_listing(paths: Seq<Seq<char>>, p: Seq<char>) -> bool {
    exists|i: int| 0 <= i < paths.len() && paths[i] == p
}

fn listing_contains(paths: &Vec<String>, p: &str) -> (r: bool)
    ensures
        r == in_listing(paths.deep_view(), p@),
{
    let n = paths.len();
    let mut i: usize = 0;
    while i < n
        invariant
            n == paths@.len(),
            paths.deep_view().len() == n,
            i <= n,
            forall|k: int| 0 <= k < n ==> #[trigger] paths.deep_view()[k] == paths@[k]@,
            forall|k: int| 0 <= k < i ==> #[trigger] paths.deep_view()[k] != p@,
        decreases n - i,
    {
        if str_eq(paths[i].as_str(), p) {
            proof {
                assert(paths.deep_view()[i as int] == p@);
            }
            return true;
        }
        i += 1;
    }
    false
}

/// A template file's own relative path.
pub fn rel_path(f: &TemplateFile) -> (r: String)
    ensures
        r@ == file_rel(*f),
{
    if f.dir.as_str().unicode_len() == 0 {
        f.name.clone()
    } else {
        crate::paths::join_path(f.dir.as_str(), f.name.as_str())
    }
}

/// The relative path of a template file's live counterpart.
pub fn live_rel_path(f: &TemplateFile) -> (r: String)
    ensures
        r@ == live_rel(*f),
{
    let live = live_name(f.name.as_str());
    if f.dir.as_str().unicode_len() == 0 {
        live
    } else {
        crate::paths::join_path(f.dir.as_str(), live.as_str())
    }
}

/// All template files' own relative paths.
pub open spec fn rels_of(files: Seq<TemplateFile>) -> Seq<Seq<char>> {
    Seq::new(files.len(), |i: int| file_rel(files[i]))
}

/// The copies one template file contributes, in order. On a first install
/// the destination starts empty: every file is copied under its own name,
/// and an example file seeds its live counterpart unless the template itself
/// ships a file of that path. On a refresh, an example file always
/// overwrites its own destination copy and seeds the live counterpart only
/// when the destination lacks it; a plain file is copied only when the
/// destination lacks it.
pub open spec fn file_steps(
    f: TemplateFile,
    dest: Seq<Seq<char>>,
    tpl_rels: Seq<Seq<char>>,
    first_install: bool,
) -> Seq<(Seq<char>, Seq<char>)> {
    if first_install {
        if is_example_seq(f.name@) && !in_listing(tpl_rels, live_rel(f)) {
            seq![(file_rel(f), file_rel(f)), (file_rel(f), live_rel(f))]
        } else {
            seq![(file_rel(f), file_rel(f))]
        }
    } else {
        if is_example_seq(f.name@) {
            if !in_listing(dest, live_rel(f)) {
                seq![(file_rel(f), file_rel(f)), (file_rel(f), live_rel(f))]
            } else {
                seq![(file_rel(f), file_rel(f))]
            }
        } else {
            if !in_listing(dest, file_rel(f)) {
                seq![(file_rel(f), file_rel(f))]
            } else {
                Seq::empty()
            }
        }
    }
}

/// The copies contributed by the files from index `i` on.
pub open spec fn tail_steps(
    files: Seq<TemplateFile>,
    i: int,
    dest: Seq<Seq<char>>,
    tpl_rels: Seq<Seq<char>>,
    first_install: bool,
) -> Seq<(Seq<char>, Seq<char>)>
    decreases files.len() - i
        when 0 <= i <= files.len()
{
    if i >= files.len() {
        Seq::empty()
    } else {
        file_steps(files[i], dest, tpl_rels, first_install) + tail_steps(
            files,
            i + 1,
            dest,
            tpl_rels,
            first_install,
        )
    }
}

/// The whole plan: what synchronization copies, in order.
pub open spec fn plan_of(
    files: Seq<TemplateFile>,
    dest: Seq<Seq<char>>,
    first_install: bool,
) -> Seq<(Seq<char>, Seq<char>)> {
    tail_steps(files, 0, dest, rels_of(files), first_install)
}

/// View of an executable plan as pairs of character sequences.
pub open spec fn steps_view(plan: Seq<CopyStep>) -> Seq<(Seq<char>, Seq<char>)> {
    Seq::new(plan.len(), |i: int| (plan[i].from@, plan[i].to@))
}

/// Compute the synchronization plan. `files` lists the template's files,
/// `dest` the destination's existing files (empty on a first install), both
/// as relative paths.
pub fn sync_plan(files: &Vec<TemplateFile>, dest: &Vec<String>, first_install: bool) -> (plan: Vec<
    CopyStep,
>)
    requires
        first_install ==> dest@.len() == 0,
    ensures
        steps_view(plan@) == plan_of(files@, dest.deep_view(), first_install),
{
    let ghost tpl_rels = rels_of(files@);
    let ghost dest_v = dest.deep_view();

    // the template's own relative paths, for first-install seeding decisions
    let n = files.len();
    let mut own_rels: Vec<String> = Vec::new();
    let mut i: usize = 0;
    while i < n
        invariant
            n == files@.len(),
            i <= n,
            own_rels@.len() == i,
            forall|k: int| 0 <= k < i ==> #[trigger] own_rels@[k]@ == file_rel(files@[k]),
        decreases n - i,
    {
        own_rels.push(rel_path(&files[i]));
        i += 1;
    }
    proof {
        assert(own_rels.deep_view() =~= tpl_rels);
    }

    let mut plan: Vec<CopyStep> = Vec::new();
    let mut i: usize = 0;
    while i < n
        invariant
            n == files@.len(),
            i <= n,
            tpl_rels == rels_of(files@),
            dest_v == dest.deep_view(),
            first_install ==> dest_v.len() == 0,
            own_rels.deep_view() == tpl_rels,
            plan_of(files@, dest_v, first_install) == steps_view(plan@) + tail_steps(
                files@,
                i as int,
                dest_v,
                tpl_rels,
                first_install,
            ),
        decreases n - i,
    {
        let f = &files[i];
        let ghost before = plan@;
        let own = rel_path(f);
        if is_example_name(f.name.as_str()) {
            let live = live_rel_path(f);
            let seed = if first_install {
                !listing_contains(&own_rels, live.as_str())
            } else {
                !listing_contains(dest, live.as_str())
            };
            plan.push(CopyStep { from: own.clone(), to: own.clone() });
            if seed {
                plan.push(CopyStep { from: own, to: live });
                proof {
                    assert(steps_view(plan@) =~= steps_view(before) + file_steps(
                        files@[i as int],
                        dest_v,
                        tpl_rels,
                        first_install,
                    ));
                }
            } else {
                proof {
                    assert(steps_view(plan@) =~= steps_view(before) + file_steps(
                        files@[i as int],
                        dest_v,
                        tpl_rels,
                        first_install,
                    ));
                }
            }
        } else {
            if first_install || !listing_contains(dest, own.as_str()) {
                plan.push(CopyStep { from: own.clone(), to: own });
            }
            proof {
                assert(steps_view(plan@) =~= steps_view(before) + file_steps(
                    files@[i as int],
                    dest_v,
                    tpl_rels,
                    first_install,
                ));
            }
        }
        proof {
            assert((steps_view(before) + file_steps(
                files@[i as int],
                dest_v,
                tpl_rels,
                first_install,
            )) + tail_steps(files@, i + 1, dest_v, tpl_rels, first_install) =~= steps_view(before)
                + (file_steps(files@[i as int], dest_v, tpl_rels, first_install) + tail_steps(
                files@,
                i + 1,
                dest_v,
                tpl_rels,
                first_install,
            )));
        }
        i += 1;
    }
    proof {
        assert(plan_of(files@, dest_v, first_install) =~= steps_view(plan@));
    }
    plan
}

/// The asset directories synchronized on every startup.
pub fn asset_dir_names() -> (r: Vec<String>)
    ensures
        r.deep_view() =~= seq!["config"@, "skills"@],
{
    let mut out: Vec<String> = Vec::new();
    out.push("config".to_owned());
    out.push("skills".to_owned());
    out
}

/// Pick the template source for one asset directory: the nested resource
/// layout is preferred, then the flat one; neither existing is a soft skip,
/// not an error.
pub fn pick_source_dir(
    resource_dir: &str,
    dir_name: &str,
    nested_exists: bool,
    flat_exists: bool,
) -> (r: Option<String>)
    ensures
        nested_exists ==> r is Some && r->Some_0@ == join_seq(
            join_seq(resource_dir@, "resources"@),
            dir_name@,
        ),
        !nested_exists && flat_exists ==> r is Some && r->Some_0@ == join_seq(
            resource_dir@,
            dir_name@,
        ),
        !nested_exists && !flat_exists ==> r is None,
{
    if nested_exists {
        let nested = crate::paths::join_path(resource_dir, "resources");
        Some(crate::paths::join_path(nested.as_str(), dir_name))
    } else if flat_exists {
        Some(crate::paths::join_path(resource_dir, dir_name))
    } else {
        None
    }
}

/// The destination filesystem as a map from relative path to content;
/// applying a plan performs each copy in order, each target taking the
/// template's content for its source.
pub open spec fn apply_plan<V>(
    tpl: Map<Seq<char>, V>,
    fs: Map<Seq<char>, V>,
    plan: Seq<(Seq<char>, Seq<char>)>,
) -> Map<Seq<char>, V>
    decreases plan.len(),
{
    if plan.len() == 0 {
        fs
    } else {
        apply_plan(tpl, fs.insert(plan[0].1, tpl[plan[0].0]), plan.skip(1))
    }
}

proof fn lemma_apply_concat<V>(
    tpl: Map<Seq<char>, V>,
    fs: Map<Seq<char>, V>,
    x: Seq<(Seq<char>, Seq<char>)>,
    y: Seq<(Seq<char>, Seq<char>)>,
)
    ensures
        apply_plan(tpl, fs, x + y) == apply_plan(tpl, apply_plan(tpl, fs, x), y),
    decreases x.len(),
{
    if x.len() == 0 {
        assert(x + y =~= y);
    } else {
        assert((x + y)[0] == x[0]);
        assert((x + y).skip(1) =~= x.skip(1) + y);
        lemma_apply_concat(tpl, fs.insert(x[0].1, tpl[x[0].0]), x.skip(1), y);
    }
}

proof fn lemma_apply_untouched<V>(
    tpl: Map<Seq<char>, V>,
    fs: Map<Seq<char>, V>,
    plan: Seq<(Seq<char>, Seq<char>)>,
    p: Seq<char>,
)
    requires
        forall|k: int| 0 <= k < plan.len() ==> (#[trigger] plan[k]).1 != p,
    ensures
        apply_plan(tpl, fs, plan).dom().contains(p) == fs.dom().contains(p),
        fs.dom().contains(p) ==> apply_plan(tpl, fs, plan)[p] == fs[p],
    decreases plan.len(),
{
    if plan.len() > 0 {
        let fs1 = fs.insert(plan[0].1, tpl[plan[0].0]);
        assert(plan[0].1 != p);
        assert(forall|k: int|
            0 <= k < plan.skip(1).len() ==> (#[trigger] plan.skip(1)[k]).1 != p) by {
            assert(forall|k: int|
                0 <= k < plan.skip(1).len() ==> plan.skip(1)[k] == plan[k + 1]);
        }
        lemma_apply_untouched(tpl, fs1, plan.skip(1), p);
    }
}

proof fn lemma_refresh_untouched<V>(
    tpl: Map<Seq<char>, V>,
    fs: Map<Seq<char>, V>,
    files: Seq<TemplateFile>,
    dest: Seq<Seq<char>>,
    tpl_rels: Seq<Seq<char>>,
    i: int,
    p: Seq<char>,
)
    requires
        0 <= i <= files.len(),
        in_listing(dest, p),
        forall|k: int|
            i <= k < files.len() ==> !(is_example_seq((#[trigger] files[k]).name@) && file_rel(
                files[k],
            ) == p),
    ensures
        apply_plan(tpl, fs, tail_steps(files, i, dest, tpl_rels, false)).dom().contains(p)
            == fs.dom().contains(p),
        fs.dom().contains(p) ==> apply_plan(tpl, fs, tail_steps(files, i, dest, tpl_rels, false))[p]
            == fs[p],
    decreases files.len() - i,
{
    if i < files.len() {
        let st = file_steps(files[i], dest, tpl_rels, false);
        let rest = tail_steps(files, i + 1, dest, tpl_rels, false);
        assert(forall|k: int| 0 <= k < st.len() ==> (#[trigger] st[k]).1 != p) by {
            if is_example_seq(files[i].name@) {
                assert(file_rel(files[i]) != p);
                if !in_listing(dest, live_rel(files[i])) && live_rel(files[i]) == p {
                    assert(false);
                }
            } else {
                if !in_listing(dest, file_rel(files[i])) && file_rel(files[i]) == p {
                    assert(false);
                }
            }
        }
        lemma_apply_concat(tpl, fs, st, rest);
        lemma_apply_untouched(tpl, fs, st, p);
        lemma_refresh_untouched(tpl, apply_plan(tpl, fs, st), files, dest, tpl_rels, i + 1, p);
    }
}

/// Law (synchronizer non-destructiveness): any pre-existing destination file
/// that is not itself the destination copy of an example-named template file
/// keeps its exact content through a refresh pass — whatever that content
/// is.
pub proof fn lemma_sync_preserves_user_files<V>(
    tpl: Map<Seq<char>, V>,
    fs: Map<Seq<char>, V>,
    files: Seq<TemplateFile>,
    dest: Seq<Seq<char>>,
    p: Seq<char>,
)
    requires
        in_listing(dest, p),
        forall|k: int|
            0 <= k < files.len() ==> !(is_example_seq((#[trigger] files[k]).name@) && file_rel(
                files[k],
            ) == p),
    ensures
        apply_plan(tpl, fs, plan_of(files, dest, false)).dom().contains(p) == fs.dom().contains(p),
        fs.dom().contains(p) ==> apply_plan(tpl, fs, plan_of(files, dest, false))[p] == fs[p],
{
    lemma_refresh_untouched(tpl, fs, files, dest, rels_of(files), 0, p);
}

proof fn lemma_tail_untouched<V>(
    tpl: Map<Seq<char>, V>,
    fs: Map<Seq<char>, V>,
    files: Seq<TemplateFile>,
    dest: Seq<Seq<char>>,
    tpl_rels: Seq<Seq<char>>,
    first_install: bool,
    i: int,
    p: Seq<char>,
)
    requires
        0 <= i <= files.len(),
        forall|k: int|
            i <= k < files.len() ==> file_rel(#[trigger] files[k]) != p && live_rel(files[k]) != p,
    ensures
        apply_plan(tpl, fs, tail_steps(files, i, dest, tpl_rels, first_install)).dom().contains(p)
            == fs.dom().contains(p),
        fs.dom().contains(p) ==> apply_plan(
            tpl,
            fs,
            tail_steps(files, i, dest, tpl_rels, first_install),
        )[p] == fs[p],
    decreases files.len() - i,
{
    if i < files.len() {
        let st = file_steps(files[i], dest, tpl_rels, first_install);
        let rest = tail_steps(files, i + 1, dest, tpl_rels, first_install);
        assert(forall|k: int| 0 <= k < st.len() ==> (#[trigger] st[k]).1 != p);
        lemma_apply_concat(tpl, fs, st, rest);
        lemma_apply_untouched(tpl, fs, st, p);
        lemma_tail_untouched(
            tpl,
            apply_plan(tpl, fs, st),
            files,
            dest,
            tpl_rels,
            first_install,
            i + 1,
            p,
        );
    }
}

pub proof fn lemma_live_le(s: Seq<char>)
    ensures
        live_seq(s).len() <= s.len(),
    decreases s.len(),
{
    reveal_strlit(".example.");
    if 0 < example_pat().len() <= s.len() && s.subrange(0, example_pat().len() as int)
        == example_pat() {
        lemma_live_le(s.skip(example_pat().len() as int));
    } else if s.len() > 0 {
        lemma_live_le(s.skip(1));
    }
}

proof fn lemma_find_at_shift(s: Seq<char>, pat: Seq<char>, from: int)
    requires
        1 <= from <= s.len(),
    ensures
        (find_at(s, pat, from) is Some) == (find_at(s.skip(1), pat, from - 1) is Some),
    decreases s.len() - from,
{
    if pat.len() == 0 {
    } else if from + pat.len() > s.len() {
    } else {
        assert(s.subrange(from, from + pat.len() as int) =~= s.skip(1).subrange(
            from - 1,
            from - 1 + pat.len() as int,
        ));
        if s.subrange(from, from + pat.len() as int) == pat {
        } else {
            lemma_find_at_shift(s, pat, from + 1);
        }
    }
}

/// An example-named file's live counterpart is strictly shorter: replacing
/// the infix shortens the name.
pub proof fn lemma_live_shorter(s: Seq<char>)
    requires
        is_example_seq(s),
    ensures
        live_seq(s).len() < s.len(),
    decreases s.len(),
{
    reveal_strlit(".example.");
    if 0 < example_pat().len() <= s.len() && s.subrange(0, example_pat().len() as int)
        == example_pat() {
        lemma_live_le(s.skip(example_pat().len() as int));
    } else {
        if s.len() < example_pat().len() {
            assert(find_at(s, example_pat(), 0) is None);
        }
        assert(find_at(s, example_pat(), 0) == find_at(s, example_pat(), 1));
        lemma_find_at_shift(s, example_pat(), 1);
        assert(is_example_seq(s.skip(1)));
        lemma_live_shorter(s.skip(1));
    }
}

/// An example file's live path differs from its own path.
pub proof fn lemma_live_rel_ne(f: TemplateFile)
    requires
        is_example_seq(f.name@),
    ensures
        live_rel(f) != file_rel(f),
{
    lemma_live_shorter(f.name@);
    assert(live_rel(f).len() < file_rel(f).len());
}

proof fn lemma_example_refresh_from<V>(
    tpl: Map<Seq<char>, V>,
    fs: Map<Seq<char>, V>,
    files: Seq<TemplateFile>,
    dest: Seq<Seq<char>>,
    tpl_rels: Seq<Seq<char>>,
    i: int,
    n: int,
)
    requires
        0 <= i <= n < files.len(),
        is_example_seq(files[n].name@),
        tpl.dom().contains(file_rel(files[n])),
        forall|k: int|
            i <= k < files.len() && k != n ==> file_rel(#[trigger] files[k]) != file_rel(files[n]),
        forall|k: int| i <= k < files.len() ==> live_rel(#[trigger] files[k]) != file_rel(files[n]),
        forall|k: int| i <= k < files.len() ==> file_rel(#[trigger] files[k]) != live_rel(files[n]),
        forall|k: int|
            i <= k < files.len() && k != n ==> live_rel(#[trigger] files[k]) != live_rel(files[n]),
    ensures
        apply_plan(tpl, fs, tail_steps(files, i, dest, tpl_rels, false)).dom().contains(
            file_rel(files[n]),
        ),
        apply_plan(tpl, fs, tail_steps(files, i, dest, tpl_rels, false))[file_rel(files[n])]
            == tpl[file_rel(files[n])],
        !in_listing(dest, live_rel(files[n])) ==> apply_plan(
            tpl,
            fs,
            tail_steps(files, i, dest, tpl_rels, false),
        ).dom().contains(live_rel(files[n])) && apply_plan(
            tpl,
            fs,
            tail_steps(files, i, dest, tpl_rels, false),
        )[live_rel(files[n])] == tpl[file_rel(files[n])],
        in_listing(dest, live_rel(files[n])) ==> (apply_plan(
            tpl,
            fs,
            tail_steps(files, i, dest, tpl_rels, false),
        ).dom().contains(live_rel(files[n])) == fs.dom().contains(live_rel(files[n]))
            && (fs.dom().contains(live_rel(files[n])) ==> apply_plan(
            tpl,
            fs,
            tail_steps(files, i, dest, tpl_rels, false),
        )[live_rel(files[n])] == fs[live_rel(files[n])])),
    decreases n - i,
{
    let st = file_steps(files[i], dest, tpl_rels, false);
    let rest = tail_steps(files, i + 1, dest, tpl_rels, false);
    lemma_apply_concat(tpl, fs, st, rest);
    let fs1 = apply_plan(tpl, fs, st);
    if i < n {
        assert(forall|k: int| 0 <= k < st.len() ==> (#[trigger] st[k]).1 != file_rel(files[n]));
        assert(forall|k: int| 0 <= k < st.len() ==> (#[trigger] st[k]).1 != live_rel(files[n]));
        lemma_apply_untouched(tpl, fs, st, file_rel(files[n]));
        lemma_apply_untouched(tpl, fs, st, live_rel(files[n]));
        lemma_example_refresh_from(tpl, fs1, files, dest, tpl_rels, i + 1, n);
    } else {
        lemma_live_rel_ne(files[n]);
        let own = file_rel(files[n]);
        let live = live_rel(files[n]);
        if !in_listing(dest, live) {
            assert(st =~= seq![(own, own), (own, live)]);
            assert(st[0] == (own, own));
            let fsa = fs.insert(own, tpl[own]);
            assert(apply_plan(tpl, fs, st) == apply_plan(tpl, fsa, st.skip(1)));
            assert(st.skip(1)[0] == (own, live));
            assert(st.skip(1).len() == 1);
            let fsb = fsa.insert(live, tpl[own]);
            assert(apply_plan(tpl, fsa, st.skip(1)) == apply_plan(tpl, fsb, st.skip(1).skip(1)));
            assert(st.skip(1).skip(1).len() == 0);
            assert(fs1 == fsb);
            assert(fs1[own] == tpl[own]);
            assert(fs1[live] == tpl[own]);
        } else {
            assert(st =~= seq![(own, own)]);
            assert(st[0] == (own, own));
            assert(apply_plan(tpl, fs, st) == apply_plan(
                tpl,
                fs.insert(own, tpl[own]),
                st.skip(1),
            ));
            assert(st.skip(1).len() == 0);
            assert(fs1 == fs.insert(own, tpl[own]));
        }
        lemma_tail_untouched(tpl, fs1, files, dest, tpl_rels, false, i + 1, own);
        lemma_tail_untouched(tpl, fs1, files, dest, tpl_rels, false, i + 1, live);
    }
}

/// Law (example-file refresh): in a refresh pass over a template without
/// path collisions, every example-named template file's own destination copy
/// ends up with the template's content, whatever stood there before; its
/// live counterpart is seeded with that same content exactly when the
/// destination lacked it, and is untouched when it existed.
pub proof fn lemma_example_refresh<V>(
    tpl: Map<Seq<char>, V>,
    fs: Map<Seq<char>, V>,
    files: Seq<TemplateFile>,
    dest: Seq<Seq<char>>,
    n: int,
)
    requires
        0 <= n < files.len(),
        is_example_seq(files[n].name@),
        tpl.dom().contains(file_rel(files[n])),
        forall|k: int|
            0 <= k < files.len() && k != n ==> file_rel(#[trigger] files[k]) != file_rel(files[n]),
        forall|k: int| 0 <= k < files.len() ==> live_rel(#[trigger] files[k]) != file_rel(files[n]),
        forall|k: int| 0 <= k < files.len() ==> file_rel(#[trigger] files[k]) != live_rel(files[n]),
        forall|k: int|
            0 <= k < files.len() && k != n ==> live_rel(#[trigger] files[k]) != live_rel(files[n]),
    ensures
        apply_plan(tpl, fs, plan_of(files, dest, false)).dom().contains(file_rel(files[n])),
        apply_plan(tpl, fs, plan_of(files, dest, false))[file_rel(files[n])] == tpl[file_rel(
            files[n],
        )],
        !in_listing(dest, live_rel(files[n])) ==> apply_plan(
            tpl,
            fs,
            plan_of(files, dest, false),
        ).dom().contains(live_rel(files[n])) && apply_plan(tpl, fs, plan_of(files, dest, false))[
            live_rel(files[n])] == tpl[file_rel(files[n])],
        in_listing(dest, live_rel(files[n])) && fs.dom().contains(live_rel(files[n]))
            ==> apply_plan(tpl, fs, plan_of(files, dest, false))[live_rel(files[n])] == fs[live_rel(
            files[n],
        )],
{
    lemma_example_refresh_from(tpl, fs, files, dest, rels_of(files), 0, n);
}

} // verus!

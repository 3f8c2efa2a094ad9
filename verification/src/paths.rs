//! Path derivation for the provisioned environment and the resource tree.
//!
//! Paths are plain strings whose components are joined with a forward slash;
//! the driver converts them to native paths. Where component names differ by
//! platform, the choice is an explicit `windows` argument rather than a
//! compile-time condition.

use vstd::prelude::*;

use crate::errors::EnvError;

verus! {

/// `base`, a slash, `name`.
pub open spec fn join_seq(base: Seq<char>, name: Seq<char>) -> Seq<char> {
    base + seq!['/'] + name
}

/// Join one path component onto a base path.
pub fn join_path(base: &str, name: &str) -> (r: String)
    ensures
        r@ == join_seq(base@, name@),
{
    proof {
        reveal_strlit("/");
        assert("/"@ =~= seq!['/']);
    }
    let mut out = base.to_owned();
    out.append("/");
    out.append(name);
    out
}

/// The isolated environment root under the application data directory.
pub open spec fn venv_dir_seq(app_data_dir: Seq<char>) -> Seq<char> {
    join_seq(app_data_dir, "backend-venv"@)
}

pub fn venv_dir_path(app_data_dir: &str) -> (r: String)
    ensures
        r@ == venv_dir_seq(app_data_dir@),
{
    join_path(app_data_dir, "backend-venv")
}

/// The version marker file inside the environment root.
pub open spec fn marker_path_seq(venv_dir: Seq<char>) -> Seq<char> {
    join_seq(venv_dir, ".suzent-version"@)
}

pub fn marker_path(venv_dir: &str) -> (r: String)
    ensures
        r@ == marker_path_seq(venv_dir@),
{
    join_path(venv_dir, ".suzent-version")
}

/// The interpreter inside an environment root.
pub open spec fn venv_python_seq(venv_dir: Seq<char>, windows: bool) -> Seq<char> {
    if windows {
        join_seq(join_seq(venv_dir, "Scripts"@), "python.exe"@)
    } else {
        join_seq(join_seq(venv_dir, "bin"@), "python"@)
    }
}

/// Path of the interpreter executable inside a provisioned environment.
pub fn get_venv_python(venv_dir: &str, windows: bool) -> (r: String)
    ensures
        r@ == venv_python_seq(venv_dir@, windows),
{
    if windows {
        let scripts = join_path(venv_dir, "Scripts");
        join_path(scripts.as_str(), "python.exe")
    } else {
        let bin = join_path(venv_dir, "bin");
        join_path(bin.as_str(), "python")
    }
}

pub open spec fn uv_exe_name(windows: bool) -> Seq<char> {
    if windows {
        "uv.exe"@
    } else {
        "uv"@
    }
}

/// The candidate locations of the provisioning tool, in probe order:
/// directly in the resource root, then one level nested.
pub open spec fn uv_candidate_seq(resource_dir: Seq<char>, windows: bool, i: int) -> Seq<char> {
    if i == 0 {
        join_seq(resource_dir, uv_exe_name(windows))
    } else {
        join_seq(join_seq(resource_dir, "resources"@), uv_exe_name(windows))
    }
}

/// The probe list as one sequence.
pub open spec fn uv_candidates_v(resource_dir: Seq<char>, windows: bool) -> Seq<Seq<char>> {
    seq![
        uv_candidate_seq(resource_dir, windows, 0),
        uv_candidate_seq(resource_dir, windows, 1),
    ]
}

pub fn uv_candidates(resource_dir: &str, windows: bool) -> (r: Vec<String>)
    ensures
        r@.len() == 2,
        forall|i: int| 0 <= i < 2 ==> (#[trigger] r@[i])@ == uv_candidate_seq(resource_dir@, windows, i),
        r.deep_view() == uv_candidates_v(resource_dir@, windows),
{
    let exe = if windows {
        "uv.exe"
    } else {
        "uv"
    };
    let nested = join_path(resource_dir, "resources");
    let mut out: Vec<String> = Vec::new();
    out.push(join_path(resource_dir, exe));
    out.push(join_path(nested.as_str(), exe));
    proof {
        assert(out.deep_view() =~= uv_candidates_v(resource_dir@, windows));
    }
    out
}

pub open spec fn python_candidate_count(windows: bool) -> int {
    if windows {
        2
    } else {
        4
    }
}

/// The candidate locations of the bundled runtime interpreter, in probe
/// order: nested layout before flat layout, preferred executable name first.
pub open spec fn python_candidate_seq(resource_dir: Seq<char>, windows: bool, i: int) -> Seq<char> {
    let nested = join_seq(resource_dir, "resources"@);
    if windows {
        if i == 0 {
            join_seq(join_seq(nested, "python"@), "python.exe"@)
        } else {
            join_seq(join_seq(resource_dir, "python"@), "python.exe"@)
        }
    } else {
        if i == 0 {
            join_seq(join_seq(join_seq(nested, "python"@), "bin"@), "python3"@)
        } else if i == 1 {
            join_seq(join_seq(join_seq(resource_dir, "python"@), "bin"@), "python3"@)
        } else if i == 2 {
            join_seq(join_seq(join_seq(nested, "python"@), "bin"@), "python"@)
        } else {
            join_seq(join_seq(join_seq(resource_dir, "python"@), "bin"@), "python"@)
        }
    }
}

/// The probe list as one sequence.
pub open spec fn python_candidates_v(resource_dir: Seq<char>, windows: bool) -> Seq<Seq<char>> {
    if windows {
        seq![
            python_candidate_seq(resource_dir, windows, 0),
            python_candidate_seq(resource_dir, windows, 1),
        ]
    } else {
        seq![
            python_candidate_seq(resource_dir, windows, 0),
            python_candidate_seq(resource_dir, windows, 1),
            python_candidate_seq(resource_dir, windows, 2),
            python_candidate_seq(resource_dir, windows, 3),
        ]
    }
}

pub fn python_candidates(resource_dir: &str, windows: bool) -> (r: Vec<String>)
    ensures
        r@.len() == python_candidate_count(windows),
        forall|i: int|
            0 <= i < r@.len() ==> (#[trigger] r@[i])@ == python_candidate_seq(
                resource_dir@,
                windows,
                i,
            ),
        r.deep_view() == python_candidates_v(resource_dir@, windows),
{
    let nested = join_path(resource_dir, "resources");
    let nested_py = join_path(nested.as_str(), "python");
    let flat_py = join_path(resource_dir, "python");
    let mut out: Vec<String> = Vec::new();
    if windows {
        out.push(join_path(nested_py.as_str(), "python.exe"));
        out.push(join_path(flat_py.as_str(), "python.exe"));
    } else {
        let nested_bin = join_path(nested_py.as_str(), "bin");
        let flat_bin = join_path(flat_py.as_str(), "bin");
        out.push(join_path(nested_bin.as_str(), "python3"));
        out.push(join_path(flat_bin.as_str(), "python3"));
        out.push(join_path(nested_bin.as_str(), "python"));
        out.push(join_path(flat_bin.as_str(), "python"));
    }
    proof {
        assert(out.deep_view() =~= python_candidates_v(resource_dir@, windows));
    }
    out
}

/// Index of the first `true` in `exists` at or after `from`.
pub open spec fn first_true_at(exists: Seq<bool>, from: int) -> Option<int>
    decreases exists.len() - from
        when 0 <= from <= exists.len()
{
    if from >= exists.len() {
        None
    } else if exists[from] {
        Some(from)
    } else {
        first_true_at(exists, from + 1)
    }
}

fn first_true(exists: &Vec<bool>) -> (r: Option<usize>)
    ensures
        match r {
            Some(i) => first_true_at(exists@, 0) == Some(i as int),
            None => first_true_at(exists@, 0) is None,
        },
{
    let n = exists.len();
    let mut i: usize = 0;
    while i < n
        invariant
            n == exists@.len(),
            i <= n,
            first_true_at(exists@, 0) == first_true_at(exists@, i as int),
        decreases n - i,
    {
        if exists[i] {
            return Some(i);
        }
        i += 1;
    }
    None
}

/// Locate the provisioning tool: `exists` answers, per candidate of
/// `uv_candidates`, whether that path exists.
pub fn find_uv(resource_dir: &str, windows: bool, exists: &Vec<bool>) -> (r: Result<
    String,
    EnvError,
>)
    requires
        exists@.len() == 2,
    ensures
        match r {
            Ok(p) => {
                &&& first_true_at(exists@, 0) is Some
                &&& p@ == uv_candidate_seq(resource_dir@, windows, first_true_at(exists@, 0)->Some_0)
            },
            Err(e) => e == EnvError::ToolNotFound && first_true_at(exists@, 0) is None,
        },
{
    let candidates = uv_candidates(resource_dir, windows);
    match first_true(exists) {
        Some(i) => {
            proof {
                lemma_first_true_in_range(exists@, 0);
            }
            Ok(candidates[i].clone())
        },
        None => Err(EnvError::ToolNotFound),
    }
}

/// Locate the bundled runtime interpreter: `exists` answers, per candidate
/// of `python_candidates`, whether that path exists.
pub fn find_bundled_python(resource_dir: &str, windows: bool, exists: &Vec<bool>) -> (r: Result<
    String,
    EnvError,
>)
    requires
        exists@.len() == python_candidate_count(windows),
    ensures
        match r {
            Ok(p) => {
                &&& first_true_at(exists@, 0) is Some
                &&& p@ == python_candidate_seq(
                    resource_dir@,
                    windows,
                    first_true_at(exists@, 0)->Some_0,
                )
            },
            Err(e) => e == EnvError::RuntimeNotFound && first_true_at(exists@, 0) is None,
        },
{
    let candidates = python_candidates(resource_dir, windows);
    match first_true(exists) {
        Some(i) => {
            proof {
                lemma_first_true_in_range(exists@, 0);
            }
            Ok(candidates[i].clone())
        },
        None => Err(EnvError::RuntimeNotFound),
    }
}

proof fn lemma_first_true_in_range(exists: Seq<bool>, from: int)
    requires
        0 <= from <= exists.len(),
        first_true_at(exists, from) is Some,
    ensures
        from <= first_true_at(exists, from)->Some_0 < exists.len(),
    decreases exists.len() - from,
{
    if from < exists.len() && !exists[from] {
        lemma_first_true_in_range(exists, from + 1);
    }
}

/// A directory entry name carrying the installable-archive extension: it
/// ends in `.whl` and the dot is not its first character.
pub open spec fn is_wheel_name(s: Seq<char>) -> bool {
    s.len() >= 5 && s.subrange(s.len() - 4, s.len() as int) == ".whl"@
}

/// Index of the first wheel-named entry at or after `from`.
pub open spec fn first_wheel_at(listing: Seq<Seq<char>>, from: int) -> Option<int>
    decreases listing.len() - from
        when 0 <= from <= listing.len()
{
    if from >= listing.len() {
        None
    } else if is_wheel_name(listing[from]) {
        Some(from)
    } else {
        first_wheel_at(listing, from + 1)
    }
}

/// Select the first installable archive from a directory listing.
pub fn find_wheel(listing: &Vec<String>) -> (r: Option<String>)
    ensures
        match r {
            Some(name) => {
                &&& first_wheel_at(listing.deep_view(), 0) is Some
                &&& name@ == listing.deep_view()[first_wheel_at(listing.deep_view(), 0)->Some_0]
            },
            None => first_wheel_at(listing.deep_view(), 0) is None,
        },
{
    proof {
        reveal_strlit(".whl");
    }
    let n = listing.len();
    let mut i: usize = 0;
    while i < n
        invariant
            n == listing.deep_view().len(),
            n == listing@.len(),
            i <= n,
            ".whl"@.len() == 4,
            forall|k: int|
                0 <= k < n ==> #[trigger] listing.deep_view()[k] == listing@[k]@,
            first_wheel_at(listing.deep_view(), 0) == first_wheel_at(
                listing.deep_view(),
                i as int,
            ),
        decreases n - i,
    {
        let name: &String = &listing[i];
        let name_len = name.as_str().unicode_len();
        if name_len >= 5 {
            if crate::text::contains_at(name.as_str(), ".whl", name_len - 4) {
                proof {
                    assert(is_wheel_name(name@));
                }
                return Some(name.clone());
            }
            proof {
                assert(!is_wheel_name(name@));
            }
        } else {
            proof {
                assert(!is_wheel_name(name@));
            }
        }
        i += 1;
    }
    None
}

} // verus!

//! Directory resolver: computes the debug output directory from the fixed
//! policy switches and the observed environment.
//!
//! All decisions here are functions of plain values: the shell that owns the
//! process reads the working directory, the build tool's output-directory
//! environment variable and the candidate workspace manifests, hands them in,
//! and caches the resolved path for the process's lifetime. Resolution never
//! fails outright: every branch has a terminal fallback in the working
//! directory.

use vstd::prelude::*;

verus! {

/// The two policy switches, fixed when the host application is packaged:
/// whether debug output prefers the build tool's output location, and
/// whether it prefers the workspace root over the working directory.
#[derive(Clone, Copy)]
pub struct DirPolicy {
    pub prefer_build_output: bool,
    pub prefer_workspace_root: bool,
}

/// A directory joined with a child name by the path separator. An empty
/// directory — the fallback when the working directory cannot be read —
/// contributes no separator.
pub open spec fn joined(dir: Seq<char>, name: Seq<char>) -> Seq<char> {
    if dir.len() == 0 {
        name
    } else {
        dir + "/"@ + name
    }
}

/// The view of an optional owned path.
pub open spec fn opt_path_text(o: Option<String>) -> Option<Seq<char>> {
    match o {
        Some(s) => Some(s@),
        None => None,
    }
}

/// The working directory's text, or empty when it could not be read.
pub open spec fn cwd_or_empty(cwd: Option<Seq<char>>) -> Seq<char> {
    match cwd {
        Some(c) => c,
        None => Seq::<char>::empty(),
    }
}

/// The default debug directory: `.debug` under the workspace root when that
/// policy is enabled and a root was found, else `.debug` under the working
/// directory.
pub open spec fn default_debug_dir_spec(
    prefer_workspace_root: bool,
    workspace_root: Option<Seq<char>>,
    cwd: Option<Seq<char>>,
) -> Seq<char> {
    match workspace_root {
        Some(root) => if prefer_workspace_root {
            joined(root, ".debug"@)
        } else {
            joined(cwd_or_empty(cwd), ".debug"@)
        },
        None => joined(cwd_or_empty(cwd), ".debug"@),
    }
}

/// The build tool's output directory: the environment override when set,
/// else `target` under the workspace root when that policy is enabled and a
/// root was found, else `target` under the working directory; none only when
/// even the working directory could not be read.
pub open spec fn build_output_dir_spec(
    prefer_workspace_root: bool,
    env_target: Option<Seq<char>>,
    workspace_root: Option<Seq<char>>,
    cwd: Option<Seq<char>>,
) -> Option<Seq<char>> {
    match env_target {
        Some(t) => Some(t),
        None => match workspace_root {
            Some(root) => if prefer_workspace_root {
                Some(joined(root, "target"@))
            } else {
                match cwd {
                    Some(c) => Some(joined(c, "target"@)),
                    None => None,
                }
            },
            None => match cwd {
                Some(c) => Some(joined(c, "target"@)),
                None => None,
            },
        },
    }
}

/// The resolved debug directory: `odebug` under the build output location
/// when that policy is enabled and a location was found, else the default
/// debug directory.
pub open spec fn debug_dir_spec(
    policy: DirPolicy,
    env_target: Option<Seq<char>>,
    workspace_root: Option<Seq<char>>,
    cwd: Option<Seq<char>>,
) -> Seq<char> {
    if policy.prefer_build_output {
        match build_output_dir_spec(policy.prefer_workspace_root, env_target, workspace_root, cwd) {
            Some(t) => joined(t, "odebug"@),
            None => default_debug_dir_spec(policy.prefer_workspace_root, workspace_root, cwd),
        }
    } else {
        default_debug_dir_spec(policy.prefer_workspace_root, workspace_root, cwd)
    }
}

/// Joins a directory and a child name with the path separator.
pub fn join_path(dir: &str, name: &str) -> (r: String)
    ensures
        r@ == joined(dir@, name@),
{
    if dir.unicode_len() == 0 {
        name.to_owned()
    } else {
        let mut out = dir.to_owned();
        out.append("/");
        out.append(name);
        out
    }
}

/// The default debug directory, per `default_debug_dir_spec`.
pub fn default_debug_dir(
    prefer_workspace_root: bool,
    workspace_root: &Option<String>,
    cwd: &Option<String>,
) -> (r: String)
    ensures
        r@ == default_debug_dir_spec(
            prefer_workspace_root,
            opt_path_text(*workspace_root),
            opt_path_text(*cwd),
        ),
{
    if prefer_workspace_root {
        if let Some(root) = workspace_root {
            return join_path(root.as_str(), ".debug");
        }
    }
    match cwd {
        Some(c) => join_path(c.as_str(), ".debug"),
        None => String::from_str(".debug"),
    }
}

/// The build tool's output directory, per `build_output_dir_spec`.
pub fn find_target_dir(
    prefer_workspace_root: bool,
    env_target: &Option<String>,
    workspace_root: &Option<String>,
    cwd: &Option<String>,
) -> (r: Option<String>)
    ensures
        opt_path_text(r) == build_output_dir_spec(
            prefer_workspace_root,
            opt_path_text(*env_target),
            opt_path_text(*workspace_root),
            opt_path_text(*cwd),
        ),
{
    if let Some(t) = env_target {
        return Some(t.clone());
    }
    if prefer_workspace_root {
        if let Some(root) = workspace_root {
            return Some(join_path(root.as_str(), "target"));
        }
    }
    match cwd {
        Some(c) => Some(join_path(c.as_str(), "target")),
        None => None,
    }
}

/// The resolved debug directory, per `debug_dir_spec`. The shell computes
/// this once, creates the directory, and caches the path for the process's
/// lifetime.
pub fn determine_debug_dir(
    policy: &DirPolicy,
    env_target: &Option<String>,
    workspace_root: &Option<String>,
    cwd: &Option<String>,
) -> (r: String)
    ensures
        r@ == debug_dir_spec(
            *policy,
            opt_path_text(*env_target),
            opt_path_text(*workspace_root),
            opt_path_text(*cwd),
        ),
{
    if policy.prefer_build_output {
        match find_target_dir(policy.prefer_workspace_root, env_target, workspace_root, cwd) {
            Some(t) => join_path(t.as_str(), "odebug"),
            None => default_debug_dir(policy.prefer_workspace_root, workspace_root, cwd),
        }
    } else {
        default_debug_dir(policy.prefer_workspace_root, workspace_root, cwd)
    }
}

/// Whether `pat` occurs in `text` starting at position `i`.
pub open spec fn match_at(text: Seq<char>, pat: Seq<char>, i: int) -> bool {
    0 <= i && i + pat.len() <= text.len() && text.subrange(i, i + pat.len() as int) == pat
}

/// Whether `pat` occurs anywhere in `text`.
pub open spec fn contains_pattern(text: Seq<char>, pat: Seq<char>) -> bool {
    exists|i: int| match_at(text, pat, i)
}

/// Whether `text` contains `pat`, by direct search.
pub fn contains_str(text: &str, pat: &str) -> (r: bool)
    ensures
        r == contains_pattern(text@, pat@),
{
    let n = text.unicode_len();
    let m = pat.unicode_len();
    if m > n {
        return false;
    }
    if m == 0 {
        proof {
            assert(text@.subrange(0, 0) =~= pat@);
            assert(match_at(text@, pat@, 0));
        }
        return true;
    }
    let mut i: usize = 0;
    while i <= n - m
        invariant
            n == text@.len(),
            m == pat@.len(),
            1 <= m <= n,
            i <= n - m + 1,
            forall|k: int| 0 <= k < i ==> !match_at(text@, pat@, k),
        decreases n - i,
    {
        let mut j: usize = 0;
        let mut ok = true;
        while ok && j < m
            invariant
                n == text@.len(),
                m == pat@.len(),
                i + m <= n,
                j <= m,
                ok ==> forall|k: int| 0 <= k < j ==> text@[i + k] == pat@[k],
                !ok ==> !match_at(text@, pat@, i as int),
            decreases m - j + (if ok {
                1int
            } else {
                0int
            }),
        {
            if text.get_char(i + j) != pat.get_char(j) {
                proof {
                    if match_at(text@, pat@, i as int) {
                        assert(text@.subrange(i as int, i + m)[j as int] == text@[i + j]);
                    }
                }
                ok = false;
            } else {
                j += 1;
            }
        }
        if ok {
            proof {
                assert(text@.subrange(i as int, i + m) =~= pat@);
                assert(match_at(text@, pat@, i as int));
            }
            return true;
        }
        i += 1;
    }
    proof {
        assert forall|k: int| !match_at(text@, pat@, k) by {
            if 0 <= k && k + pat@.len() <= text@.len() {
                assert(k < i);
            }
        }
    }
    false
}

/// The content marker whose presence in a project manifest makes its
/// directory a multi-project workspace root.
pub open spec fn workspace_marker() -> Seq<char> {
    "[workspace]"@
}

/// Whether manifest `content` marks its directory as a workspace root.
pub fn is_workspace_manifest(content: &str) -> (r: bool)
    ensures
        r == contains_pattern(content@, workspace_marker()),
{
    contains_str(content, "[workspace]")
}

/// Whether one level of the upward walk marks a workspace root: its
/// manifest could be read and contains the workspace marker.
pub open spec fn marks_root(manifest: Option<String>) -> bool {
    match manifest {
        Some(content) => contains_pattern(content@, workspace_marker()),
        None => false,
    }
}

/// The first directory of the walk whose manifest marks a workspace root,
/// or none when no level qualifies.
pub open spec fn first_root_spec(dirs: Seq<String>, manifests: Seq<Option<String>>) -> Option<
    Seq<char>,
>
    decreases manifests.len(),
{
    if manifests.len() == 0 {
        None
    } else if marks_root(manifests[0]) {
        Some(dirs[0]@)
    } else {
        first_root_spec(dirs.drop_first(), manifests.drop_first())
    }
}

proof fn lemma_first_root_skip(dirs: Seq<String>, manifests: Seq<Option<String>>, i: int)
    requires
        dirs.len() == manifests.len(),
        0 <= i <= manifests.len(),
        forall|j: int| 0 <= j < i ==> !marks_root(manifests[j]),
    ensures
        first_root_spec(dirs, manifests) == first_root_spec(dirs.skip(i), manifests.skip(i)),
    decreases i,
{
    if i > 0 {
        assert(!marks_root(manifests[0]));
        assert forall|j: int| 0 <= j < i - 1 implies !marks_root(
            manifests.drop_first()[j],
        ) by {
            assert(manifests.drop_first()[j] == manifests[j + 1]);
        }
        lemma_first_root_skip(dirs.drop_first(), manifests.drop_first(), i - 1);
        assert(dirs.drop_first().skip(i - 1) =~= dirs.skip(i));
        assert(manifests.drop_first().skip(i - 1) =~= manifests.skip(i));
    } else {
        assert(dirs.skip(0) =~= dirs);
        assert(manifests.skip(0) =~= manifests);
    }
}

/// Locates the workspace root among the candidates the upward walk from the
/// working directory observed: `dirs` holds each visited directory,
/// innermost first, and `manifests` the content of its manifest file, when
/// one could be read. Returns the first directory that qualifies.
pub fn first_workspace_root(dirs: &Vec<String>, manifests: &Vec<Option<String>>) -> (r: Option<
    String,
>)
    requires
        dirs@.len() == manifests@.len(),
    ensures
        opt_path_text(r) == first_root_spec(dirs@, manifests@),
{
    let n = dirs.len();
    let mut i: usize = 0;
    while i < n
        invariant
            n == dirs@.len(),
            n == manifests@.len(),
            i <= n,
            forall|j: int| 0 <= j < i ==> !marks_root(manifests@[j]),
        decreases n - i,
    {
        let found = match &manifests[i] {
            Some(content) => is_workspace_manifest(content.as_str()),
            None => false,
        };
        if found {
            proof {
                lemma_first_root_skip(dirs@, manifests@, i as int);
                assert(marks_root(manifests@.skip(i as int)[0]));
                assert(dirs@.skip(i as int)[0] == dirs@[i as int]);
            }
            return Some(dirs[i].clone());
        }
        i += 1;
    }
    proof {
        lemma_first_root_skip(dirs@, manifests@, n as int);
        assert(manifests@.skip(n as int) =~= Seq::<Option<String>>::empty());
    }
    None
}

/// Law: directory resolution is deterministic in its inputs. Two
/// resolutions made under the same policy from the same observed
/// environment return the identical path, so the path the shell caches on
/// the first call is the path every later call would have computed — later
/// calls need not, and do not, observe the environment again.
pub proof fn lemma_resolution_idempotent(
    policy: DirPolicy,
    env_target: Option<Seq<char>>,
    workspace_root: Option<Seq<char>>,
    cwd: Option<Seq<char>>,
    r1: Seq<char>,
    r2: Seq<char>,
)
    requires
        r1 == debug_dir_spec(policy, env_target, workspace_root, cwd),
        r2 == debug_dir_spec(policy, env_target, workspace_root, cwd),
    ensures
        r1 == r2,
{
}

} // verus!

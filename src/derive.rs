use vstd::prelude::*;
use vstd::string::*;

use crate::plan::{BuildPlan, BuildPlanView, EnvVar, copy_env, copy_strings, env_texts, texts};

verus! {

/// What one step of the build tool's plan does.
#[derive(Debug, Clone, Copy, PartialEq, Eq, Structural)]
pub enum StepKind {
    /// Compiles a crate.
    Compile,
    /// Runs a crate's build script.
    RunBuildScript,
}

/// A stable path the build tool links onto one of its outputs.
pub struct Link {
    pub link: String,
    pub target: String,
}

/// One step of the plan the build tool reports for a build.
pub struct Invocation {
    pub kind: StepKind,
    pub program: String,
    pub args: Vec<String>,
    pub env: Vec<EnvVar>,
    pub cwd: String,
    pub outputs: Vec<String>,
    pub links: Vec<Link>,
}

pub open spec fn starts_with(s: Seq<char>, p: Seq<char>) -> bool {
    p.len() <= s.len() && s.subrange(0, p.len() as int) == p
}

pub open spec fn ends_with(s: Seq<char>, p: Seq<char>) -> bool {
    p.len() <= s.len() && s.subrange(s.len() - p.len(), s.len() as int) == p
}

pub fn has_prefix(s: &str, p: &str) -> (r: bool)
    ensures
        r == starts_with(s@, p@),
{
    let n = p.unicode_len();
    let m = s.unicode_len();
    if n > m {
        return false;
    }
    let mut i: usize = 0;
    while i < n
        invariant
            n == p@.len(),
            m == s@.len(),
            n <= m,
            i <= n,
            forall|j: int| 0 <= j < i ==> #[trigger] s@[j] == p@[j],
        decreases n - i,
    {
        if s.get_char(i) != p.get_char(i) {
            assert(s@.subrange(0, n as int)[i as int] != p@[i as int]);
            return false;
        }
        i = i + 1;
    }
    assert(s@.subrange(0, n as int) =~= p@);
    true
}

pub fn has_suffix(s: &str, p: &str) -> (r: bool)
    ensures
        r == ends_with(s@, p@),
{
    let n = p.unicode_len();
    let m = s.unicode_len();
    if n > m {
        return false;
    }
    let d = m - n;
    let mut i: usize = 0;
    while i < n
        invariant
            n == p@.len(),
            m == s@.len(),
            d == m - n,
            i <= n,
            forall|j: int| 0 <= j < i ==> #[trigger] s@[d + j] == p@[j],
        decreases n - i,
    {
        if s.get_char(d + i) != p.get_char(i) {
            assert(s@.subrange(d as int, m as int)[i as int] != p@[i as int]);
            return false;
        }
        i = i + 1;
    }
    assert forall|j: int| 0 <= j < n implies #[trigger] s@.subrange(d as int, m as int)[j] == p@[j] by {
        assert(s@[d + j] == p@[j]);
    }
    assert(s@.subrange(d as int, m as int) =~= p@);
    true
}

/// `i` is the position of the last compile step.
pub open spec fn is_last_compile(invs: Seq<Invocation>, i: int) -> bool {
    &&& 0 <= i < invs.len()
    &&& invs[i].kind == StepKind::Compile
    &&& forall|j: int| i < j < invs.len() ==> #[trigger] invs[j].kind != StepKind::Compile
}

/// The position of the last compile step, the one that builds the game
/// crate itself.
pub fn final_compile(invs: &Vec<Invocation>) -> (r: Option<usize>)
    ensures
        r matches Some(i) ==> is_last_compile(invs@, i as int),
        r is None ==> forall|j: int| 0 <= j < invs@.len() ==> #[trigger] invs@[j].kind != StepKind::Compile,
{
    let mut i: usize = invs.len();
    while i > 0
        invariant
            i <= invs@.len(),
            forall|j: int| i <= j < invs@.len() ==> #[trigger] invs@[j].kind != StepKind::Compile,
        decreases i,
    {
        if invs[i - 1].kind == StepKind::Compile {
            return Some(i - 1);
        }
        i = i - 1;
    }
    None
}

/// The positions of the build-script runs, in plan order.
pub open spec fn build_script_steps(invs: Seq<Invocation>) -> Seq<int>
    decreases invs.len(),
{
    if invs.len() == 0 {
        seq![]
    } else {
        let rest = build_script_steps(invs.drop_last());
        if invs.last().kind == StepKind::RunBuildScript {
            rest.push(invs.len() - 1)
        } else {
            rest
        }
    }
}

/// The pre-build steps to re-run before building: the build-script runs.
pub fn pre_build_steps(invs: &Vec<Invocation>) -> (r: Vec<usize>)
    ensures
        r@.map_values(|i: usize| i as int) == build_script_steps(invs@),
{
    let mut r: Vec<usize> = Vec::new();
    let mut i: usize = 0;
    while i < invs.len()
        invariant
            i <= invs@.len(),
            r@.map_values(|k: usize| k as int) == build_script_steps(invs@.subrange(0, i as int)),
        decreases invs@.len() - i,
    {
        let ghost before = r@;
        assert(invs@.subrange(0, i + 1).drop_last() =~= invs@.subrange(0, i as int));
        if invs[i].kind == StepKind::RunBuildScript {
            r.push(i);
            assert(r@.map_values(|k: usize| k as int) =~= before.map_values(|k: usize| k as int).push(i as int));
        }
        i = i + 1;
    }
    assert(invs@.subrange(0, i as int) =~= invs@);
    r
}

/// The directory a build script asks to be searched for native libraries,
/// when `line` of its output is such a request.
pub open spec fn search_path(line: Seq<char>) -> Option<Seq<char>> {
    if starts_with(line, "cargo:rustc-link-search="@) {
        Some(line.subrange("cargo:rustc-link-search="@.len() as int, line.len() as int))
    } else if starts_with(line, "cargo::rustc-link-search="@) {
        Some(line.subrange("cargo::rustc-link-search="@.len() as int, line.len() as int))
    } else {
        None
    }
}

/// The compiler arguments that add every requested search directory, in order.
pub open spec fn search_args(lines: Seq<Seq<char>>) -> Seq<Seq<char>>
    decreases lines.len(),
{
    if lines.len() == 0 {
        seq![]
    } else {
        let rest = search_args(lines.drop_last());
        match search_path(lines.last()) {
            Some(dir) => rest + seq!["-L"@, dir],
            None => rest,
        }
    }
}

fn search_path_of(line: &str) -> (r: Option<String>)
    ensures
        match search_path(line@) {
            Some(dir) => r matches Some(d) && d@ == dir,
            None => r is None,
        },
{
    let old_prefix = "cargo:rustc-link-search=";
    let new_prefix = "cargo::rustc-link-search=";
    if has_prefix(line, old_prefix) {
        let n = old_prefix.unicode_len();
        let len = line.unicode_len();
        Some(String::from_str(line.substring_char(n, len)))
    } else if has_prefix(line, new_prefix) {
        let n = new_prefix.unicode_len();
        let len = line.unicode_len();
        Some(String::from_str(line.substring_char(n, len)))
    } else {
        None
    }
}

/// Turns what the pre-build steps printed into compiler arguments: `-L`
/// and the directory, for each line that asks for a native library search
/// directory.
pub fn link_search_args(lines: &Vec<String>) -> (r: Vec<String>)
    ensures
        texts(r@) == search_args(texts(lines@)),
{
    let mut r: Vec<String> = Vec::new();
    let mut i: usize = 0;
    while i < lines.len()
        invariant
            i <= lines@.len(),
            texts(r@) == search_args(texts(lines@.subrange(0, i as int))),
        decreases lines@.len() - i,
    {
        let ghost before = r@;
        let ghost prefix = texts(lines@.subrange(0, i + 1));
        assert(prefix.drop_last() =~= texts(lines@.subrange(0, i as int)));
        assert(prefix.last() == lines@[i as int]@);
        match search_path_of(lines[i].as_str()) {
            Some(dir) => {
                r.push(String::from_str("-L"));
                r.push(dir);
                proof {
                    reveal_strlit("-L");
                    assert(texts(r@) =~= texts(before) + seq!["-L"@, search_path(lines@[i as int]@)->Some_0]);
                }
            },
            None => {},
        }
        i = i + 1;
    }
    assert(lines@.subrange(0, i as int) =~= lines@);
    r
}

/// The first argument naming a Rust source file: the crate root.
pub open spec fn crate_root(args: Seq<Seq<char>>) -> Option<Seq<char>>
    decreases args.len(),
{
    if args.len() == 0 {
        None
    } else if ends_with(args[0], ".rs"@) {
        Some(args[0])
    } else {
        crate_root(args.drop_first())
    }
}

fn find_crate_root(args: &Vec<String>) -> (r: Option<usize>)
    ensures
        match crate_root(texts(args@)) {
            Some(root) => r matches Some(i) && i < args@.len() && args@[i as int]@ == root,
            None => r is None,
        },
{
    let mut i: usize = 0;
    assert(args@.subrange(0, args@.len() as int) =~= args@);
    while i < args.len()
        invariant
            i <= args@.len(),
            crate_root(texts(args@)) == crate_root(texts(args@.subrange(i as int, args@.len() as int))),
        decreases args@.len() - i,
    {
        let ghost rest = texts(args@.subrange(i as int, args@.len() as int));
        assert(rest[0] == args@[i as int]@);
        if has_suffix(args[i].as_str(), ".rs") {
            return Some(i);
        }
        assert(rest.drop_first() =~= texts(args@.subrange(i + 1, args@.len() as int)));
        i = i + 1;
    }
    proof {
        assert(texts(args@.subrange(i as int, args@.len() as int)) =~= Seq::<Seq<char>>::empty());
    }
    None
}

/// `i` is the position of the last `c` in `s`.
pub open spec fn is_last_sep(s: Seq<char>, c: char, i: int) -> bool {
    &&& 0 <= i < s.len()
    &&& s[i] == c
    &&& forall|j: int| i < j < s.len() ==> #[trigger] s[j] != c
}

fn last_sep(s: &str, c: char) -> (r: Option<usize>)
    ensures
        r matches Some(i) ==> is_last_sep(s@, c, i as int),
        r is None ==> forall|j: int| 0 <= j < s@.len() ==> #[trigger] s@[j] != c,
{
    let n = s.unicode_len();
    let mut i: usize = n;
    while i > 0
        invariant
            n == s@.len(),
            i <= n,
            forall|j: int| i <= j < n ==> #[trigger] s@[j] != c,
        decreases i,
    {
        if s.get_char(i - 1) == c {
            return Some(i - 1);
        }
        i = i - 1;
    }
    None
}

/// The directory to watch for a crate whose root file is `root`, named
/// relative to `cwd` unless it starts with the one-character separator
/// `sep`: the directory that holds the root file.
pub open spec fn source_dir(cwd: Seq<char>, root: Seq<char>, sep: Seq<char>) -> Seq<char> {
    if exists|i: int| is_last_sep(root, sep[0], i) {
        let k = choose|i: int| is_last_sep(root, sep[0], i);
        if root[0] == sep[0] {
            root.subrange(0, k)
        } else {
            cwd + sep + root.subrange(0, k)
        }
    } else {
        cwd
    }
}

fn source_dir_of(cwd: &str, root: &str, sep: &str) -> (r: String)
    requires
        sep@.len() == 1,
    ensures
        r@ == source_dir(cwd@, root@, sep@),
{
    let c = sep.get_char(0);
    match last_sep(root, c) {
        Some(k) => {
            proof {
                let kk = choose|i: int| is_last_sep(root@, c, i);
                assert(is_last_sep(root@, c, kk));
                assert(kk == k as int) by {
                    if kk < k {
                        assert(root@[k as int] != c);
                    } else if kk > k {
                        assert(root@[kk] != c);
                    }
                }
            }
            let parent = root.substring_char(0, k);
            if root.get_char(0) == c {
                String::from_str(parent)
            } else {
                let mut r = String::from_str(cwd);
                r.append(sep);
                r.append(parent);
                r
            }
        },
        None => String::from_str(cwd),
    }
}

/// The stable path that the build tool links onto `artifact`: the first
/// link whose target it is, or the artifact itself.
pub open spec fn stable_path(links: Seq<Link>, artifact: Seq<char>) -> Seq<char>
    decreases links.len(),
{
    if links.len() == 0 {
        artifact
    } else if links[0].target@ == artifact {
        links[0].link@
    } else {
        stable_path(links.drop_first(), artifact)
    }
}

fn stable_path_of(links: &Vec<Link>, artifact: &String) -> (r: String)
    ensures
        r@ == stable_path(links@, artifact@),
{
    let mut i: usize = 0;
    assert(links@.subrange(0, links@.len() as int) =~= links@);
    while i < links.len()
        invariant
            i <= links@.len(),
            stable_path(links@, artifact@) == stable_path(links@.subrange(i as int, links@.len() as int), artifact@),
        decreases links@.len() - i,
    {
        let ghost rest = links@.subrange(i as int, links@.len() as int);
        assert(rest[0] == links@[i as int]);
        if links[i].target == *artifact {
            return links[i].link.clone();
        }
        assert(rest.drop_first() =~= links@.subrange(i + 1, links@.len() as int));
        i = i + 1;
    }
    artifact.clone()
}

/// The plan derived from the build tool's steps: rerun the last compile
/// step, with `extra_args` appended, watch the directory of its crate root,
/// and load its first output through the stable path linked onto it.
/// There is none when no step compiles, or that step names no crate root
/// or no output.
pub open spec fn derived_plan(invs: Seq<Invocation>, extra_args: Seq<Seq<char>>, sep: Seq<char>) -> Option<BuildPlanView> {
    if exists|i: int| is_last_compile(invs, i) {
        let inv = invs[choose|i: int| is_last_compile(invs, i)];
        match crate_root(texts(inv.args@)) {
            Some(root) => {
                if inv.outputs@.len() == 0 {
                    None
                } else {
                    let artifact = inv.outputs@[0]@;
                    Some(
                        BuildPlanView {
                            program: inv.program@,
                            args: texts(inv.args@) + extra_args,
                            env: env_texts(inv.env@),
                            working_dir: inv.cwd@,
                            source_root: source_dir(inv.cwd@, root, sep),
                            artifact_path: artifact,
                            link_path: stable_path(inv.links@, artifact),
                        },
                    )
                }
            },
            None => None,
        }
    } else {
        None
    }
}

/// Derives a build plan from the steps the build tool reported, see
/// `derived_plan`.
pub fn derive_plan(invs: &Vec<Invocation>, extra_args: &Vec<String>, sep: &str) -> (r: Option<BuildPlan>)
    requires
        sep@.len() == 1,
    ensures
        match derived_plan(invs@, texts(extra_args@), sep@) {
            Some(v) => r matches Some(p) && p@ == v,
            None => r is None,
        },
{
    let i = match final_compile(invs) {
        Some(i) => i,
        None => return None,
    };
    proof {
        let kk = choose|j: int| is_last_compile(invs@, j);
        assert(is_last_compile(invs@, kk));
        assert(kk == i as int) by {
            if kk < i {
                assert(invs@[i as int].kind != StepKind::Compile);
            } else if kk > i {
                assert(invs@[kk].kind != StepKind::Compile);
            }
        }
    }
    let inv = &invs[i];
    let root = match find_crate_root(&inv.args) {
        Some(k) => k,
        None => return None,
    };
    if inv.outputs.len() == 0 {
        return None;
    }
    let artifact = inv.outputs[0].clone();
    let mut args = copy_strings(&inv.args);
    let mut k: usize = 0;
    while k < extra_args.len()
        invariant
            k <= extra_args@.len(),
            texts(args@) == texts(inv.args@) + texts(extra_args@.subrange(0, k as int)),
        decreases extra_args@.len() - k,
    {
        let ghost before = args@;
        args.push(extra_args[k].clone());
        proof {
            assert(texts(args@) =~= texts(before).push(extra_args@[k as int]@));
            assert(texts(extra_args@.subrange(0, k + 1)) =~= texts(extra_args@.subrange(0, k as int)).push(
                extra_args@[k as int]@,
            ));
            assert(texts(args@) =~= texts(inv.args@) + texts(extra_args@.subrange(0, k + 1)));
        }
        k = k + 1;
    }
    assert(extra_args@.subrange(0, k as int) =~= extra_args@);
    let source_root = source_dir_of(inv.cwd.as_str(), inv.args[root].as_str(), sep);
    let link_path = stable_path_of(&inv.links, &artifact);
    Some(
        BuildPlan {
            program: inv.program.clone(),
            args,
            env: copy_env(&inv.env),
            working_dir: inv.cwd.clone(),
            source_root,
            artifact_path: artifact,
            link_path,
        },
    )
}

} // verus!

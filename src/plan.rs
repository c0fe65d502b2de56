use vstd::prelude::*;
use vstd::string::*;

verus! {

/// The characters of a list of strings.
pub open spec fn texts(v: Seq<String>) -> Seq<Seq<char>> {
    v.map_values(|s: String| s@)
}

pub open spec fn digit(d: nat) -> char {
    if d == 0 {
        '0'
    } else if d == 1 {
        '1'
    } else if d == 2 {
        '2'
    } else if d == 3 {
        '3'
    } else if d == 4 {
        '4'
    } else if d == 5 {
        '5'
    } else if d == 6 {
        '6'
    } else if d == 7 {
        '7'
    } else if d == 8 {
        '8'
    } else {
        '9'
    }
}

/// The decimal digits of `n`, most significant first, without leading zeros.
pub open spec fn decimal(n: nat) -> Seq<char>
    decreases n,
{
    if n < 10 {
        seq![digit(n)]
    } else {
        decimal(n / 10).push(digit(n % 10))
    }
}

fn digit_str(d: u64) -> (r: &'static str)
    requires
        d < 10,
    ensures
        r@ == seq![digit(d as nat)],
{
    if d == 0 {
        proof { reveal_strlit("0"); }
        "0"
    } else if d == 1 {
        proof { reveal_strlit("1"); }
        "1"
    } else if d == 2 {
        proof { reveal_strlit("2"); }
        "2"
    } else if d == 3 {
        proof { reveal_strlit("3"); }
        "3"
    } else if d == 4 {
        proof { reveal_strlit("4"); }
        "4"
    } else if d == 5 {
        proof { reveal_strlit("5"); }
        "5"
    } else if d == 6 {
        proof { reveal_strlit("6"); }
        "6"
    } else if d == 7 {
        proof { reveal_strlit("7"); }
        "7"
    } else if d == 8 {
        proof { reveal_strlit("8"); }
        "8"
    } else {
        proof { reveal_strlit("9"); }
        "9"
    }
}

/// `n` written in decimal.
pub fn decimal_string(n: u64) -> (r: String)
    ensures
        r@ == decimal(n as nat),
    decreases n,
{
    if n < 10 {
        String::from_str(digit_str(n))
    } else {
        let mut r = decimal_string(n / 10);
        r.append(digit_str(n % 10));
        r
    }
}

/// Name of the hard link through which reload attempt number `attempt`
/// opens the artifact: `<artifact>-reload.<attempt>`.
pub open spec fn link_name_of(artifact: Seq<char>, attempt: nat) -> Seq<char> {
    artifact + "-reload."@ + decimal(attempt)
}

pub fn link_name(artifact: &str, attempt: u64) -> (r: String)
    ensures
        r@ == link_name_of(artifact@, attempt as nat),
{
    let mut r = String::from_str(artifact);
    r.append("-reload.");
    let digits = decimal_string(attempt);
    r.append(digits.as_str());
    r
}

/// Where a cargo project in `game_dir` puts the debug build of the dynamic
/// library `target_name`: `<game_dir>/target/debug/<prefix><target_name><suffix>`.
pub open spec fn artifact_path_of(
    game_dir: Seq<char>,
    target_name: Seq<char>,
    dll_prefix: Seq<char>,
    dll_suffix: Seq<char>,
    sep: Seq<char>,
) -> Seq<char> {
    game_dir + sep + "target"@ + sep + "debug"@ + sep + dll_prefix + target_name + dll_suffix
}

pub fn artifact_path(game_dir: &str, target_name: &str, dll_prefix: &str, dll_suffix: &str, sep: &str) -> (r: String)
    ensures
        r@ == artifact_path_of(game_dir@, target_name@, dll_prefix@, dll_suffix@, sep@),
{
    let mut r = String::from_str(game_dir);
    r.append(sep);
    r.append("target");
    r.append(sep);
    r.append("debug");
    r.append(sep);
    r.append(dll_prefix);
    r.append(target_name);
    r.append(dll_suffix);
    r
}

/// The conventional source directory of a cargo project: `<game_dir>/src`.
pub open spec fn source_root_of(game_dir: Seq<char>, sep: Seq<char>) -> Seq<char> {
    game_dir + sep + "src"@
}

/// An environment variable set for a command.
pub struct EnvVar {
    pub name: String,
    pub value: String,
}

/// The names and values of a list of environment variables.
pub open spec fn env_texts(v: Seq<EnvVar>) -> Seq<(Seq<char>, Seq<char>)> {
    v.map_values(|e: EnvVar| (e.name@, e.value@))
}

pub(crate) fn copy_env(v: &Vec<EnvVar>) -> (r: Vec<EnvVar>)
    ensures
        env_texts(r@) == env_texts(v@),
{
    let mut r: Vec<EnvVar> = Vec::new();
    let mut i: usize = 0;
    while i < v.len()
        invariant
            i <= v@.len(),
            env_texts(r@) == env_texts(v@.subrange(0, i as int)),
        decreases v@.len() - i,
    {
        let ghost before = r@;
        r.push(EnvVar { name: v[i].name.clone(), value: v[i].value.clone() });
        proof {
            let want = env_texts(v@.subrange(0, i + 1));
            assert(env_texts(before).len() == before.len());
            assert(env_texts(r@).len() == r@.len());
            assert(want.len() == i + 1);
            assert forall|k: int| 0 <= k < want.len() implies #[trigger] env_texts(r@)[k] == want[k] by {
                if k < i {
                    assert(r@[k] == before[k]);
                    assert(env_texts(before)[k] == env_texts(v@.subrange(0, i as int))[k]);
                }
            }
            assert(env_texts(r@) =~= want);
        }
        i = i + 1;
    }
    assert(v@.subrange(0, i as int) =~= v@);
    r
}

pub(crate) fn copy_strings(v: &Vec<String>) -> (r: Vec<String>)
    ensures
        r@ == v@,
{
    let mut r: Vec<String> = Vec::new();
    let mut i: usize = 0;
    while i < v.len()
        invariant
            i <= v@.len(),
            r@ == v@.subrange(0, i as int),
        decreases v@.len() - i,
    {
        r.push(v[i].clone());
        i = i + 1;
        assert(r@ =~= v@.subrange(0, i as int));
    }
    assert(r@ =~= v@);
    r
}

/// How to rebuild the game logic and where to find the result.
pub struct BuildPlan {
    /// The build tool to run.
    pub program: String,
    /// Its arguments.
    pub args: Vec<String>,
    /// Environment variables it runs with, besides the inherited ones.
    pub env: Vec<EnvVar>,
    /// The directory it runs in.
    pub working_dir: String,
    /// The directory whose changes trigger a rebuild.
    pub source_root: String,
    /// The file the build produces.
    pub artifact_path: String,
    /// The stable path that is loaded; when it differs from the artifact,
    /// the artifact is linked onto it first.
    pub link_path: String,
}

/// The contents of a plan as plain text.
pub struct BuildPlanView {
    pub program: Seq<char>,
    pub args: Seq<Seq<char>>,
    pub env: Seq<(Seq<char>, Seq<char>)>,
    pub working_dir: Seq<char>,
    pub source_root: Seq<char>,
    pub artifact_path: Seq<char>,
    pub link_path: Seq<char>,
}

impl View for BuildPlan {
    type V = BuildPlanView;

    open spec fn view(&self) -> BuildPlanView {
        BuildPlanView {
            program: self.program@,
            args: texts(self.args@),
            env: env_texts(self.env@),
            working_dir: self.working_dir@,
            source_root: self.source_root@,
            artifact_path: self.artifact_path@,
            link_path: self.link_path@,
        }
    }
}

impl BuildPlan {
    /// Whether the artifact has to be linked onto the load path before loading.
    pub fn needs_relink(&self) -> (r: bool)
        ensures
            r == (self.artifact_path@ != self.link_path@),
    {
        !(self.artifact_path == self.link_path)
    }

    /// The per-attempt link through which attempt `attempt` opens the library.
    pub fn attempt_link(&self, attempt: u64) -> (r: String)
        ensures
            r@ == link_name_of(self.link_path@, attempt as nat),
    {
        link_name(self.link_path.as_str(), attempt)
    }
}

/// The portable plan: `cargo build` with the pass-through arguments, run in
/// the game directory, watching its `src` directory, loading the debug
/// library in place.
pub fn fallback_plan(
    game_dir: &str,
    target_name: &str,
    pass_args: &Vec<String>,
    dll_prefix: &str,
    dll_suffix: &str,
    sep: &str,
) -> (r: BuildPlan)
    ensures
        r.program@ == "cargo"@,
        texts(r.args@) == seq!["build"@] + texts(pass_args@),
        r.env@.len() == 0,
        r.working_dir@ == game_dir@,
        r.source_root@ == source_root_of(game_dir@, sep@),
        r.artifact_path@ == artifact_path_of(game_dir@, target_name@, dll_prefix@, dll_suffix@, sep@),
        r.link_path@ == r.artifact_path@,
{
    let mut args: Vec<String> = Vec::new();
    args.push(String::from_str("build"));
    let mut i: usize = 0;
    while i < pass_args.len()
        invariant
            i <= pass_args@.len(),
            texts(args@) == seq!["build"@] + texts(pass_args@.subrange(0, i as int)),
        decreases pass_args@.len() - i,
    {
        let ghost before = args@;
        args.push(pass_args[i].clone());
        proof {
            let want = seq!["build"@] + texts(pass_args@.subrange(0, i + 1));
            let prev = seq!["build"@] + texts(pass_args@.subrange(0, i as int));
            assert(texts(before).len() == before.len());
            assert(texts(args@).len() == args@.len());
            assert(texts(pass_args@.subrange(0, i as int)).len() == i);
            assert(texts(pass_args@.subrange(0, i + 1)).len() == i + 1);
            assert(texts(args@).len() == want.len());
            assert forall|k: int| 0 <= k < want.len() implies #[trigger] texts(args@)[k] == want[k] by {
                if k < want.len() - 1 {
                    assert(args@[k] == before[k]);
                    assert(texts(before)[k] == prev[k]);
                }
            }
            assert(texts(args@) =~= want);
        }
        i = i + 1;
    }
    assert(pass_args@.subrange(0, i as int) =~= pass_args@);
    let mut source_root = String::from_str(game_dir);
    source_root.append(sep);
    source_root.append("src");
    let artifact = artifact_path(game_dir, target_name, dll_prefix, dll_suffix, sep);
    let link = artifact.clone();
    BuildPlan {
        program: String::from_str("cargo"),
        args,
        env: Vec::new(),
        working_dir: String::from_str(game_dir),
        source_root,
        artifact_path: artifact,
        link_path: link,
    }
}

/// What decides whether a cached plan may be reused: the modification time
/// of the dependency lock file, the toolchain version, and the pass-through
/// arguments.
pub struct Fingerprint {
    pub lockfile_mtime: u64,
    pub toolchain: String,
    pub args: Vec<String>,
}

pub open spec fn same_fingerprint(a: &Fingerprint, b: &Fingerprint) -> bool {
    &&& a.lockfile_mtime == b.lockfile_mtime
    &&& a.toolchain@ == b.toolchain@
    &&& texts(a.args@) == texts(b.args@)
}

/// Whether two fingerprints agree exactly.
pub fn fingerprint_matches(a: &Fingerprint, b: &Fingerprint) -> (r: bool)
    ensures
        r == same_fingerprint(a, b),
{
    if a.lockfile_mtime != b.lockfile_mtime || !(a.toolchain == b.toolchain) {
        return false;
    }
    if a.args.len() != b.args.len() {
        assert(texts(a.args@).len() != texts(b.args@).len());
        return false;
    }
    let mut i: usize = 0;
    while i < a.args.len()
        invariant
            a.args@.len() == b.args@.len(),
            i <= a.args@.len(),
            forall|j: int| 0 <= j < i ==> #[trigger] a.args@[j]@ == b.args@[j]@,
        decreases a.args@.len() - i,
    {
        if !(a.args[i] == b.args[i]) {
            assert(texts(a.args@)[i as int] != texts(b.args@)[i as int]);
            return false;
        }
        i = i + 1;
    }
    assert(texts(a.args@) =~= texts(b.args@));
    true
}

/// A plan stored together with the fingerprint it was derived under.
pub struct CachedPlan {
    pub fingerprint: Fingerprint,
    pub plan: BuildPlan,
}

/// Where the plan in use came from.
#[derive(Debug, Clone, Copy, PartialEq, Eq, Structural)]
pub enum PlanSource {
    Cached,
    Derived,
    Fallback,
}

/// The plan to use, where it came from, and what to store in the cache.
pub struct PlanChoice {
    pub plan: BuildPlan,
    pub source: PlanSource,
    pub cache_update: Option<CachedPlan>,
}

/// The cached plan, when there is one and its fingerprint matches the
/// current one exactly.
pub fn reuse_cached(cached: Option<CachedPlan>, current: &Fingerprint) -> (r: Option<BuildPlan>)
    ensures
        (cached matches Some(c) && same_fingerprint(&c.fingerprint, current)) ==> r == Some(cached->Some_0.plan),
        !(cached matches Some(c) && same_fingerprint(&c.fingerprint, current)) ==> r is None,
{
    match cached {
        Some(c) => {
            if fingerprint_matches(&c.fingerprint, current) {
                Some(c.plan)
            } else {
                None
            }
        },
        None => None,
    }
}

/// Picks a plan when no cached one can be reused: the one derived from the
/// build tool, which is then to be cached under the current fingerprint,
/// or else the fallback.
pub fn choose_fresh(current: Fingerprint, derived: Option<BuildPlan>, fallback: BuildPlan) -> (r: PlanChoice)
    ensures
        match derived {
            Some(d) => {
                &&& r.plan == d
                &&& r.source == PlanSource::Derived
                &&& r.cache_update matches Some(u) && u.fingerprint == current && u.plan@ == d@
            },
            None => {
                &&& r.plan == fallback
                &&& r.source == PlanSource::Fallback
                &&& r.cache_update is None
            },
        },
{
    match derived {
        Some(d) => {
            let plan = BuildPlan {
                program: d.program.clone(),
                args: copy_strings(&d.args),
                env: copy_env(&d.env),
                working_dir: d.working_dir.clone(),
                source_root: d.source_root.clone(),
                artifact_path: d.artifact_path.clone(),
                link_path: d.link_path.clone(),
            };
            PlanChoice {
                plan: d,
                source: PlanSource::Derived,
                cache_update: Some(CachedPlan { fingerprint: current, plan }),
            }
        },
        None => PlanChoice { plan: fallback, source: PlanSource::Fallback, cache_update: None },
    }
}

/// Picks the plan: a cached one whose fingerprint matches the current one
/// exactly; else one derived from the build tool, which is then to be
/// cached under the current fingerprint; else the fallback.
pub fn select_plan(
    cached: Option<CachedPlan>,
    current: Fingerprint,
    derived: Option<BuildPlan>,
    fallback: BuildPlan,
) -> (r: PlanChoice)
    ensures
        (cached matches Some(c) && same_fingerprint(&c.fingerprint, &current)) ==> ({
            &&& r.plan == cached->Some_0.plan
            &&& r.source == PlanSource::Cached
            &&& r.cache_update is None
        }),
        !(cached matches Some(c) && same_fingerprint(&c.fingerprint, &current)) ==> (
        match derived {
            Some(d) => {
                &&& r.plan == d
                &&& r.source == PlanSource::Derived
                &&& r.cache_update matches Some(u) && u.fingerprint == current && u.plan@ == d@
            },
            None => {
                &&& r.plan == fallback
                &&& r.source == PlanSource::Fallback
                &&& r.cache_update is None
            },
        }),
{
    match reuse_cached(cached, &current) {
        Some(plan) => PlanChoice { plan, source: PlanSource::Cached, cache_update: None },
        None => choose_fresh(current, derived, fallback),
    }
}

} // verus!

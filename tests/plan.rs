use reload_engine::plan::{
    artifact_path, decimal_string, fallback_plan, fingerprint_matches, link_name, select_plan,
    BuildPlan, CachedPlan, Fingerprint, PlanSource,
};

fn strings(v: &[&str]) -> Vec<String> {
    v.iter().map(|s| s.to_string()).collect()
}

fn plan_in(dir: &str) -> BuildPlan {
    fallback_plan(dir, "game", &Vec::new(), "lib", ".so", "/")
}

fn fp(mtime: u64, toolchain: &str, args: &[&str]) -> Fingerprint {
    Fingerprint { lockfile_mtime: mtime, toolchain: toolchain.to_string(), args: strings(args) }
}

#[test]
fn decimal_digits() {
    assert_eq!(decimal_string(0), "0");
    assert_eq!(decimal_string(7), "7");
    assert_eq!(decimal_string(10), "10");
    assert_eq!(decimal_string(1234567890), "1234567890");
    assert_eq!(decimal_string(u64::MAX), "18446744073709551615");
}

#[test]
fn link_names_count_attempts() {
    assert_eq!(link_name("game/target/debug/libgame.so", 1), "game/target/debug/libgame.so-reload.1");
    assert_eq!(link_name("a", 42), "a-reload.42");
}

#[test]
fn artifact_path_layout() {
    assert_eq!(artifact_path("game", "game", "lib", ".so", "/"), "game/target/debug/libgame.so");
    assert_eq!(artifact_path("g", "t", "", ".dll", "\\"), "g\\target\\debug\\t.dll");
}

#[test]
fn fallback_plan_builds_with_cargo() {
    let p = fallback_plan("/w/game", "game", &strings(&["--release", "-q"]), "lib", ".so", "/");
    assert_eq!(p.program, "cargo");
    assert_eq!(p.args, strings(&["build", "--release", "-q"]));
    assert_eq!(p.working_dir, "/w/game");
    assert_eq!(p.source_root, "/w/game/src");
    assert_eq!(p.artifact_path, "/w/game/target/debug/libgame.so");
    assert_eq!(p.link_path, p.artifact_path);
    assert!(!p.needs_relink());
    assert_eq!(p.attempt_link(3), "/w/game/target/debug/libgame.so-reload.3");
}

#[test]
fn relink_when_paths_differ() {
    let mut p = plan_in("g");
    p.link_path = String::from("/bin/space_tennis");
    assert!(p.needs_relink());
    assert_eq!(p.attempt_link(1), "/bin/space_tennis-reload.1");
}

#[test]
fn fingerprints_must_match_exactly() {
    let a = fp(10, "rustc 1.80.0", &["--features", "dyn"]);
    assert!(fingerprint_matches(&a, &fp(10, "rustc 1.80.0", &["--features", "dyn"])));
    assert!(!fingerprint_matches(&a, &fp(11, "rustc 1.80.0", &["--features", "dyn"])));
    assert!(!fingerprint_matches(&a, &fp(10, "rustc 1.81.0", &["--features", "dyn"])));
    assert!(!fingerprint_matches(&a, &fp(10, "rustc 1.80.0", &["--features"])));
    assert!(!fingerprint_matches(&a, &fp(10, "rustc 1.80.0", &["--features", "piston"])));
    assert!(fingerprint_matches(&fp(0, "", &[]), &fp(0, "", &[])));
}

#[test]
fn matching_cache_is_reused() {
    let cached = CachedPlan { fingerprint: fp(5, "t", &[]), plan: plan_in("cached") };
    let c = select_plan(Some(cached), fp(5, "t", &[]), Some(plan_in("derived")), plan_in("fallback"));
    assert_eq!(c.source, PlanSource::Cached);
    assert_eq!(c.plan.working_dir, "cached");
    assert!(c.cache_update.is_none());
}

#[test]
fn stale_cache_uses_derived_plan_and_rewrites_cache() {
    let cached = CachedPlan { fingerprint: fp(5, "t", &[]), plan: plan_in("cached") };
    let c = select_plan(Some(cached), fp(6, "t", &[]), Some(plan_in("derived")), plan_in("fallback"));
    assert_eq!(c.source, PlanSource::Derived);
    assert_eq!(c.plan.working_dir, "derived");
    let u = c.cache_update.unwrap();
    assert_eq!(u.fingerprint.lockfile_mtime, 6);
    assert_eq!(u.plan.working_dir, "derived");
    assert_eq!(u.plan.args, strings(&["build"]));
}

#[test]
fn no_plan_falls_back() {
    let c = select_plan(None, fp(1, "t", &[]), None, plan_in("fallback"));
    assert_eq!(c.source, PlanSource::Fallback);
    assert_eq!(c.plan.working_dir, "fallback");
    assert!(c.cache_update.is_none());
}

use reload_engine::derive::{
    derive_plan, final_compile, has_prefix, has_suffix, link_search_args, pre_build_steps,
    Invocation, Link, StepKind,
};
use reload_engine::plan::EnvVar;

fn strings(v: &[&str]) -> Vec<String> {
    v.iter().map(|s| s.to_string()).collect()
}

fn step(kind: StepKind, program: &str, args: &[&str], outputs: &[&str], links: &[(&str, &str)]) -> Invocation {
    Invocation {
        kind,
        program: program.to_string(),
        args: strings(args),
        env: vec![EnvVar { name: "CARGO_PKG_NAME".to_string(), value: "game".to_string() }],
        cwd: "/w/game".to_string(),
        outputs: strings(outputs),
        links: links
            .iter()
            .map(|(l, t)| Link { link: l.to_string(), target: t.to_string() })
            .collect(),
    }
}

fn sample() -> Vec<Invocation> {
    vec![
        step(StepKind::Compile, "rustc", &["--crate-name", "build_script_build", "build.rs"], &["/w/t/build"], &[]),
        step(StepKind::RunBuildScript, "/w/t/build/run", &[], &[], &[]),
        step(StepKind::Compile, "rustc", &["--crate-name", "dep", "/reg/dep/src/lib.rs"], &["/w/t/libdep.rlib"], &[]),
        step(
            StepKind::Compile,
            "rustc",
            &["--crate-name", "game", "--edition=2021", "src/lib.rs", "--crate-type", "dylib"],
            &["/w/t/debug/deps/libgame-1234.so"],
            &[("/w/t/debug/libgame.a", "/w/t/other"), ("/w/t/debug/libgame.so", "/w/t/debug/deps/libgame-1234.so")],
        ),
        step(StepKind::RunBuildScript, "/w/t/build2/run", &[], &[], &[]),
    ]
}

#[test]
fn prefixes_and_suffixes() {
    assert!(has_prefix("cargo:rustc-link-search=x", "cargo:"));
    assert!(has_prefix("abc", ""));
    assert!(!has_prefix("ab", "abc"));
    assert!(!has_prefix("abd", "abc"));
    assert!(has_suffix("src/lib.rs", ".rs"));
    assert!(!has_suffix("src/lib.rs.bak", ".rs"));
    assert!(!has_suffix("rs", ".rs"));
}

#[test]
fn finds_last_compile_and_build_scripts() {
    let invs = sample();
    assert_eq!(final_compile(&invs), Some(3));
    assert_eq!(pre_build_steps(&invs), vec![1, 4]);
    assert_eq!(final_compile(&Vec::new()), None);
    let only_scripts = vec![step(StepKind::RunBuildScript, "x", &[], &[], &[])];
    assert_eq!(final_compile(&only_scripts), None);
}

#[test]
fn search_directories_become_compiler_args() {
    let lines = strings(&[
        "cargo:rerun-if-changed=build.rs",
        "cargo:rustc-link-search=native=/opt/lib",
        "cargo::rustc-link-search=/usr/local/lib",
        "cargo:rustc-link-lib=z",
    ]);
    assert_eq!(link_search_args(&lines), strings(&["-L", "native=/opt/lib", "-L", "/usr/local/lib"]));
    assert_eq!(link_search_args(&Vec::new()), Vec::<String>::new());
}

#[test]
fn derives_plan_from_final_compile() {
    let p = derive_plan(&sample(), &strings(&["-L", "/opt/lib"]), "/").unwrap();
    assert_eq!(p.program, "rustc");
    assert_eq!(
        p.args,
        strings(&["--crate-name", "game", "--edition=2021", "src/lib.rs", "--crate-type", "dylib", "-L", "/opt/lib"])
    );
    assert_eq!(p.env.len(), 1);
    assert_eq!(p.env[0].name, "CARGO_PKG_NAME");
    assert_eq!(p.working_dir, "/w/game");
    assert_eq!(p.source_root, "/w/game/src");
    assert_eq!(p.artifact_path, "/w/t/debug/deps/libgame-1234.so");
    assert_eq!(p.link_path, "/w/t/debug/libgame.so");
    assert!(p.needs_relink());
}

#[test]
fn absolute_and_bare_crate_roots() {
    let abs = vec![step(StepKind::Compile, "rustc", &["/src/game/lib.rs"], &["out.so"], &[])];
    let p = derive_plan(&abs, &Vec::new(), "/").unwrap();
    assert_eq!(p.source_root, "/src/game");
    assert_eq!(p.link_path, "out.so");
    assert!(!p.needs_relink());
    let bare = vec![step(StepKind::Compile, "rustc", &["lib.rs"], &["out.so"], &[])];
    assert_eq!(derive_plan(&bare, &Vec::new(), "/").unwrap().source_root, "/w/game");
}

#[test]
fn no_plan_without_root_or_output() {
    let no_root = vec![step(StepKind::Compile, "rustc", &["--crate-name", "g"], &["out.so"], &[])];
    assert!(derive_plan(&no_root, &Vec::new(), "/").is_none());
    let no_output = vec![step(StepKind::Compile, "rustc", &["src/lib.rs"], &[], &[])];
    assert!(derive_plan(&no_output, &Vec::new(), "/").is_none());
    assert!(derive_plan(&Vec::new(), &Vec::new(), "/").is_none());
}

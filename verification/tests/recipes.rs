use std::path::PathBuf;

use git_release::ecosystem::recipes::cargo::RustEcosystem;
use git_release::ecosystem::recipes::composer::{ComposerEcosystem, PackageVersion};
use git_release::ecosystem::recipes::npm::{NpmLockfile, NpmRecipe};
use git_release::ecosystem::types::{CommandOutcome, ReleaseKind};
use git_release::errors::AppError;

fn names(v: &[&str]) -> Vec<String> {
    v.iter().map(|s| s.to_string()).collect()
}

#[test]
fn npm_reads_the_version_member() {
    let kind = ReleaseKind::Patch;
    let recipe = NpmRecipe::new(PathBuf::from("/tmp/p"), &kind);
    assert_eq!(recipe.get_directory(), &PathBuf::from("/tmp/p"));
    assert_eq!(*recipe.get_release_type(), ReleaseKind::Patch);
    assert_eq!(NpmRecipe::manifest_file_name(), "package.json");
    let text = r#"{ "name": "demo", "version": "1.4.2" }"#;
    assert_eq!(recipe.current_version_in("p/package.json", text), Ok("1.4.2".to_owned()));
}

#[test]
fn npm_version_errors_name_the_manifest() {
    let kind = ReleaseKind::Patch;
    let recipe = NpmRecipe::new(PathBuf::from("."), &kind);
    match recipe.current_version_in("p/package.json", "{ not json") {
        Err(AppError::ParseFile { path, reason }) => {
            assert_eq!(path, "p/package.json");
            assert!(!reason.is_empty());
        }
        other => panic!("unexpected: {:?}", other),
    }
    let missing = AppError::MissingField { field: "version".to_owned(), path: "p/package.json".to_owned() };
    assert_eq!(recipe.current_version_in("p/package.json", r#"{ "name": "demo" }"#), Err(missing));
    let numeric = recipe.current_version_in("p/package.json", r#"{ "version": 3 }"#);
    assert!(matches!(numeric, Err(AppError::MissingField { .. })));
    let array = recipe.current_version_in("p/package.json", r#"["1.0.0"]"#);
    assert!(matches!(array, Err(AppError::MissingField { .. })));
}

#[test]
fn npm_bump_rewrites_the_version() {
    let kind = ReleaseKind::Minor;
    let recipe = NpmRecipe::new(PathBuf::from("."), &kind);
    let text = "{\"version\":\"0.3.7\",\"name\":\"demo\"}";
    let (next, out) = recipe.bump_manifest("package.json", text).unwrap();
    assert_eq!(next, "0.4.0");
    assert_eq!(out, "{\"version\":\"0.4.0\",\"name\":\"demo\"}");
    // The rewritten manifest reads back with the new version.
    assert_eq!(recipe.current_version_in("package.json", &out), Ok("0.4.0".to_owned()));
    assert!(matches!(
        recipe.bump_manifest("package.json", "{}"),
        Err(AppError::MissingField { .. })
    ));
}

#[test]
fn npm_bump_refuses_an_overflowing_version() {
    let kind = ReleaseKind::Major;
    let recipe = NpmRecipe::new(PathBuf::from("."), &kind);
    let text = r#"{"version":"4294967295.1.1"}"#;
    assert!(recipe.bump_would_overflow(text));
    assert!(recipe.try_bump_manifest("package.json", text).is_none());
    let ok = recipe.try_bump_manifest("package.json", r#"{"version":"1.1.1"}"#);
    assert_eq!(ok.unwrap().unwrap().0, "2.0.0");
}

#[test]
fn npm_lockfile_priority() {
    assert_eq!(NpmLockfile::detect(&names(&["yarn.lock", "package-lock.json", "pnpm-lock.yaml"])), Some(NpmLockfile::Pnpm));
    assert_eq!(NpmLockfile::detect(&names(&["yarn.lock", "package-lock.json"])), Some(NpmLockfile::Npm));
    assert_eq!(NpmLockfile::detect(&names(&["src", "yarn.lock"])), Some(NpmLockfile::Yarn));
    assert_eq!(NpmLockfile::detect(&names(&["package.json", "README.md"])), None);
    assert_eq!(NpmLockfile::detect(&names(&[])), None);
}

#[test]
fn npm_lockfile_commands() {
    assert_eq!(NpmLockfile::Pnpm.program(), "pnpm");
    assert_eq!(NpmLockfile::Pnpm.args(), names(&["install", "--lockfile-only"]));
    assert_eq!(NpmLockfile::Npm.args(), names(&["install", "--package-lock-only"]));
    assert_eq!(NpmLockfile::Yarn.args(), names(&["install", "--pure-lockfile", "--offline"]));
    assert_eq!(NpmLockfile::Yarn.command_line(), "yarn install --pure-lockfile --offline");
    assert_eq!(NpmLockfile::Npm.file_name(), "package-lock.json");
    assert_eq!(NpmRecipe::staged_files(Some(NpmLockfile::Yarn)), names(&["package.json", "yarn.lock"]));
    assert_eq!(NpmRecipe::staged_files(None), names(&["package.json"]));
}

#[test]
fn npm_lockfile_outcomes() {
    let ok = CommandOutcome::Exited { success: true, status: "exit status: 0".to_owned() };
    assert_eq!(NpmLockfile::Pnpm.check_outcome(ok), Ok(()));
    let failed = CommandOutcome::Exited { success: false, status: "exit status: 1".to_owned() };
    assert_eq!(
        NpmLockfile::Pnpm.check_outcome(failed),
        Err(AppError::CommandFailed {
            cmd: "pnpm install --lockfile-only".to_owned(),
            reason: "exited with status exit status: 1".to_owned(),
        })
    );
    let spawn = CommandOutcome::SpawnFailed("No such file or directory".to_owned());
    assert_eq!(
        NpmLockfile::Npm.check_outcome(spawn),
        Err(AppError::CommandFailed {
            cmd: "npm install --package-lock-only".to_owned(),
            reason: "No such file or directory".to_owned(),
        })
    );
}

#[test]
fn cargo_reads_and_bumps_package_version() {
    let kind = ReleaseKind::Patch;
    let recipe = RustEcosystem::new(PathBuf::from("."), &kind);
    assert_eq!(RustEcosystem::manifest_file_name(), "Cargo.toml");
    let text = "# the manifest\n[package]\nname = \"demo\"  # keep\nversion = \"0.9.3\"\n\n[dependencies]\nserde = \"1\"\n";
    assert_eq!(recipe.current_version_in("Cargo.toml", text), Ok("0.9.3".to_owned()));
    let (next, out) = recipe.bump_manifest("Cargo.toml", text).unwrap();
    assert_eq!(next, "0.9.4");
    assert_eq!(out, "# the manifest\n[package]\nname = \"demo\"  # keep\nversion = \"0.9.4\"\n\n[dependencies]\nserde = \"1\"\n");
    assert_eq!(recipe.current_version_in("Cargo.toml", &out), Ok("0.9.4".to_owned()));
}

#[test]
fn cargo_inline_package_table() {
    let kind = ReleaseKind::Major;
    let recipe = RustEcosystem::new(PathBuf::from("."), &kind);
    let text = "package = { name = \"demo\", version = \"1.2.3\" }\n";
    let (next, out) = recipe.bump_manifest("Cargo.toml", text).unwrap();
    assert_eq!(next, "2.0.0");
    assert_eq!(recipe.current_version_in("Cargo.toml", &out), Ok("2.0.0".to_owned()));
}

#[test]
fn cargo_errors() {
    let kind = ReleaseKind::Patch;
    let recipe = RustEcosystem::new(PathBuf::from("."), &kind);
    assert!(matches!(recipe.current_version_in("Cargo.toml", "[package"), Err(AppError::ParseFile { .. })));
    assert_eq!(
        recipe.current_version_in("Cargo.toml", "[workspace]\n"),
        Err(AppError::MissingField { field: "package.version".to_owned(), path: "Cargo.toml".to_owned() })
    );
    assert!(matches!(
        recipe.current_version_in("Cargo.toml", "[package]\nversion = 1\n"),
        Err(AppError::MissingField { .. })
    ));
    assert!(recipe.try_bump_manifest("Cargo.toml", "[package]\nversion = \"1.2.4294967295\"\n").is_none());
}

#[test]
fn cargo_sync_ignores_the_exit_status() {
    assert_eq!(RustEcosystem::sync_program(), "cargo");
    assert_eq!(RustEcosystem::sync_args(), names(&["check", "--workspace"]));
    let failed = CommandOutcome::Exited { success: false, status: "exit status: 101".to_owned() };
    assert_eq!(RustEcosystem::sync_result(failed), Ok(names(&["Cargo.toml", "Cargo.lock"])));
    let spawn = CommandOutcome::SpawnFailed("not found".to_owned());
    assert_eq!(
        RustEcosystem::sync_result(spawn),
        Err(AppError::CommandFailed { cmd: "cargo check --workspace".to_owned(), reason: "not found".to_owned() })
    );
}

#[test]
fn composer_reads_the_version_field() {
    let kind = ReleaseKind::Patch;
    let recipe = ComposerEcosystem::new(PathBuf::from("php"), &kind);
    assert_eq!(recipe.get_directory(), &PathBuf::from("php"));
    assert_eq!(ComposerEcosystem::manifest_file_name(), "composer.json");
    let package = PackageVersion { version: "5.0.1".to_owned() };
    assert_eq!(ComposerEcosystem::current_version_of(package), "5.0.1");
}

#[test]
fn npm_bump_keeps_the_manifest_formatting() {
    let kind = ReleaseKind::Patch;
    let recipe = NpmRecipe::new(PathBuf::from("."), &kind);
    let text = "{\n    \"name\": \"demo\",\n    \"description\": \"1.2.3 of demo\",\n    \"version\" :  \"1.2.3\",\n    \"scripts\": {\"build\": \"tsc\"}\n}\n";
    let (next, out) = recipe.bump_manifest("package.json", text).unwrap();
    assert_eq!(next, "1.2.4");
    assert_eq!(out, text.replace("\"1.2.3\",", "\"1.2.4\","));
}

#[test]
fn npm_bump_pretty_prints_when_the_version_text_is_not_found() {
    let kind = ReleaseKind::Patch;
    let recipe = NpmRecipe::new(PathBuf::from("."), &kind);
    // The member name is written with an escape, so the text pattern does not
    // match; the edited document is pretty-printed instead.
    let text = r#"{"b":1,"vers\u0069on":"1.0.0"}"#;
    let (next, out) = recipe.bump_manifest("package.json", text).unwrap();
    assert_eq!(next, "1.0.1");
    assert_eq!(out, "{\n  \"b\": 1,\n  \"version\": \"1.0.1\"\n}");
}

#[test]
fn npm_bump_finds_the_top_level_version() {
    let kind = ReleaseKind::Patch;
    let recipe = NpmRecipe::new(PathBuf::from("."), &kind);
    // A nested "version" with the same value comes first; only the
    // top-level one is replaced.
    let text = r#"{"a":{"version":"1.0.0"},"version":"1.0.0"}"#;
    let (next, out) = recipe.bump_manifest("package.json", text).unwrap();
    assert_eq!(next, "1.0.1");
    assert_eq!(out, r#"{"a":{"version":"1.0.0"},"version":"1.0.1"}"#);
    // Text inside strings does not count: neither braces nor quoted patterns.
    let text = "{\"d\": \"} \\\"version\\\": \\\"3.1.4\\\" {\", \"version\": \"3.1.4\", \"n\": [1.5, {\"version\": \"3.1.4\"}]}";
    let (_, out) = recipe.bump_manifest("package.json", text).unwrap();
    assert_eq!(out, text.replace("\"version\": \"3.1.4\", \"n\"", "\"version\": \"3.1.5\", \"n\""));
    // Of repeated members the last one counts, as for the JSON reader.
    let text = r#"{"version":"0.0.9","version":"0.1.0"}"#;
    let (next, out) = recipe.bump_manifest("package.json", text).unwrap();
    assert_eq!(next, "0.1.1");
    assert_eq!(out, r#"{"version":"0.0.9","version":"0.1.1"}"#);
}

#[test]
fn npm_pretty_fallback_keeps_every_value() {
    let kind = ReleaseKind::Minor;
    let recipe = NpmRecipe::new(PathBuf::from("."), &kind);
    let text = r#"{"version":"1.0.0","f":0.1,"g":1e-7,"big":18446744073709551615,"t":true,"x":null,"arr":[1,[2,{"k":"v"}]]}"#;
    let (next, out) = recipe.bump_manifest("package.json", text).unwrap();
    assert_eq!(next, "1.1.0");
    let mut before: serde_json::Value = serde_json::from_str(text).unwrap();
    before["version"] = serde_json::Value::String("1.1.0".to_owned());
    let after: serde_json::Value = serde_json::from_str(&out).unwrap();
    assert_eq!(before, after);
}

#[test]
fn next_version_in_reads_then_bumps() {
    let kind = ReleaseKind::Minor;
    let npm = NpmRecipe::new(PathBuf::from("."), &kind);
    assert_eq!(npm.try_next_version_in("package.json", r#"{"version":"1.9.3"}"#), Some(Ok("1.10.0".to_owned())));
    assert!(matches!(npm.try_next_version_in("package.json", "{}"), Some(Err(AppError::MissingField { .. }))));
    assert_eq!(npm.try_next_version_in("package.json", r#"{"version":"1.4294967295.0"}"#), None);
    let cargo = RustEcosystem::new(PathBuf::from("."), &kind);
    assert_eq!(cargo.try_next_version_in("Cargo.toml", "[package]\nversion = \"0.1.0\"\n"), Some(Ok("0.2.0".to_owned())));
}

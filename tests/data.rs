use fsm::commands::{Run, Shell};
use fsm::data::DependencyRegistryLanguageData;

#[test]
fn insert_replaces_an_existing_table() {
    let mut l = DependencyRegistryLanguageData::new();
    assert_eq!(l.len(), 0);
    l.insert(String::from("rust"), String::from("{}"));
    l.insert(String::from("python"), String::from("{\"x\":1}"));
    l.insert(String::from("rust"), String::from("{\"y\":2}"));
    assert_eq!(l.len(), 2);
    let (n, t) = l.entry(0);
    assert_eq!((n.as_str(), t.as_str()), ("rust", "{\"y\":2}"));
    let (n, t) = l.entry(1);
    assert_eq!((n.as_str(), t.as_str()), ("python", "{\"x\":1}"));
}

#[test]
fn get_finds_only_present_languages() {
    let mut l = DependencyRegistryLanguageData::new();
    assert!(l.get("rust").is_none());
    l.insert(String::from("rust"), String::from("{}"));
    assert_eq!(l.get("rust").map(|s| s.as_str()), Some("{}"));
    assert!(l.get("rus").is_none());
    assert!(l.get("").is_none());
}

#[test]
fn shell_enters_the_flake() {
    let shell = Shell { project_dir: None, disable_telemetry: true, offline: true };
    assert_eq!(
        shell.nix_develop_args("/tmp/flake"),
        vec![
            "develop",
            "--extra-experimental-features",
            "flakes nix-command",
            "-L",
            "path:///tmp/flake",
        ]
    );
}

#[test]
fn run_appends_the_command() {
    let run = Run {
        project_dir: Some(String::from("/src/p")),
        command: vec![String::from("sh"), String::from("-c"), String::from("exit 6")],
        disable_telemetry: true,
        offline: true,
    };
    assert_eq!(
        run.nix_develop_args("/f"),
        vec![
            "develop",
            "--extra-experimental-features",
            "flakes nix-command",
            "-L",
            "path:///f",
            "-c",
            "sh",
            "-c",
            "exit 6",
        ]
    );
}

#[test]
fn default_snapshot_is_version_zero_and_empty() {
    let d = fsm::data::DependencyRegistryData::default();
    assert_eq!(d.version, 0);
    assert_eq!(d.languages.len(), 0);
    assert_eq!(DependencyRegistryLanguageData::default().len(), 0);
}

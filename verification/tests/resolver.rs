use shell_core::resolver::{resolve, Candidate, PathFacts};

fn facts(exists: bool, is_file: bool, is_dir: bool, mode: u32) -> PathFacts {
    PathFacts { exists, is_file, is_dir, mode }
}

fn candidate(path: &str, facts: PathFacts) -> Candidate {
    Candidate { path: path.to_string(), facts }
}

#[test]
fn earliest_directory_wins() {
    let candidates = vec![
        candidate("/usr/local/bin/tool", facts(true, true, false, 0o755)),
        candidate("/usr/bin/tool", facts(true, true, false, 0o755)),
    ];
    assert_eq!(resolve(&candidates), Some(0));
}

#[test]
fn candidates_that_do_not_qualify_are_passed_over() {
    let candidates = vec![
        candidate("/a/tool", facts(false, false, false, 0)),
        candidate("/b/tool", facts(true, false, true, 0o755)),
        candidate("/c/tool", facts(true, true, false, 0o644)),
        candidate("/d/tool", facts(true, true, false, 0o700)),
        candidate("/e/tool", facts(true, true, false, 0o755)),
    ];
    assert_eq!(resolve(&candidates), Some(3));
}

#[test]
fn nothing_found() {
    assert_eq!(resolve(&vec![]), None);
    let candidates = vec![
        candidate("/a/tool", facts(false, false, false, 0)),
        candidate("/b/tool", facts(true, true, false, 0o600)),
    ];
    assert_eq!(resolve(&candidates), None);
}

#[test]
fn any_executable_bit_is_enough() {
    assert!(facts(true, true, false, 0o100).executable_file());
    assert!(facts(true, true, false, 0o010).executable_file());
    assert!(facts(true, true, false, 0o001).executable_file());
    assert!(facts(true, true, false, 0o100644 | 0o001).executable_file());
    assert!(!facts(true, true, false, 0o666).executable_file());
    assert!(!facts(true, true, false, 0o100644).executable_file());
    assert!(!facts(true, false, true, 0o777).executable_file());
    assert!(!facts(false, true, false, 0o777).executable_file());
}

#[test]
fn directory_must_exist() {
    assert!(facts(true, false, true, 0o755).directory());
    assert!(!facts(true, true, false, 0o755).directory());
    assert!(!facts(false, false, true, 0o755).directory());
}

use gitdl::errors::DlError;
use gitdl::identity::{resolve, resolve_from_parts, strip_repo_suffix};

#[test]
fn resolve_github_url() {
    let r = resolve("https://github.com/owner/proj", String::from("HEAD"));
    match r {
        Ok(id) => {
            assert_eq!(id.owner, "owner");
            assert_eq!(id.project, "proj");
            assert_eq!(id.revision, "HEAD");
        }
        Err(_) => panic!("expected a resolved identity"),
    }
}

#[test]
fn resolve_strips_git_suffix() {
    let r = resolve("https://github.com/owner/proj.git", String::from("main"));
    match r {
        Ok(id) => {
            assert_eq!(id.owner, "owner");
            assert_eq!(id.project, "proj");
        }
        Err(_) => panic!("expected a resolved identity"),
    }
}

#[test]
fn resolve_ignores_extra_segments() {
    let r = resolve("https://github.com/owner/proj/tree/main/src", String::from("HEAD"));
    match r {
        Ok(id) => {
            assert_eq!(id.owner, "owner");
            assert_eq!(id.project, "proj");
        }
        Err(_) => panic!("expected a resolved identity"),
    }
}

#[test]
fn resolve_rejects_untrusted_host() {
    let r = resolve("https://gitlab.com/owner/proj", String::from("HEAD"));
    match r {
        Ok(_) => panic!("an untrusted host must not resolve"),
        Err(e) => assert_eq!(e, DlError::InvalidUrl),
    }
}

#[test]
fn resolve_rejects_unparseable_text() {
    let r = resolve("not a url at all", String::from("HEAD"));
    match r {
        Ok(_) => panic!("unparseable text must not resolve"),
        Err(e) => assert_eq!(e, DlError::InvalidUrl),
    }
}

#[test]
fn resolve_rejects_missing_segments() {
    let r = resolve("https://github.com", String::from("HEAD"));
    assert!(r.is_err());
    let r = resolve("https://github.com/owneronly", String::from("HEAD"));
    assert!(r.is_err());
}

#[test]
fn resolve_from_parts_checks_host() {
    let segments = vec![String::from("o"), String::from("p")];
    assert!(resolve_from_parts("github.com", &segments, String::from("HEAD")).is_ok());
    let r = resolve_from_parts("example.org", &segments, String::from("HEAD"));
    match r {
        Ok(_) => panic!("an untrusted host must not resolve"),
        Err(e) => assert_eq!(e, DlError::InvalidUrl),
    }
}

#[test]
fn resolve_from_parts_rejects_empty_segments() {
    let segments = vec![String::from(""), String::from("p")];
    assert!(resolve_from_parts("github.com", &segments, String::from("HEAD")).is_err());
    let segments = vec![String::from("o"), String::from("")];
    assert!(resolve_from_parts("github.com", &segments, String::from("HEAD")).is_err());
}

#[test]
fn strip_repo_suffix_only_at_end() {
    assert_eq!(strip_repo_suffix("proj.git"), "proj");
    assert_eq!(strip_repo_suffix("proj"), "proj");
    assert_eq!(strip_repo_suffix("pro.git.x"), "pro.git.x");
    assert_eq!(strip_repo_suffix("git"), "git");
}

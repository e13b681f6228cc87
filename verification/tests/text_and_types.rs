use repoconf::errors::DirectoryAlreadyExists;
use repoconf::errors::RepositoryAlreadyExists;
use repoconf::errors::RepositoryNotCleanError;
use repoconf::merge::is_clean_status;
use repoconf::text::last_path_segment;
use repoconf::text::split_lines;
use repoconf::text::str_starts_with;
use repoconf::validation::Strip;
use repoconf::validation::WithEmptyFirstCommit;
use repoconf::validation::WithEmptyFirstCommitLike;
use repoconf::visibility::Visibility;

#[test]
fn split_lines_handles_plain_newlines() {
    assert_eq!(split_lines("a\nb\nc"), vec!["a", "b", "c"]);
}

#[test]
fn split_lines_drops_a_final_newline() {
    assert_eq!(split_lines("origin\nrepoconf-base\n"), vec!["origin", "repoconf-base"]);
}

#[test]
fn split_lines_strips_carriage_returns_before_newlines() {
    assert_eq!(split_lines("a\r\nb\r\n"), vec!["a", "b"]);
    // A carriage return not followed by a newline stays.
    assert_eq!(split_lines("a\r"), vec!["a\r"]);
}

#[test]
fn split_lines_keeps_inner_empty_lines() {
    assert_eq!(split_lines("a\n\nb"), vec!["a", "", "b"]);
}

#[test]
fn split_lines_of_empty_output_is_empty() {
    assert_eq!(split_lines(""), Vec::<String>::new());
    assert_eq!(split_lines("\n"), vec![""]);
}

#[test]
fn starts_with_checks_a_real_prefix() {
    assert!(str_starts_with("repoconf-base", "repoconf"));
    assert!(str_starts_with("anything", ""));
    assert!(!str_starts_with("repo", "repoconf"));
    assert!(!str_starts_with("xrepoconf", "repoconf"));
}

#[test]
fn last_path_segment_takes_what_follows_the_last_slash() {
    assert_eq!(last_path_segment("owner/template-repo"), "template-repo");
    assert_eq!(last_path_segment("/a/b/c"), "c");
    assert_eq!(last_path_segment("plain"), "plain");
    assert_eq!(last_path_segment("trailing/"), "");
    assert_eq!(last_path_segment(""), "");
}

#[test]
fn empty_status_output_means_clean() {
    assert!(is_clean_status(""));
    assert!(!is_clean_status(" M src/lib.rs\n"));
    assert!(!is_clean_status("?? junk\n"));
}

#[test]
fn visibility_arguments_are_the_gh_flags() {
    assert_eq!(Visibility::Public.as_arg(), "--public");
    assert_eq!(Visibility::Private.as_arg(), "--private");
}

#[test]
fn visibility_defaults_to_private() {
    assert_eq!(Visibility::default(), Visibility::Private);
}

#[test]
fn validation_succeeds_only_on_a_checked_empty_first_commit() {
    let ok = WithEmptyFirstCommit::new("repo-a".to_string(), true);
    match ok {
        Ok(w) => assert_eq!(w.value(), "repo-a"),
        Err(_) => panic!("a checked value should wrap"),
    }
    let err = WithEmptyFirstCommit::new("repo-b".to_string(), false);
    match err {
        Ok(_) => panic!("an unchecked value should not wrap"),
        Err(w) => assert_eq!(w.value(), "repo-b"),
    }
}

#[test]
fn strip_returns_the_underlying_value() {
    assert_eq!("path".to_string().strip(), "path");
    let w = WithEmptyFirstCommit::new("repo".to_string(), true).unwrap();
    assert_eq!(w.strip(), "repo");
}

#[test]
fn validated_wrappers_convert_to_themselves() {
    let w = WithEmptyFirstCommit::new("repo".to_string(), true).unwrap();
    assert_eq!(w.to_ref().value(), "repo");
    let w = w.to_own();
    assert_eq!(w.value(), "repo");
}

#[test]
fn error_constructors_carry_their_fields() {
    let e = RepositoryAlreadyExists::new("owner".to_string(), "repo".to_string());
    assert_eq!(e.owner, "owner");
    assert_eq!(e.name, "repo");
    let e = DirectoryAlreadyExists::new("some/dir".to_string());
    assert_eq!(e.dir, "some/dir");
    assert_eq!(RepositoryNotCleanError::new(), RepositoryNotCleanError {});
}

use wakatime_bot::adapter::git_adapter::{StepOutcome, UploadStep, STATUS_CURRENT};
use wakatime_bot::adapter::GitAdapter;
use wakatime_bot::application::config::GitConfig;
use wakatime_bot::error::{Error, Marker};

fn settings(begin: &str, end: &str) -> GitConfig {
    GitConfig {
        token: String::from("SECRET-REDACTED"),
        base_url: String::from("https://github.com/"),
        repository: String::from("octocat/octocat"),
        branch_name: String::from("main"),
        file_path: String::from("README.md"),
        begin_block: String::from(begin),
        end_block: String::from(end),
        author_name: String::from("Octo Cat"),
        author_email: String::from("octocat@example.com"),
        committer_name: String::from("Robot"),
        committer_email: String::from("robot@example.com"),
        commit_message: String::from("Update statistics"),
    }
}

fn publisher() -> GitAdapter {
    GitAdapter::new(settings("<!--START-->", "<!--END-->"))
}

#[test]
fn report_replaces_the_region() {
    let content = "# Title\n<!--START-->old text<!--END-->\nfooter\n";
    assert_eq!(
        publisher().insert_metrics(content, "\nnew\n"),
        Ok(String::from("# Title\n<!--START-->\nnew\n<!--END-->\nfooter\n"))
    );
}

#[test]
fn region_runs_from_the_first_begin_to_the_last_end() {
    let content = "a<!--START-->b<!--START-->c<!--END-->d<!--END-->e";
    assert_eq!(
        publisher().insert_metrics(content, "X"),
        Ok(String::from("a<!--START-->X<!--END-->e"))
    );
}

#[test]
fn region_may_hold_an_end_marker_before_its_begin() {
    let content = "<!--END-->a<!--START-->b<!--END-->";
    assert_eq!(
        publisher().insert_metrics(content, "X"),
        Ok(String::from("<!--END-->a<!--START-->X<!--END-->"))
    );
}

#[test]
fn report_may_be_empty() {
    let content = "<!--START-->old<!--END-->";
    assert_eq!(
        publisher().insert_metrics(content, ""),
        Ok(String::from("<!--START--><!--END-->"))
    );
}

#[test]
fn missing_begin_marker_is_reported() {
    assert_eq!(
        publisher().insert_metrics("no markers at all", "X"),
        Err(Error::RegionNotFound(Marker::Begin))
    );
    assert_eq!(
        publisher().insert_metrics("only <!--END--> here", "X"),
        Err(Error::RegionNotFound(Marker::Begin))
    );
    assert_eq!(publisher().insert_metrics("", "X"), Err(Error::RegionNotFound(Marker::Begin)));
}

#[test]
fn missing_end_marker_is_reported() {
    assert_eq!(
        publisher().insert_metrics("only <!--START--> here", "X"),
        Err(Error::RegionNotFound(Marker::End))
    );
    assert_eq!(
        publisher().insert_metrics("<!--START--> <!--END-- >", "X"),
        Err(Error::RegionNotFound(Marker::End))
    );
}

#[test]
fn empty_region_is_refused() {
    assert_eq!(
        publisher().insert_metrics("a<!--START--><!--END-->b", "X"),
        Err(Error::InvalidRegion)
    );
}

#[test]
fn reversed_region_is_refused() {
    assert_eq!(
        publisher().insert_metrics("<!--END--> then <!--START-->", "X"),
        Err(Error::InvalidRegion)
    );
}

#[test]
fn overlapping_markers_are_refused() {
    let adapter = GitAdapter::new(settings("<!--", "-->"));
    assert_eq!(adapter.insert_metrics("<!-->", "X"), Err(Error::InvalidRegion));
    assert_eq!(adapter.insert_metrics("<!---->", "X"), Err(Error::InvalidRegion));
    assert_eq!(adapter.insert_metrics("<!-- -->", "X"), Ok(String::from("<!--X-->")));
}

#[test]
fn same_marker_at_both_ends() {
    let adapter = GitAdapter::new(settings("|", "|"));
    assert_eq!(adapter.insert_metrics("a|b|c", "X"), Ok(String::from("a|X|c")));
    assert_eq!(adapter.insert_metrics("a|b", "X"), Err(Error::InvalidRegion));
    assert_eq!(adapter.insert_metrics("a||b", "X"), Err(Error::InvalidRegion));
    assert_eq!(adapter.insert_metrics("a|b|c|d", "X"), Ok(String::from("a|X|d")));
}

#[test]
fn empty_markers_stand_at_the_ends_of_the_file() {
    let adapter = GitAdapter::new(settings("", ""));
    assert_eq!(adapter.insert_metrics("abc", "X"), Ok(String::from("X")));
    assert_eq!(adapter.insert_metrics("", "X"), Err(Error::InvalidRegion));
}

#[test]
fn region_is_found_among_wide_characters() {
    let adapter = GitAdapter::new(settings("«début»", "«fin»"));
    let content = "héllo «début»vieux «fin» wörld «fin»…";
    assert_eq!(
        adapter.insert_metrics(content, "░▒▓█"),
        Ok(String::from("héllo «début»░▒▓█«fin»…"))
    );
}

#[test]
fn same_report_leaves_the_file_as_it_is() {
    let content = "# Title\n<!--START-->\n```text\nRust 2 hrs\n```\n<!--END-->\nfooter\n";
    assert_eq!(
        publisher().insert_metrics(content, "\n```text\nRust 2 hrs\n```\n"),
        Ok(String::from(content))
    );
}

#[test]
fn publishing_twice_is_publishing_once() {
    let content = "a<!--START-->b<!--START-->c<!--END-->d<!--END-->e";
    let once = publisher().insert_metrics(content, "report").unwrap();
    let twice = publisher().insert_metrics(&once, "report").unwrap();
    assert_eq!(once, twice);
    assert_eq!(once, "a<!--START-->report<!--END-->e");
}

#[test]
fn clone_address_is_the_repository_under_the_base() {
    assert_eq!(publisher().remote_url(), Ok(String::from("https://github.com/octocat/octocat")));
    let mut nested = settings("", "");
    nested.base_url = String::from("https://git.example.com/team/");
    nested.repository = String::from("tools/stats.git");
    assert_eq!(
        GitAdapter::new(nested).remote_url(),
        Ok(String::from("https://git.example.com/team/tools/stats.git"))
    );
}

#[test]
fn clone_address_may_be_given_in_full() {
    let mut full = settings("", "");
    full.repository = String::from("https://gitlab.com/octocat/stats.git");
    assert_eq!(
        GitAdapter::new(full).remote_url(),
        Ok(String::from("https://gitlab.com/octocat/stats.git"))
    );
}

#[test]
fn clone_address_needs_an_absolute_base() {
    let mut relative = settings("", "");
    relative.base_url = String::from("github.com");
    assert_eq!(GitAdapter::new(relative).remote_url(), Err(Error::GitOperationFailed));
    let mut empty = settings("", "");
    empty.base_url = String::new();
    assert_eq!(GitAdapter::new(empty).remote_url(), Err(Error::GitOperationFailed));
}

#[test]
fn pushed_reference_is_that_of_the_branch() {
    assert_eq!(publisher().push_refspec(), "refs/heads/main");
    let mut other = settings("", "");
    other.branch_name = String::from("gh-pages");
    assert_eq!(GitAdapter::new(other).push_refspec(), "refs/heads/gh-pages");
}

#[test]
fn remote_is_approached_as_the_author_with_the_token() {
    let (username, password) = publisher().credentials();
    assert_eq!(username, "Octo Cat");
    assert_eq!(password, "SECRET-REDACTED");
}

#[test]
fn adapter_hands_out_its_settings() {
    let adapter = publisher();
    assert_eq!(adapter.cfg().file_path, "README.md");
    assert_eq!(adapter.cfg().author_name, "Octo Cat");
    assert_eq!(adapter.cfg().commit_message, "Update statistics");
}

#[test]
fn tree_differs_where_a_file_is_not_current() {
    let adapter = publisher();
    assert!(!adapter.has_changes(&[]));
    assert!(!adapter.has_changes(&[STATUS_CURRENT]));
    assert!(!adapter.has_changes(&[0, 0, 0]));
    assert!(adapter.has_changes(&[256]));
    assert!(adapter.has_changes(&[0, 0, 128]));
    assert!(adapter.has_changes(&[1, 0, 0]));
    assert!(adapter.has_changes(&[u32::MAX]));
}

#[test]
fn publishing_with_changes_commits_and_pushes() {
    let adapter = publisher();
    let mut step = adapter.first_step();
    assert_eq!(step, UploadStep::DownloadRepo);
    let mut taken: Vec<UploadStep> = vec![step];
    loop {
        let outcome = match step {
            UploadStep::HasChanges => StepOutcome::Compared { differs: true },
            _ => StepOutcome::Completed,
        };
        match adapter.next_step(step, outcome) {
            Ok(Some(next)) => {
                step = next;
                taken.push(next);
            }
            Ok(None) => break,
            Err(error) => panic!("{:?}", error),
        }
    }
    assert_eq!(
        taken,
        vec![
            UploadStep::DownloadRepo,
            UploadStep::InsertMetrics,
            UploadStep::HasChanges,
            UploadStep::MakeCommit,
            UploadStep::PushBranchToRemote,
        ]
    );
}

#[test]
fn publishing_without_changes_makes_no_commit() {
    let adapter = publisher();
    assert_eq!(
        adapter.next_step(UploadStep::HasChanges, StepOutcome::Compared { differs: false }),
        Ok(None)
    );
    assert_eq!(
        adapter.next_step(UploadStep::HasChanges, StepOutcome::Compared { differs: true }),
        Ok(Some(UploadStep::MakeCommit))
    );
}

#[test]
fn failed_step_aborts_with_its_error() {
    let adapter = publisher();
    let steps = [
        UploadStep::DownloadRepo,
        UploadStep::InsertMetrics,
        UploadStep::HasChanges,
        UploadStep::MakeCommit,
        UploadStep::PushBranchToRemote,
    ];
    for step in steps {
        assert_eq!(
            adapter.next_step(step, StepOutcome::Failed(Error::GitOperationFailed)),
            Err(Error::GitOperationFailed)
        );
        assert_eq!(
            adapter.next_step(step, StepOutcome::Failed(Error::InvalidRegion)),
            Err(Error::InvalidRegion)
        );
    }
}

#[test]
fn outcome_of_another_step_aborts() {
    let adapter = publisher();
    assert_eq!(
        adapter.next_step(UploadStep::HasChanges, StepOutcome::Completed),
        Err(Error::GitOperationFailed)
    );
    for step in [
        UploadStep::DownloadRepo,
        UploadStep::InsertMetrics,
        UploadStep::MakeCommit,
        UploadStep::PushBranchToRemote,
    ] {
        assert_eq!(
            adapter.next_step(step, StepOutcome::Compared { differs: true }),
            Err(Error::GitOperationFailed)
        );
        assert_eq!(
            adapter.next_step(step, StepOutcome::Compared { differs: false }),
            Err(Error::GitOperationFailed)
        );
    }
}

#[test]
fn push_follows_only_a_commit() {
    let adapter = publisher();
    assert_eq!(
        adapter.next_step(UploadStep::MakeCommit, StepOutcome::Completed),
        Ok(Some(UploadStep::PushBranchToRemote))
    );
    assert_eq!(adapter.next_step(UploadStep::PushBranchToRemote, StepOutcome::Completed), Ok(None));
    assert_eq!(
        adapter.next_step(UploadStep::DownloadRepo, StepOutcome::Completed),
        Ok(Some(UploadStep::InsertMetrics))
    );
    assert_eq!(
        adapter.next_step(UploadStep::InsertMetrics, StepOutcome::Completed),
        Ok(Some(UploadStep::HasChanges))
    );
}

use tlt::commands::{
    branch, pull_request, update, BranchState, GitAction, GitEvent, PullRequestState,
    UpdateState,
};
use tlt::error::Error;

fn s(x: &str) -> String {
    x.to_string()
}

#[test]
fn update_on_feature_branch_already_up_to_date() {
    // The scenario: HEAD is already an ancestor of the upstream
    // tracking ref, so the fork is not pushed; the original branch is
    // restored at the end and the informational note appears once.
    let mut notes: Vec<String> = Vec::new();
    let (st, a) = update(UpdateState::Start, GitEvent::Begin);
    assert_eq!(a, GitAction::CaptureCurrentBranch);
    assert_eq!(a.argv(), vec![s("branch"), s("--show-current")]);

    let (st, a) = update(st, GitEvent::Captured(s("feature")));
    assert_eq!(a, GitAction::Checkout { branch: s("main") });
    assert_eq!(a.argv(), vec![s("checkout"), s("main")]);

    let (st, a) = update(st, GitEvent::Ran);
    assert_eq!(a, GitAction::Pull);
    assert_eq!(a.argv(), vec![s("pull"), s("upstream"), s("main")]);

    let (st, a) = update(st, GitEvent::Ran);
    assert_eq!(a, GitAction::CheckIsAncestor);
    assert_eq!(
        a.argv(),
        vec![s("merge-base"), s("--is-ancestor"), s("HEAD"), s("@{u}")],
    );

    let (st, a) = update(st, GitEvent::Checked(true));
    match &a {
        GitAction::Note { text } => notes.push(text.clone()),
        other => panic!("expected a note, got {other:?}"),
    }

    let (st, a) = update(st, GitEvent::Ran);
    assert_eq!(a, GitAction::Checkout { branch: s("feature") });

    let (st, a) = update(st, GitEvent::Ran);
    assert_eq!(st, UpdateState::Done);
    assert_eq!(a, GitAction::Finished);

    assert_eq!(notes, vec![s("your fork is up to date, not pushing")]);
}

#[test]
fn update_on_main_pushes_when_behind() {
    let (st, a) = update(UpdateState::Start, GitEvent::Begin);
    assert_eq!(a, GitAction::CaptureCurrentBranch);

    // Already on main: no checkout, straight to the pull.
    let (st, a) = update(st, GitEvent::Captured(s("main")));
    assert_eq!(a, GitAction::Pull);

    let (st, a) = update(st, GitEvent::Ran);
    assert_eq!(a, GitAction::CheckIsAncestor);

    // Not an ancestor: push.
    let (st, a) = update(st, GitEvent::Checked(false));
    assert_eq!(a, GitAction::Push);
    assert_eq!(a.argv(), vec![s("push")]);

    // Original branch was main: nothing to restore.
    let (st, a) = update(st, GitEvent::Ran);
    assert_eq!(st, UpdateState::Done);
    assert_eq!(a, GitAction::Finished);
}

#[test]
fn pull_request_from_main_is_rejected() {
    let r = pull_request("user/tldr", PullRequestState::Start, GitEvent::Begin).unwrap();
    let (st, a) = r;
    assert_eq!(a, GitAction::CaptureCurrentBranch);
    let r = pull_request("user/tldr", st, GitEvent::Captured(s("main")));
    assert_eq!(
        r,
        Err(Error::Msg(s(
            "the 'main' branch is checked out. Switch branches using 'tlt branch' first.",
        ))),
    );
}

#[test]
fn pull_request_pushes_and_opens_compare_url() {
    let fork = "user/tldr";
    let (st, a) = pull_request(fork, PullRequestState::Start, GitEvent::Begin).unwrap();
    assert_eq!(a, GitAction::CaptureCurrentBranch);

    let (st, a) = pull_request(fork, st, GitEvent::Captured(s("fix-typo"))).unwrap();
    assert_eq!(a, GitAction::CheckIsAncestor);

    let (st, a) = pull_request(fork, st, GitEvent::Checked(false)).unwrap();
    assert_eq!(a, GitAction::PushSetUpstream { branch: s("fix-typo") });
    assert_eq!(
        a.argv(),
        vec![s("push"), s("-u"), s("origin"), s("fix-typo")],
    );

    let (st, a) = pull_request(fork, st, GitEvent::Ran).unwrap();
    assert_eq!(
        a,
        GitAction::OpenBrowser {
            url: s("https://github.com/tldr-pages/tldr/compare/main...user:tldr:fix-typo"),
        },
    );

    let (st, a) = pull_request(fork, st, GitEvent::Ran).unwrap();
    assert_eq!(st, PullRequestState::Done);
    assert_eq!(a, GitAction::Finished);
}

#[test]
fn pull_request_up_to_date_skips_push() {
    let fork = "user/tldr";
    let (st, _) = pull_request(fork, PullRequestState::Start, GitEvent::Begin).unwrap();
    let (st, _) = pull_request(fork, st, GitEvent::Captured(s("fix-typo"))).unwrap();
    let (st, a) = pull_request(fork, st, GitEvent::Checked(true)).unwrap();
    assert_eq!(a, GitAction::Note { text: s("origin is up to date, not pushing") });
    let (_, a) = pull_request(fork, st, GitEvent::Ran).unwrap();
    assert_eq!(
        a,
        GitAction::OpenBrowser {
            url: s("https://github.com/tldr-pages/tldr/compare/main...user:tldr:fix-typo"),
        },
    );
}

#[test]
fn branch_checks_out_existing_branch() {
    let (st, a) = branch("feature", BranchState::Start, GitEvent::Begin);
    assert_eq!(a, GitAction::CheckBranchExists { branch: s("feature") });
    assert_eq!(
        a.argv(),
        vec![s("show-ref"), s("--verify"), s("refs/heads/feature")],
    );

    let (st, a) = branch("feature", st, GitEvent::Checked(true));
    assert_eq!(
        a,
        GitAction::Note { text: s("branch 'feature' exists, checking it out...") },
    );

    let (st, a) = branch("feature", st, GitEvent::Ran);
    assert_eq!(a, GitAction::Checkout { branch: s("feature") });

    let (st, a) = branch("feature", st, GitEvent::Ran);
    assert_eq!(st, BranchState::Done);
    assert_eq!(a, GitAction::Finished);
}

#[test]
fn branch_creates_missing_branch() {
    let (st, a) = branch("new-work", BranchState::Start, GitEvent::Begin);
    assert_eq!(a, GitAction::CheckBranchExists { branch: s("new-work") });

    let (st, a) = branch("new-work", st, GitEvent::Checked(false));
    assert_eq!(
        a,
        GitAction::Note { text: s("branch 'new-work' does not exist, creating it...") },
    );

    let (st, a) = branch("new-work", st, GitEvent::Ran);
    assert_eq!(a, GitAction::CheckoutNew { branch: s("new-work") });
    assert_eq!(a.argv(), vec![s("checkout"), s("-b"), s("new-work")]);

    let (st, a) = branch("new-work", st, GitEvent::Ran);
    assert_eq!(st, BranchState::Done);
    assert_eq!(a, GitAction::Finished);
}

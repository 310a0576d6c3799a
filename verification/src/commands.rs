use vstd::prelude::*;
use crate::args::Platform;
use crate::error::Error;
use crate::text::{
    colonize, colonized, join_hyphen, joined, lowercase, lowered, replace_all, replaced,
    str_eq,
};
use crate::util::{existing_page_path, not_found_msg, page_path, page_path_spec, page_ref};
use vstd::string::StringExecFns;

verus! {

// ---------------------------------------------------------------------------
// Page lifecycle operations
// ---------------------------------------------------------------------------
// Each operation is a single-shot transaction: it is handed the result
// of the one filesystem existence check it depends on, and returns what
// to write and what to report.  The caller performs the check on the
// path the operation itself computes, then writes the file and opens
// the editor on success.
/// A page file to be created: where, with what contents, the status
/// message announcing it, and whether missing parent directories are
/// made first (an alias page may be the first page of a platform and
/// language pair; a fresh ordinary page may not).
#[derive(Debug, PartialEq, Eq)]
pub struct PageWrite {
    pub path: String,
    pub contents: String,
    pub note: String,
    pub creates_parent_dirs: bool,
}

/// The message rejecting the creation of a page that already exists.
pub open spec fn already_exists_msg(lang: Seq<char>, platform: Platform, page: Seq<char>) -> Seq<
    char,
> {
    "page '"@ + page_ref(lang, platform, page) + "' already exists"@
}

/// The message announcing the creation of a page.
pub open spec fn creating_page_msg(lang: Seq<char>, platform: Platform, page: Seq<char>) -> Seq<
    char,
> {
    "creating page '"@ + page_ref(lang, platform, page) + "'..."@
}

/// The generated contents of a fresh page: a title heading carrying
/// the page name as given, blank description lines, a "more
/// information" line built from the documentation link and the
/// language's boilerplate phrase, a blank example-description line,
/// and an empty double-backtick fence.
pub open spec fn page_template(
    page: Seq<char>,
    doc_url: Seq<char>,
    more_information: Seq<char>,
) -> Seq<char> {
    "# "@ + page + "\n\n>\n>\n> "@ + more_information + ": <"@ + doc_url + ">.\n\n-\n\n``\n"@
}

fn exists_error(language: &str, platform: &Platform, page: &str) -> (r: Error)
    ensures
        r matches Error::Msg(m) && m@ == already_exists_msg(language@, *platform, page@),
{
    let mut m = String::new();
    m.append("page '");
    m.append(language);
    m.append("/");
    m.append(platform.name());
    m.append("/");
    m.append(page);
    m.append("' already exists");
    proof {
        assert(m@ =~= already_exists_msg(language@, *platform, page@));
    }
    Error::Msg(m)
}

fn creating_note(language: &str, platform: &Platform, page: &str) -> (r: String)
    ensures
        r@ == creating_page_msg(language@, *platform, page@),
{
    let mut m = String::new();
    m.append("creating page '");
    m.append(language);
    m.append("/");
    m.append(platform.name());
    m.append("/");
    m.append(page);
    m.append("'...");
    proof {
        assert(m@ =~= creating_page_msg(language@, *platform, page@));
    }
    m
}

/// Plans the creation of a new page.  The page name is ASCII-lowercased
/// for the path and the messages, while the template's heading keeps
/// the name as given; the caller reports in `is_file` whether the
/// page's path already holds a file.  An existing page is rejected and
/// left untouched; otherwise the page is created from the generated
/// template, exactly, in a directory that must already exist.
pub fn add(
    repo_path: &str,
    page: &str,
    doc_url: &str,
    language: &str,
    platform: &Platform,
    more_information: &str,
    is_file: bool,
) -> (r: Result<PageWrite, Error>)
    ensures
        is_file ==> (r matches Err(e) && e matches Error::Msg(m) && m@ == already_exists_msg(
            language@,
            *platform,
            lowered(page@),
        )),
        !is_file ==> (r matches Ok(w) && w.path@ == page_path_spec(
            repo_path@,
            *platform,
            language@,
            lowered(page@),
        ) && w.contents@ == page_template(page@, doc_url@, more_information@) && w.note@
            == creating_page_msg(language@, *platform, lowered(page@))
            && w.creates_parent_dirs == false),
{
    let name = lowercase(page);
    let path = page_path(repo_path, platform, language, name.as_str());
    if is_file {
        return Err(exists_error(language, platform, name.as_str()));
    }
    let mut contents = String::new();
    contents.append("# ");
    contents.append(page);
    contents.append("\n\n>\n>\n> ");
    contents.append(more_information);
    contents.append(": <");
    contents.append(doc_url);
    contents.append(">.\n\n-\n\n``\n");
    proof {
        assert(contents@ =~= page_template(page@, doc_url@, more_information@));
    }
    let note = creating_note(language, platform, name.as_str());
    Ok(PageWrite { path, contents, note, creates_parent_dirs: false })
}

/// The message rejecting an alias in a language whose alias template
/// has not been translated.
pub open spec fn untranslated_alias_msg(lang: Seq<char>) -> Seq<char> {
    "the alias page has not been translated to '"@ + lang + "' yet"@
}

/// The message announcing the creation of an alias page.
pub open spec fn creating_alias_msg(
    lang: Seq<char>,
    platform: Platform,
    new_page: Seq<char>,
    alias_of: Seq<char>,
) -> Seq<char> {
    "creating alias ("@ + lang + "/"@ + platform.dir() + "): '"@ + new_page + "' => '"@
        + alias_of + "'"@
}

/// Plans the creation of an alias page.  Both names are
/// ASCII-lowercased.  A language without an alias template is rejected
/// first, then an already existing target; otherwise the page contents
/// are the language's alias template with every occurrence of the
/// placeholder token "example" replaced by the aliased command, and
/// missing parent directories are made first: an alias page may be the
/// first page created for its platform and language pair.
pub fn alias(
    repo_path: &str,
    new_page: &str,
    alias_of: &str,
    language: &str,
    platform: &Platform,
    alias_template: Option<&str>,
    is_file: bool,
) -> (r: Result<PageWrite, Error>)
    ensures
        alias_template is None ==> (r matches Err(e) && e matches Error::Msg(m) && m@
            == untranslated_alias_msg(language@)),
        alias_template matches Some(t) ==> (if is_file {
            r matches Err(e) && e matches Error::Msg(m) && m@ == already_exists_msg(
                language@,
                *platform,
                lowered(new_page@),
            )
        } else {
            r matches Ok(w) && w.path@ == page_path_spec(
                repo_path@,
                *platform,
                language@,
                lowered(new_page@),
            ) && w.contents@ == replaced(t@, "example"@, lowered(alias_of@)) && w.note@
                == creating_alias_msg(
                language@,
                *platform,
                lowered(new_page@),
                lowered(alias_of@),
            ) && w.creates_parent_dirs == true
        }),
{
    let new_page = lowercase(new_page);
    let alias_of = lowercase(alias_of);
    let template = match alias_template {
        Some(t) => t,
        None => {
            let mut m = String::new();
            m.append("the alias page has not been translated to '");
            m.append(language);
            m.append("' yet");
            proof {
                assert(m@ =~= untranslated_alias_msg(language@));
            }
            return Err(Error::Msg(m));
        },
    };
    let path = page_path(repo_path, platform, language, new_page.as_str());
    if is_file {
        return Err(exists_error(language, platform, new_page.as_str()));
    }
    proof {
        reveal_strlit("example");
    }
    let contents = replace_all(template, "example", alias_of.as_str());
    let mut note = String::new();
    note.append("creating alias (");
    note.append(language);
    note.append("/");
    note.append(platform.name());
    note.append("): '");
    note.append(new_page.as_str());
    note.append("' => '");
    note.append(alias_of.as_str());
    note.append("'");
    proof {
        assert(note@ =~= creating_alias_msg(
            language@,
            *platform,
            lowered(new_page@),
            lowered(alias_of@),
        ));
    }
    Ok(PageWrite { path, contents, note, creates_parent_dirs: true })
}

/// The message rejecting a translation whose English source page does
/// not exist yet.
pub open spec fn create_english_first_msg(platform: Platform, page: Seq<char>) -> Seq<char> {
    "page 'en/"@ + platform.dir() + "/"@ + page + "' does not exist, create it first"@
}

/// The warning emitted when no language was given to a translation.
pub open spec fn no_language_warning() -> Seq<char> {
    "no language specified, running 'edit' instead"@
}

/// The note emitted when the requested translation already exists.
pub open spec fn translation_exists_note() -> Seq<char> {
    "this translation already exists, running 'edit' instead"@
}

/// What a translation request comes to: editing an already existing
/// page, or creating the target page from the English source.
#[derive(Debug, PartialEq, Eq)]
pub enum TranslatePlan {
    /// No language was given (the language is "en"): edit the English
    /// page itself, with a warning.
    EditEnglish { path: String, warning: String },
    /// The translation already exists: edit it, with a note.
    EditExisting { path: String, note: String },
    /// Create the target page by translating the English source: the
    /// caller reads `source_path`, rewrites its contents with
    /// [`translate_content`], and writes them to `path`.
    CreateFromEnglish {
        source_path: String,
        path: String,
        note: String,
        creates_parent_dirs: bool,
    },
}

/// Plans a translation.  The page name is ASCII-lowercased.  With
/// language "en" the request degrades to editing the English page,
/// which must exist; an already existing translation degrades to
/// editing it; otherwise the English source page must exist and the
/// target page is created from it, with missing parent directories
/// made first.  The caller reports in `target_is_file` whether the
/// target-language page exists and in `english_is_file` whether the
/// English page does.
pub fn translate(
    repo_path: &str,
    page: &str,
    language: &str,
    platform: &Platform,
    target_is_file: bool,
    english_is_file: bool,
) -> (r: Result<TranslatePlan, Error>)
    ensures
        language@ == "en"@ ==> (if english_is_file {
            r matches Ok(p) && p matches TranslatePlan::EditEnglish { path, warning }
                && path@ == page_path_spec(repo_path@, *platform, "en"@, lowered(page@))
                && warning@ == no_language_warning()
        } else {
            r matches Err(e) && e matches Error::Msg(m) && m@ == not_found_msg(
                "en"@,
                *platform,
                lowered(page@),
            )
        }),
        language@ != "en"@ && target_is_file ==> (r matches Ok(p) && p
            matches TranslatePlan::EditExisting { path, note } && path@ == page_path_spec(
            repo_path@,
            *platform,
            language@,
            lowered(page@),
        ) && note@ == translation_exists_note()),
        language@ != "en"@ && !target_is_file ==> (if english_is_file {
            r matches Ok(p) && p matches TranslatePlan::CreateFromEnglish {
                source_path,
                path,
                note,
                creates_parent_dirs,
            } && source_path@ == page_path_spec(repo_path@, *platform, "en"@, lowered(page@))
                && path@ == page_path_spec(repo_path@, *platform, language@, lowered(page@))
                && note@ == creating_page_msg(language@, *platform, lowered(page@))
                && creates_parent_dirs == true
        } else {
            r matches Err(e) && e matches Error::Msg(m) && m@ == create_english_first_msg(
                *platform,
                lowered(page@),
            )
        }),
{
    let page = lowercase(page);
    if str_eq(language, "en") {
        let path = existing_page_path(repo_path, platform, language, page.as_str(),
            english_is_file)?;
        return Ok(TranslatePlan::EditEnglish {
            path,
            warning: String::from_str("no language specified, running 'edit' instead"),
        });
    }
    let path = page_path(repo_path, platform, language, page.as_str());
    if target_is_file {
        return Ok(TranslatePlan::EditExisting {
            path,
            note: String::from_str("this translation already exists, running 'edit' instead"),
        });
    }
    if !english_is_file {
        let mut m = String::new();
        m.append("page 'en/");
        m.append(platform.name());
        m.append("/");
        m.append(page.as_str());
        m.append("' does not exist, create it first");
        proof {
            assert(m@ =~= create_english_first_msg(*platform, lowered(page@)));
        }
        return Err(Error::Msg(m));
    }
    let source_path = page_path(repo_path, platform, "en", page.as_str());
    let note = creating_note(language, platform, page.as_str());
    Ok(TranslatePlan::CreateFromEnglish { source_path, path, note, creates_parent_dirs: true })
}

/// Rewrites the contents of an English page for another language:
/// every occurrence of the literal phrase "More information" is
/// replaced by the target language's boilerplate phrase.
pub fn translate_content(english: &str, more_information: &str) -> (r: String)
    ensures
        r@ == replaced(english@, "More information"@, more_information@),
{
    proof {
        reveal_strlit("More information");
    }
    replace_all(english, "More information", more_information)
}

/// Resolves the page a multi-word identifier names, for editing.  The
/// words are joined with hyphens and ASCII-lowercased; the caller reports in
/// `is_file` whether the resolved path holds a file, and on success
/// opens the returned path in the editor.
pub fn edit(
    repo_path: &str,
    page: &Vec<String>,
    language: &str,
    platform: &Platform,
    is_file: bool,
) -> (r: Result<String, Error>)
    ensures
        is_file ==> (r matches Ok(p) && p@ == page_path_spec(
            repo_path@,
            *platform,
            language@,
            lowered(joined(page.deep_view())),
        )),
        !is_file ==> (r matches Err(e) && e matches Error::Msg(m) && m@ == not_found_msg(
            language@,
            *platform,
            lowered(joined(page.deep_view())),
        )),
{
    let name = lowercase(join_hyphen(page).as_str());
    existing_page_path(repo_path, platform, language, name.as_str(), is_file)
}

/// Resolves the page a multi-word identifier names and gives the
/// command that renders it: the documentation renderer, its `--render`
/// convention, and the page's path.  The caller reports in `is_file`
/// whether the resolved path holds a file.
pub fn view(
    repo_path: &str,
    page: &Vec<String>,
    language: &str,
    platform: &Platform,
    is_file: bool,
) -> (r: Result<Vec<String>, Error>)
    ensures
        is_file ==> (r matches Ok(cmd) && cmd.deep_view() =~= seq![
            "tldr"@,
            "--render"@,
            page_path_spec(repo_path@, *platform, language@, lowered(joined(page.deep_view()))),
        ]),
        !is_file ==> (r matches Err(e) && e matches Error::Msg(m) && m@ == not_found_msg(
            language@,
            *platform,
            lowered(joined(page.deep_view())),
        )),
{
    let name = lowercase(join_hyphen(page).as_str());
    let path = existing_page_path(repo_path, platform, language, name.as_str(), is_file)?;
    let mut cmd: Vec<String> = Vec::new();
    cmd.push(String::from_str("tldr"));
    cmd.push(String::from_str("--render"));
    cmd.push(path);
    proof {
        assert(cmd.deep_view() =~= seq![
            "tldr"@,
            "--render"@,
            page_path_spec(repo_path@, *platform, language@, lowered(joined(page.deep_view()))),
        ]);
    }
    Ok(cmd)
}

// ---------------------------------------------------------------------------
// Git workflows
// ---------------------------------------------------------------------------
// Each repository-lifecycle operation is an explicit ordered sequence
// of fallible steps with no automatic rollback.  The sequencing is a
// state machine: a step function is handed the current state and the
// result of the action it last asked for, and answers with the next
// state and the next action.  The caller performs each action (spawn a
// git command, print a note, open a browser) and hands the result back;
// any subprocess failure is fatal to the whole operation, so the caller
// simply stops driving the machine.
/// The result of the last performed action, handed back to a step
/// function: `Begin` starts a machine, `Ran` reports a completed run or
/// note, `Checked` a status check, `Captured` a captured output.
#[derive(Debug, PartialEq, Eq)]
pub enum GitEvent {
    Begin,
    Ran,
    Checked(bool),
    Captured(String),
}

/// An action a git workflow asks its caller to perform.
#[derive(Debug, PartialEq, Eq)]
pub enum GitAction {
    /// Capture the name of the current branch.
    CaptureCurrentBranch,
    /// Check out an existing branch.
    Checkout { branch: String },
    /// Create a branch and check it out.
    CheckoutNew { branch: String },
    /// Pull the upstream remote's main branch.
    Pull,
    /// Push to the configured upstream of the current branch.
    Push,
    /// Push the branch to origin, establishing upstream tracking.
    PushSetUpstream { branch: String },
    /// Check whether `HEAD` is an ancestor of its upstream tracking
    /// ref.
    CheckIsAncestor,
    /// Check whether a local ref for the branch exists.
    CheckBranchExists { branch: String },
    /// Print an informational message.
    Note { text: String },
    /// Open a URL in the default browser.
    OpenBrowser { url: String },
    /// The workflow is complete.
    Finished,
}

impl GitAction {
    /// The arguments the version-control client takes for this action;
    /// empty for the actions that do not run it.
    pub open spec fn argv_spec(self) -> Seq<Seq<char>> {
        match self {
            GitAction::CaptureCurrentBranch => seq!["branch"@, "--show-current"@],
            GitAction::Checkout { branch } => seq!["checkout"@, branch@],
            GitAction::CheckoutNew { branch } => seq!["checkout"@, "-b"@, branch@],
            GitAction::Pull => seq!["pull"@, "upstream"@, "main"@],
            GitAction::Push => seq!["push"@],
            GitAction::PushSetUpstream { branch } => seq!["push"@, "-u"@, "origin"@, branch@],
            GitAction::CheckIsAncestor => seq![
                "merge-base"@,
                "--is-ancestor"@,
                "HEAD"@,
                "@{u}"@,
            ],
            GitAction::CheckBranchExists { branch } => seq![
                "show-ref"@,
                "--verify"@,
                "refs/heads/"@ + branch@,
            ],
            GitAction::Note { .. } => Seq::empty(),
            GitAction::OpenBrowser { .. } => Seq::empty(),
            GitAction::Finished => Seq::empty(),
        }
    }

    /// The arguments the version-control client takes for this action.
    pub fn argv(&self) -> (r: Vec<String>)
        ensures
            r.deep_view() == self.argv_spec(),
    {
        let mut r: Vec<String> = Vec::new();
        match self {
            GitAction::CaptureCurrentBranch => {
                r.push(String::from_str("branch"));
                r.push(String::from_str("--show-current"));
            },
            GitAction::Checkout { branch } => {
                r.push(String::from_str("checkout"));
                r.push(branch.clone());
            },
            GitAction::CheckoutNew { branch } => {
                r.push(String::from_str("checkout"));
                r.push(String::from_str("-b"));
                r.push(branch.clone());
            },
            GitAction::Pull => {
                r.push(String::from_str("pull"));
                r.push(String::from_str("upstream"));
                r.push(String::from_str("main"));
            },
            GitAction::Push => {
                r.push(String::from_str("push"));
            },
            GitAction::PushSetUpstream { branch } => {
                r.push(String::from_str("push"));
                r.push(String::from_str("-u"));
                r.push(String::from_str("origin"));
                r.push(branch.clone());
            },
            GitAction::CheckIsAncestor => {
                r.push(String::from_str("merge-base"));
                r.push(String::from_str("--is-ancestor"));
                r.push(String::from_str("HEAD"));
                r.push(String::from_str("@{u}"));
            },
            GitAction::CheckBranchExists { branch } => {
                let mut full = String::from_str("refs/heads/");
                full.append(branch.as_str());
                r.push(String::from_str("show-ref"));
                r.push(String::from_str("--verify"));
                r.push(full);
            },
            GitAction::Note { .. } => {},
            GitAction::OpenBrowser { .. } => {},
            GitAction::Finished => {},
        }
        proof {
            assert(r.deep_view() =~= self.argv_spec());
        }
        r
    }
}

/// Where the update workflow stands: which action it is waiting on.
/// The states after the branch capture remember the originally
/// checked-out branch, so that it can be restored at the end.
#[derive(Debug, PartialEq, Eq)]
pub enum UpdateState {
    Start,
    CapturingBranch,
    SwitchingToMain { original: String },
    Pulling { original: String },
    CheckingAncestor { original: String },
    Pushing { original: String },
    Reporting { original: String },
    Restoring,
    Done,
}

/// The note emitted when the fork needs no push.
pub open spec fn fork_up_to_date_note() -> Seq<char> {
    "your fork is up to date, not pushing"@
}

/// Which events an update state accepts: the kind of result of the
/// action the machine asked for when it entered the state.
pub open spec fn update_accepts(state: UpdateState, event: GitEvent) -> bool {
    match state {
        UpdateState::Start => event is Begin,
        UpdateState::CapturingBranch => event is Captured,
        UpdateState::SwitchingToMain { .. } => event is Ran,
        UpdateState::Pulling { .. } => event is Ran,
        UpdateState::CheckingAncestor { .. } => event is Checked,
        UpdateState::Pushing { .. } => event is Ran,
        UpdateState::Reporting { .. } => event is Ran,
        UpdateState::Restoring => event is Ran,
        UpdateState::Done => false,
    }
}

/// After the push-or-report step the original branch is restored if it
/// was not main; otherwise the workflow is complete.
pub open spec fn update_after_sync(original: Seq<char>, state: UpdateState, action: GitAction) -> bool {
    if original != "main"@ {
        state is Restoring && (action matches GitAction::Checkout { branch } && branch@
            == original)
    } else {
        state is Done && action is Finished
    }
}

fn finish_sync(original: String) -> (r: (UpdateState, GitAction))
    ensures
        update_after_sync(original@, r.0, r.1),
{
    if !str_eq(original.as_str(), "main") {
        (UpdateState::Restoring, GitAction::Checkout { branch: original })
    } else {
        (UpdateState::Done, GitAction::Finished)
    }
}

/// One step of the update workflow, which synchronizes the fork's main
/// branch from upstream: capture the current branch; check out main
/// unless it is already current; pull upstream's main; if `HEAD` is
/// already an ancestor of the upstream tracking ref, report that the
/// fork is up to date instead of pushing, else push; finally restore
/// the original branch if the workflow had switched away from it.
pub fn update(state: UpdateState, event: GitEvent) -> (r: (UpdateState, GitAction))
    requires
        update_accepts(state, event),
    ensures
        state is Start ==> (r.0 is CapturingBranch && r.1 is CaptureCurrentBranch),
        state is CapturingBranch ==> (event matches GitEvent::Captured(b) ==> (if b@ != "main"@ {
            r.0 matches UpdateState::SwitchingToMain { original } && original@ == b@ && (r.1
                matches GitAction::Checkout { branch } && branch@ == "main"@)
        } else {
            r.0 matches UpdateState::Pulling { original } && original@ == b@ && r.1 is Pull
        })),
        state matches UpdateState::SwitchingToMain { original } ==> (r.0
            matches UpdateState::Pulling { original: o2 } && o2@ == original@ && r.1 is Pull),
        state matches UpdateState::Pulling { original } ==> (r.0
            matches UpdateState::CheckingAncestor { original: o2 } && o2@ == original@ && r.1
            is CheckIsAncestor),
        state matches UpdateState::CheckingAncestor { original } ==> (event
            matches GitEvent::Checked(up_to_date) ==> (if up_to_date {
            r.0 matches UpdateState::Reporting { original: o2 } && o2@ == original@ && (r.1
                matches GitAction::Note { text } && text@ == fork_up_to_date_note())
        } else {
            r.0 matches UpdateState::Pushing { original: o2 } && o2@ == original@ && r.1 is Push
        })),
        state matches UpdateState::Pushing { original } ==> update_after_sync(
            original@,
            r.0,
            r.1,
        ),
        state matches UpdateState::Reporting { original } ==> update_after_sync(
            original@,
            r.0,
            r.1,
        ),
        state is Restoring ==> (r.0 is Done && r.1 is Finished),
{
    match (state, event) {
        (UpdateState::Start, GitEvent::Begin) => (
            UpdateState::CapturingBranch,
            GitAction::CaptureCurrentBranch,
        ),
        (UpdateState::CapturingBranch, GitEvent::Captured(b)) => {
            if !str_eq(b.as_str(), "main") {
                (
                    UpdateState::SwitchingToMain { original: b },
                    GitAction::Checkout { branch: String::from_str("main") },
                )
            } else {
                (UpdateState::Pulling { original: b }, GitAction::Pull)
            }
        },
        (UpdateState::SwitchingToMain { original }, GitEvent::Ran) => (
            UpdateState::Pulling { original },
            GitAction::Pull,
        ),
        (UpdateState::Pulling { original }, GitEvent::Ran) => (
            UpdateState::CheckingAncestor { original },
            GitAction::CheckIsAncestor,
        ),
        (UpdateState::CheckingAncestor { original }, GitEvent::Checked(up_to_date)) => {
            if up_to_date {
                (
                    UpdateState::Reporting { original },
                    GitAction::Note {
                        text: String::from_str("your fork is up to date, not pushing"),
                    },
                )
            } else {
                (UpdateState::Pushing { original }, GitAction::Push)
            }
        },
        (UpdateState::Pushing { original }, GitEvent::Ran) => finish_sync(original),
        (UpdateState::Reporting { original }, GitEvent::Ran) => finish_sync(original),
        (UpdateState::Restoring, GitEvent::Ran) => (UpdateState::Done, GitAction::Finished),
        _ => (UpdateState::Done, GitAction::Finished),
    }
}

/// Where the pull-request workflow stands.  The states after the
/// branch capture remember the current branch, which the compare URL
/// names.
#[derive(Debug, PartialEq, Eq)]
pub enum PullRequestState {
    Start,
    CapturingBranch,
    CheckingAncestor { branch: String },
    Pushing { branch: String },
    Reporting { branch: String },
    Opening,
    Done,
}

/// The message rejecting a pull request from the main branch.
pub open spec fn pull_request_on_main_msg() -> Seq<char> {
    "the 'main' branch is checked out. Switch branches using 'tlt branch' first."@
}

/// The note emitted when the branch needs no push.
pub open spec fn origin_up_to_date_note() -> Seq<char> {
    "origin is up to date, not pushing"@
}

/// The compare URL a pull request is opened on: the upstream
/// repository's compare page between its main branch and the fork's
/// branch, with the slash of the fork identifier replaced by a colon.
pub open spec fn compare_url(fork: Seq<char>, branch: Seq<char>) -> Seq<char> {
    "https://github.com/tldr-pages/tldr/compare/main..."@ + colonized(fork) + ":"@ + branch
}

/// Which events a pull-request state accepts.
pub open spec fn pull_request_accepts(state: PullRequestState, event: GitEvent) -> bool {
    match state {
        PullRequestState::Start => event is Begin,
        PullRequestState::CapturingBranch => event is Captured,
        PullRequestState::CheckingAncestor { .. } => event is Checked,
        PullRequestState::Pushing { .. } => event is Ran,
        PullRequestState::Reporting { .. } => event is Ran,
        PullRequestState::Opening => event is Ran,
        PullRequestState::Done => false,
    }
}

fn open_compare(fork: &str, branch: &String) -> (r: (PullRequestState, GitAction))
    ensures
        r.0 is Opening && (r.1 matches GitAction::OpenBrowser { url } && url@ == compare_url(
            fork@,
            branch@,
        )),
{
    let mut url = String::from_str("https://github.com/tldr-pages/tldr/compare/main...");
    let colonized_fork = colonize(fork);
    url.append(colonized_fork.as_str());
    url.append(":");
    url.append(branch.as_str());
    proof {
        assert(url@ =~= compare_url(fork@, branch@));
    }
    (PullRequestState::Opening, GitAction::OpenBrowser { url })
}

/// One step of the pull-request workflow: capture the current branch,
/// which must not be main; if `HEAD` is already an ancestor of its
/// upstream tracking ref, report that origin is up to date instead of
/// pushing, else push the branch to origin with upstream tracking;
/// finally open the compare URL built from the fork identifier and the
/// branch in the browser.
pub fn pull_request(fork: &str, state: PullRequestState, event: GitEvent) -> (r: Result<
    (PullRequestState, GitAction),
    Error,
>)
    requires
        pull_request_accepts(state, event),
    ensures
        state is Start ==> (r matches Ok(p) && p.0 is CapturingBranch && p.1
            is CaptureCurrentBranch),
        state is CapturingBranch ==> (event matches GitEvent::Captured(b) ==> (if b@ == "main"@ {
            r matches Err(e) && e matches Error::Msg(m) && m@ == pull_request_on_main_msg()
        } else {
            r matches Ok(p) && (p.0 matches PullRequestState::CheckingAncestor { branch }
                && branch@ == b@) && p.1 is CheckIsAncestor
        })),
        state matches PullRequestState::CheckingAncestor { branch } ==> (event
            matches GitEvent::Checked(up_to_date) ==> (if up_to_date {
            r matches Ok(p) && (p.0 matches PullRequestState::Reporting { branch: b2 } && b2@
                == branch@) && (p.1 matches GitAction::Note { text } && text@
                == origin_up_to_date_note())
        } else {
            r matches Ok(p) && (p.0 matches PullRequestState::Pushing { branch: b2 } && b2@
                == branch@) && (p.1 matches GitAction::PushSetUpstream { branch: b3 } && b3@
                == branch@)
        })),
        state matches PullRequestState::Pushing { branch } ==> (r matches Ok(p) && p.0
            is Opening && (p.1 matches GitAction::OpenBrowser { url } && url@ == compare_url(
            fork@,
            branch@,
        ))),
        state matches PullRequestState::Reporting { branch } ==> (r matches Ok(p) && p.0
            is Opening && (p.1 matches GitAction::OpenBrowser { url } && url@ == compare_url(
            fork@,
            branch@,
        ))),
        state is Opening ==> (r matches Ok(p) && p.0 is Done && p.1 is Finished),
{
    match (state, event) {
        (PullRequestState::Start, GitEvent::Begin) => Ok(
            (PullRequestState::CapturingBranch, GitAction::CaptureCurrentBranch),
        ),
        (PullRequestState::CapturingBranch, GitEvent::Captured(b)) => {
            if str_eq(b.as_str(), "main") {
                Err(
                    Error::Msg(
                        String::from_str(
                            "the 'main' branch is checked out. Switch branches using 'tlt branch' first.",
                        ),
                    ),
                )
            } else {
                Ok(
                    (
                        PullRequestState::CheckingAncestor { branch: b },
                        GitAction::CheckIsAncestor,
                    ),
                )
            }
        },
        (PullRequestState::CheckingAncestor { branch }, GitEvent::Checked(up_to_date)) => {
            if up_to_date {
                Ok(
                    (
                        PullRequestState::Reporting { branch },
                        GitAction::Note {
                            text: String::from_str("origin is up to date, not pushing"),
                        },
                    ),
                )
            } else {
                let action = GitAction::PushSetUpstream { branch: branch.clone() };
                Ok((PullRequestState::Pushing { branch }, action))
            }
        },
        (PullRequestState::Pushing { branch }, GitEvent::Ran) => Ok(
            open_compare(fork, &branch),
        ),
        (PullRequestState::Reporting { branch }, GitEvent::Ran) => Ok(
            open_compare(fork, &branch),
        ),
        (PullRequestState::Opening, GitEvent::Ran) => Ok(
            (PullRequestState::Done, GitAction::Finished),
        ),
        _ => Ok((PullRequestState::Done, GitAction::Finished)),
    }
}

/// Where the branch workflow stands.
#[derive(Debug, PartialEq, Eq)]
pub enum BranchState {
    Start,
    Checking,
    Reporting { found: bool },
    Switching,
    Done,
}

/// The note emitted before checking out an existing branch.
pub open spec fn branch_exists_note(name: Seq<char>) -> Seq<char> {
    "branch '"@ + name + "' exists, checking it out..."@
}

/// The note emitted before creating a branch.
pub open spec fn branch_create_note(name: Seq<char>) -> Seq<char> {
    "branch '"@ + name + "' does not exist, creating it..."@
}

/// Which events a branch state accepts.
pub open spec fn branch_accepts(state: BranchState, event: GitEvent) -> bool {
    match state {
        BranchState::Start => event is Begin,
        BranchState::Checking => event is Checked,
        BranchState::Reporting { .. } => event is Ran,
        BranchState::Switching => event is Ran,
        BranchState::Done => false,
    }
}

/// One step of the branch workflow, an idempotent "ensure the branch
/// exists and switch to it": check whether a local ref for the branch
/// exists; report what was found; then check the branch out, creating
/// it first when it did not exist.  No existing branch is harmed.
pub fn branch(name: &str, state: BranchState, event: GitEvent) -> (r: (BranchState, GitAction))
    requires
        branch_accepts(state, event),
    ensures
        state is Start ==> (r.0 is Checking && (r.1 matches GitAction::CheckBranchExists {
            branch,
        } && branch@ == name@)),
        state is Checking ==> (event matches GitEvent::Checked(found) ==> ((r.0
            matches BranchState::Reporting { found: f2 } && f2 == found) && (r.1
            matches GitAction::Note { text } && text@ == (if found {
            branch_exists_note(name@)
        } else {
            branch_create_note(name@)
        })))),
        state matches BranchState::Reporting { found } ==> (r.0 is Switching && (if found {
            r.1 matches GitAction::Checkout { branch } && branch@ == name@
        } else {
            r.1 matches GitAction::CheckoutNew { branch } && branch@ == name@
        })),
        state is Switching ==> (r.0 is Done && r.1 is Finished),
{
    match (state, event) {
        (BranchState::Start, GitEvent::Begin) => (
            BranchState::Checking,
            GitAction::CheckBranchExists { branch: String::from_str(name) },
        ),
        (BranchState::Checking, GitEvent::Checked(found)) => {
            let mut text = String::from_str("branch '");
            text.append(name);
            if found {
                text.append("' exists, checking it out...");
                proof {
                    assert(text@ =~= branch_exists_note(name@));
                }
            } else {
                text.append("' does not exist, creating it...");
                proof {
                    assert(text@ =~= branch_create_note(name@));
                }
            }
            (BranchState::Reporting { found }, GitAction::Note { text })
        },
        (BranchState::Reporting { found }, GitEvent::Ran) => {
            if found {
                (
                    BranchState::Switching,
                    GitAction::Checkout { branch: String::from_str(name) },
                )
            } else {
                (
                    BranchState::Switching,
                    GitAction::CheckoutNew { branch: String::from_str(name) },
                )
            }
        },
        (BranchState::Switching, GitEvent::Ran) => (BranchState::Done, GitAction::Finished),
        _ => (BranchState::Done, GitAction::Finished),
    }
}

} // verus!

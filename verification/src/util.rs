use vstd::prelude::*;
use crate::args::Platform;
use crate::error::Error;
use crate::text::{hyphenate, hyphenated, hyphen_char, str_eq, str_to_chars, chars_to_string, lemma_cancel_prefix, lemma_split_at_sep};
use vstd::string::StringExecFns;

verus! {

// ---------------------------------------------------------------------------
// Page paths
// ---------------------------------------------------------------------------
/// The directory that holds the pages of a language: the base "pages"
/// directory for English, "pages.<language>" for every other language.
pub open spec fn lang_dir(lang: Seq<char>) -> Seq<char> {
    if lang == "en"@ {
        "pages"@
    } else {
        "pages."@ + lang
    }
}

/// The path of a page inside the repository:
/// `<root>/<pages dir>/<platform dir>/<name>.md`, where the name is the
/// page identifier with spaces replaced by hyphens.
pub open spec fn page_path_spec(
    root: Seq<char>,
    platform: Platform,
    lang: Seq<char>,
    page: Seq<char>,
) -> Seq<char> {
    root + "/"@ + lang_dir(lang) + "/"@ + platform.dir() + "/"@ + hyphenated(page) + ".md"@
}

/// Constructs the path to a page.  A pure function of its four inputs;
/// no error is possible.
pub fn page_path(repo_path: &str, platform: &Platform, language: &str, page: &str) -> (r: String)
    ensures
        r@ == page_path_spec(repo_path@, *platform, language@, page@),
{
    let mut r = String::new();
    r.append(repo_path);
    r.append("/");
    if str_eq(language, "en") {
        r.append("pages");
    } else {
        r.append("pages.");
        r.append(language);
    }
    r.append("/");
    r.append(platform.name());
    r.append("/");
    let stem = hyphenate(page);
    r.append(stem.as_str());
    r.append(".md");
    proof {
        assert(r@ =~= page_path_spec(repo_path@, *platform, language@, page@));
    }
    r
}

/// For every language other than "en", the page path places the page
/// under a "pages.<language>" directory whose name carries the literal
/// language, and that directory is distinct from the bare "pages"
/// directory used for "en".
pub proof fn lemma_page_path_language_dir(
    root: Seq<char>,
    platform: Platform,
    lang: Seq<char>,
    page: Seq<char>,
)
    ensures
        lang == "en"@ ==> lang_dir(lang) == "pages"@,
        lang != "en"@ ==> lang_dir(lang) == "pages."@ + lang,
        lang != "en"@ ==> lang_dir(lang) != lang_dir("en"@),
        page_path_spec(root, platform, lang, page).subrange(
            root.len() as int + 1,
            root.len() as int + 1 + lang_dir(lang).len(),
        ) == lang_dir(lang),
{
    reveal_strlit("/");
    reveal_strlit("pages");
    reveal_strlit("pages.");
    if lang != "en"@ {
        assert(("pages."@ + lang).len() == 6 + lang.len());
        assert(lang_dir(lang).len() >= 6);
        assert(lang_dir("en"@).len() == 5);
    }
    let p = page_path_spec(root, platform, lang, page);
    assert(p.subrange(root.len() as int + 1, root.len() as int + 1 + lang_dir(lang).len())
        =~= lang_dir(
        lang,
    )) by {
        assert forall|i: int| 0 <= i < lang_dir(lang).len() implies p[root.len() + 1 + i]
            == lang_dir(lang)[i] by {
            assert((root + "/"@)[root.len() as int] == '/');
            assert((root + "/"@ + lang_dir(lang))[root.len() + 1 + i] == lang_dir(lang)[i]);
        }
    }
}

/// The page path is injective over the platform, the language and the
/// normalized page name: two distinct triples never collide to the
/// same path under one repository root.  Languages are slash-free, as
/// every member of the known set is; page names are space-free, as
/// every normalized name is.
pub proof fn lemma_page_path_injective(
    root: Seq<char>,
    p1: Platform,
    l1: Seq<char>,
    n1: Seq<char>,
    p2: Platform,
    l2: Seq<char>,
    n2: Seq<char>,
)
    requires
        !l1.contains('/'),
        !l2.contains('/'),
        !n1.contains(' '),
        !n2.contains(' '),
        page_path_spec(root, p1, l1, n1) == page_path_spec(root, p2, l2, n2),
    ensures
        p1 == p2,
        l1 == l2,
        n1 == n2,
{
    reveal_strlit("/");
    reveal_strlit("pages");
    reveal_strlit("pages.");
    reveal_strlit(".md");
    reveal_strlit("linux");
    reveal_strlit("osx");
    reveal_strlit("windows");
    reveal_strlit("android");
    reveal_strlit("sunos");
    reveal_strlit("common");
    assert("/"@ =~= seq!['/']);
    let f1 = hyphenated(n1) + ".md"@;
    let f2 = hyphenated(n2) + ".md"@;
    let r1 = p1.dir() + seq!['/'] + f1;
    let r2 = p2.dir() + seq!['/'] + f2;
    let t1 = lang_dir(l1) + seq!['/'] + r1;
    let t2 = lang_dir(l2) + seq!['/'] + r2;
    assert(page_path_spec(root, p1, l1, n1) =~= (root + seq!['/']) + t1);
    assert(page_path_spec(root, p2, l2, n2) =~= (root + seq!['/']) + t2);
    lemma_cancel_prefix(root + seq!['/'], t1, t2);
    lemma_lang_dir_no_slash(l1);
    lemma_lang_dir_no_slash(l2);
    lemma_split_at_sep(lang_dir(l1), r1, lang_dir(l2), r2, '/');
    if l1 == "en"@ || l2 == "en"@ {
        if l1 != l2 {
            assert(("pages."@ + l1).len() == 6 + l1.len());
            assert(("pages."@ + l2).len() == 6 + l2.len());
            assert(false);
        }
    } else {
        lemma_cancel_prefix("pages."@, l1, l2);
    }
    lemma_platform_dir_no_slash(p1);
    lemma_platform_dir_no_slash(p2);
    lemma_split_at_sep(p1.dir(), f1, p2.dir(), f2, '/');
    lemma_platform_dir_injective(p1, p2);
    assert(hyphenated(n1) =~= hyphenated(n2)) by {
        assert(f1.len() == hyphenated(n1).len() + 3);
        assert(f2.len() == hyphenated(n2).len() + 3);
        assert forall|i: int| 0 <= i < hyphenated(n1).len() implies hyphenated(n1)[i]
            == hyphenated(n2)[i] by {
            assert(f1[i] == hyphenated(n1)[i]);
            assert(f2[i] == hyphenated(n2)[i]);
        }
    }
    assert(n1 =~= n2) by {
        assert forall|i: int| 0 <= i < n1.len() implies n1[i] == n2[i] by {
            assert(hyphenated(n1)[i] == hyphen_char(n1[i]));
            assert(hyphenated(n2)[i] == hyphen_char(n2[i]));
            assert(n1[i] != ' ' && n2[i] != ' ');
        }
    }
}

proof fn lemma_lang_dir_no_slash(lang: Seq<char>)
    requires
        !lang.contains('/'),
    ensures
        !lang_dir(lang).contains('/'),
{
    reveal_strlit("pages");
    reveal_strlit("pages.");
    assert(!("pages"@.contains('/'))) by {
        assert forall|i: int| 0 <= i < "pages"@.len() implies "pages"@[i] != '/' by {}
    }
    assert(!("pages."@.contains('/'))) by {
        assert forall|i: int| 0 <= i < "pages."@.len() implies "pages."@[i] != '/' by {}
    }
    if lang != "en"@ {
        crate::text::lemma_concat_keeps_out("pages."@, lang, '/');
    }
}

proof fn lemma_platform_dir_no_slash(platform: Platform)
    ensures
        !platform.dir().contains('/'),
{
    reveal_strlit("linux");
    reveal_strlit("osx");
    reveal_strlit("windows");
    reveal_strlit("android");
    reveal_strlit("sunos");
    reveal_strlit("common");
    assert forall|i: int| 0 <= i < platform.dir().len() implies platform.dir()[i] != '/' by {}
}

/// The platform-to-directory mapping is a bijection: equal directory
/// names come from equal platforms.
pub proof fn lemma_platform_dir_injective(p1: Platform, p2: Platform)
    requires
        p1.dir() == p2.dir(),
    ensures
        p1 == p2,
{
    reveal_strlit("linux");
    reveal_strlit("osx");
    reveal_strlit("windows");
    reveal_strlit("android");
    reveal_strlit("sunos");
    reveal_strlit("common");
    assert("linux"@.len() == 5);
    assert("osx"@.len() == 3);
    assert("windows"@.len() == 7);
    assert("android"@.len() == 7);
    assert("sunos"@.len() == 5);
    assert("common"@.len() == 6);
    assert("linux"@[0] == 'l' && "sunos"@[0] == 's');
    assert("windows"@[0] == 'w' && "android"@[0] == 'a');
}

/// How a page is written in messages: `<language>/<platform>/<page>`.
pub open spec fn page_ref(lang: Seq<char>, platform: Platform, page: Seq<char>) -> Seq<char> {
    lang + "/"@ + platform.dir() + "/"@ + page
}

/// The message rejecting an operation on a page that does not exist.
pub open spec fn not_found_msg(lang: Seq<char>, platform: Platform, page: Seq<char>) -> Seq<
    char,
> {
    page_ref(lang, platform, page) + ": page does not exist"@
}

/// Constructs the path to a page and checks that the page is there.
/// The caller supplies in `is_file` the result of the one filesystem
/// existence check the operation makes, on exactly the returned path.
pub fn existing_page_path(
    repo_path: &str,
    platform: &Platform,
    language: &str,
    page: &str,
    is_file: bool,
) -> (r: Result<String, Error>)
    ensures
        is_file ==> (r matches Ok(p) && p@ == page_path_spec(
            repo_path@,
            *platform,
            language@,
            page@,
        )),
        !is_file ==> (r matches Err(e) && e matches Error::Msg(m) && m@ == not_found_msg(
            language@,
            *platform,
            page@,
        )),
{
    let path = page_path(repo_path, platform, language, page);
    if is_file {
        Ok(path)
    } else {
        let mut m = String::new();
        m.append(language);
        m.append("/");
        m.append(platform.name());
        m.append("/");
        m.append(page);
        m.append(": page does not exist");
        proof {
            assert(m@ =~= not_found_msg(language@, *platform, page@));
        }
        Err(Error::Msg(m))
    }
}

// ---------------------------------------------------------------------------
// Child-process outcomes
// ---------------------------------------------------------------------------
/// What became of an attempt to run an external program: either the
/// program could not be started at all, or it ran to completion and
/// left an exit code.  The strings carry the operating system's
/// rendering of the failure or of the exit status.
pub enum SpawnOutcome {
    /// The program could not be spawned; the OS error text.
    Failed(String),
    /// The program exited; the exit code and its textual rendering.
    Exited(i32, String),
}

/// Interprets the outcome of a fire-and-forget run: success is exit
/// code zero; a spawn failure or any other exit code is a
/// child-process error carrying the outcome's description.
pub fn spawn(outcome: SpawnOutcome) -> (r: Result<(), Error>)
    ensures
        (outcome matches SpawnOutcome::Failed(d) ==> (r matches Err(e) && e
            == Error::ChildProcess(d))),
        (outcome matches SpawnOutcome::Exited(c, d) ==> (if c == 0 {
            r is Ok
        } else {
            r matches Err(e) && e == Error::ChildProcess(d)
        })),
{
    match outcome {
        SpawnOutcome::Failed(d) => Err(Error::ChildProcess(d)),
        SpawnOutcome::Exited(c, d) => {
            if c == 0 {
                Ok(())
            } else {
                Err(Error::ChildProcess(d))
            }
        },
    }
}

/// Interprets the outcome of a status check: a completed run yields
/// `true` exactly when the exit code is zero — a nonzero exit is a
/// normal `false`, not an error — while a spawn failure still
/// propagates as a child-process error, never as a boolean.
pub fn is_success(outcome: SpawnOutcome) -> (r: Result<bool, Error>)
    ensures
        (outcome matches SpawnOutcome::Failed(d) ==> (r matches Err(e) && e
            == Error::ChildProcess(d))),
        (outcome matches SpawnOutcome::Exited(c, d) ==> (r matches Ok(b) && b == (c == 0))),
{
    match outcome {
        SpawnOutcome::Failed(d) => Err(Error::ChildProcess(d)),
        SpawnOutcome::Exited(c, _) => Ok(c == 0),
    }
}

/// A string with exactly one trailing newline stripped, if one is
/// there.
pub open spec fn stripped_newline(s: Seq<char>) -> Seq<char> {
    if s.len() > 0 && s.last() == '\n' {
        s.drop_last()
    } else {
        s
    }
}

/// Interprets the outcome of an output capture: on exit code zero the
/// captured standard output is returned with exactly one trailing
/// newline stripped; a spawn failure or a nonzero exit is a
/// child-process error carrying the outcome's description.
pub fn get_output(outcome: SpawnOutcome, stdout: String) -> (r: Result<String, Error>)
    ensures
        (outcome matches SpawnOutcome::Failed(d) ==> (r matches Err(e) && e
            == Error::ChildProcess(d))),
        (outcome matches SpawnOutcome::Exited(c, d) ==> (if c == 0 {
            r matches Ok(s) && s@ == stripped_newline(stdout@)
        } else {
            r matches Err(e) && e == Error::ChildProcess(d)
        })),
{
    match outcome {
        SpawnOutcome::Failed(d) => Err(Error::ChildProcess(d)),
        SpawnOutcome::Exited(c, d) => {
            if c == 0 {
                let mut v = str_to_chars(stdout.as_str());
                if v.len() > 0 && v[v.len() - 1] == '\n' {
                    v.pop();
                    proof {
                        assert(v@ =~= stripped_newline(stdout@));
                    }
                }
                Ok(chars_to_string(&v))
            } else {
                Err(Error::ChildProcess(d))
            }
        },
    }
}

} // verus!

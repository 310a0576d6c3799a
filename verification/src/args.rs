use vstd::prelude::*;
use crate::text::str_eq;
use vstd::string::StringExecFns;

verus! {

/// The closed set of documentation platforms.  Every platform maps to
/// exactly one lowercase directory name, and the mapping is a bijection
/// over the enumeration.
#[derive(Clone, Copy, Debug, PartialEq, Eq, Structural)]
pub enum Platform {
    Linux,
    OsX,
    Windows,
    Android,
    SunOs,
    Common,
}

impl Platform {
    /// The directory name of this platform inside a pages tree.
    pub open spec fn dir(self) -> Seq<char> {
        match self {
            Platform::Linux => "linux"@,
            Platform::OsX => "osx"@,
            Platform::Windows => "windows"@,
            Platform::Android => "android"@,
            Platform::SunOs => "sunos"@,
            Platform::Common => "common"@,
        }
    }

    /// The directory name of this platform, as a string slice.
    pub fn name(&self) -> (r: &'static str)
        ensures
            r@ == self.dir(),
    {
        match self {
            Platform::Linux => "linux",
            Platform::OsX => "osx",
            Platform::Windows => "windows",
            Platform::Android => "android",
            Platform::SunOs => "sunos",
            Platform::Common => "common",
        }
    }

    /// The platform a textual identifier parses to, if any: "macos" and
    /// "osx" both select `OsX`, every directory name selects its own
    /// platform, and anything else is rejected.
    pub open spec fn parsed(s: Seq<char>) -> Option<Platform> {
        if s == "linux"@ {
            Some(Platform::Linux)
        } else if s == "macos"@ || s == "osx"@ {
            Some(Platform::OsX)
        } else if s == "windows"@ {
            Some(Platform::Windows)
        } else if s == "android"@ {
            Some(Platform::Android)
        } else if s == "sunos"@ {
            Some(Platform::SunOs)
        } else if s == "common"@ {
            Some(Platform::Common)
        } else {
            None
        }
    }

    /// The message rejecting an unknown platform identifier.
    pub open spec fn invalid_platform_msg(s: Seq<char>) -> Seq<char> {
        "invalid platform '"@ + s
            + "' (possible values: linux, macos, osx, windows, android, sunos, common)'"@
    }

    /// Parses a textual platform identifier, rejecting anything outside
    /// the closed set with a descriptive message.
    pub fn from_str(s: &str) -> (r: Result<Platform, String>)
        ensures
            Platform::parsed(s@) matches Some(p) ==> (r matches Ok(q) && q == p),
            Platform::parsed(s@) is None ==> (r matches Err(m) && m@
                == Platform::invalid_platform_msg(s@)),
    {
        if str_eq(s, "linux") {
            Ok(Platform::Linux)
        } else if str_eq(s, "macos") || str_eq(s, "osx") {
            Ok(Platform::OsX)
        } else if str_eq(s, "windows") {
            Ok(Platform::Windows)
        } else if str_eq(s, "android") {
            Ok(Platform::Android)
        } else if str_eq(s, "sunos") {
            Ok(Platform::SunOs)
        } else if str_eq(s, "common") {
            Ok(Platform::Common)
        } else {
            let mut m = String::new();
            m.append("invalid platform '");
            m.append(s);
            m.append("' (possible values: linux, macos, osx, windows, android, sunos, common)'");
            Err(m)
        }
    }
}

impl Default for Platform {
    /// The default platform is `common`.
    fn default() -> (r: Self)
        ensures
            r == Platform::Common,
    {
        Platform::Common
    }
}

/// A parsed command line: the optional platform and language overrides
/// and the requested command.
pub struct Cli {
    pub platform: Option<Platform>,
    pub language: Option<String>,
    pub command: Commands,
}

impl Cli {
    /// The platform the command runs against: the override if one was
    /// given, the default otherwise.
    pub fn effective_platform(&self) -> (r: Platform)
        ensures
            self.platform matches Some(p) ==> r == p,
            self.platform is None ==> r == Platform::Common,
    {
        match &self.platform {
            Some(p) => *p,
            None => Platform::Common,
        }
    }

    /// The language the command runs against: the override if one was
    /// given, "en" otherwise.
    pub fn effective_language(&self) -> (r: String)
        ensures
            self.language matches Some(l) ==> r@ == l@,
            self.language is None ==> r@ == "en"@,
    {
        match &self.language {
            Some(l) => l.clone(),
            None => String::from_str("en"),
        }
    }
}

/// The commands the tool offers.
pub enum Commands {
    /// Run an arbitrary command inside the repository.
    Run(Vec<String>),
    /// Create a new page.
    Add { page: String, doc_url: String },
    /// Create an alias page.
    Alias { new_page: String, alias_of: String },
    /// Translate a page.
    Translate { page: String },
    /// Edit a page.
    Edit { page: Vec<String> },
    /// Update the fork's main branch from upstream.
    Update,
    /// Show, switch or create git branches.
    Branch { branch: Option<String> },
    /// Render a page.
    View { page: Vec<String> },
    /// Create a pull request from the current branch.
    PullRequest,
    /// Recreate the configuration.
    Setup,
    /// Remove the repository and the configuration.
    Destroy,
}

} // verus!

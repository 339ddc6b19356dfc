use vstd::prelude::*;

verus! {

/// Whether `semver::Version::parse` accepts `text`.
pub uninterp spec fn semver_version(text: Seq<char>) -> bool;

/// Whether `semver::VersionReq::parse` accepts `text`.
pub uninterp spec fn semver_requirement(text: Seq<char>) -> bool;

/// What `semver::VersionReq::matches` returns for the requirement written
/// `requirement` and the version written `version`.
pub uninterp spec fn semver_matches(requirement: Seq<char>, version: Seq<char>) -> bool;

/// Calls `semver::Version::parse` and tells whether it returned a version.
#[verifier::external_body]
fn version_parses(text: &str) -> (parses: bool)
    ensures
        parses == semver_version(text@),
{
    semver::Version::parse(text).is_ok()
}

/// Calls `semver::VersionReq::parse` and tells whether it returned a
/// requirement.
#[verifier::external_body]
fn requirement_parses(text: &str) -> (parses: bool)
    ensures
        parses == semver_requirement(text@),
{
    semver::VersionReq::parse(text).is_ok()
}

/// Calls `semver::VersionReq::matches` on the requirement and the version
/// that the two texts parse to. Both are texts that parse.
#[verifier::external_body]
fn requirement_matches(requirement: &str, version: &str) -> (matches: bool)
    requires
        semver_requirement(requirement@),
        semver_version(version@),
    ensures
        matches == semver_matches(requirement@, version@),
{
    let requirement = semver::VersionReq::parse(requirement).unwrap();
    let version = semver::Version::parse(version).unwrap();
    requirement.matches(&version)
}

/// The letter `c` in lower case where it is one of `A` to `Z`, else `c`.
pub open spec fn ascii_lowercase(c: char) -> char {
    if 'A' <= c && c <= 'Z' {
        ((c as u8) + 32) as char
    } else {
        c
    }
}

/// Whether two texts are the same but for the case of their ASCII letters.
pub open spec fn same_ignoring_ascii_case(a: Seq<char>, b: Seq<char>) -> bool {
    a.map_values(|c: char| ascii_lowercase(c)) == b.map_values(|c: char| ascii_lowercase(c))
}

/// Calls `str::eq_ignore_ascii_case`, which compares the two texts with
/// the letters `A` to `Z` taken as `a` to `z` and every other character as
/// it is.
#[verifier::external_body]
fn eq_ignore_ascii_case(a: &str, b: &str) -> (same: bool)
    ensures
        same == same_ignoring_ascii_case(a@, b@),
{
    a.eq_ignore_ascii_case(b)
}

/// A semantic version, kept as the text it is written in.
#[derive(Debug, PartialEq, Eq, Hash)]
pub struct Version {
    text: String,
}

impl View for Version {
    type V = Seq<char>;

    closed spec fn view(&self) -> Seq<char> {
        self.text@
    }
}

impl Clone for Version {
    fn clone(&self) -> (copy: Self)
        ensures
            copy == *self,
    {
        proof {
            use_type_invariant(self);
        }
        Version { text: self.text.clone() }
    }
}

impl Version {
    #[verifier::type_invariant]
    spec fn parses(self) -> bool {
        semver_version(self.text@)
    }

    /// The version written `text`, where that is a semantic version.
    pub fn parse(text: &str) -> (version: Option<Version>)
        ensures
            version is Some <==> semver_version(text@),
            version is Some ==> version->0@ == text@,
    {
        if version_parses(text) {
            Some(Version { text: text.to_owned() })
        } else {
            None
        }
    }

    pub fn as_str(&self) -> (text: &str)
        ensures
            text@ == self@,
            semver_version(text@),
    {
        proof {
            use_type_invariant(self);
        }
        self.text.as_str()
    }
}

/// A requirement on versions, kept as the text it is written in.
#[derive(Debug, PartialEq, Eq, Hash)]
pub struct VersionReq {
    text: String,
}

impl View for VersionReq {
    type V = Seq<char>;

    closed spec fn view(&self) -> Seq<char> {
        self.text@
    }
}

impl Clone for VersionReq {
    fn clone(&self) -> (copy: Self)
        ensures
            copy == *self,
    {
        proof {
            use_type_invariant(self);
        }
        VersionReq { text: self.text.clone() }
    }
}

impl VersionReq {
    #[verifier::type_invariant]
    spec fn parses(self) -> bool {
        semver_requirement(self.text@)
    }

    /// The requirement written `text`, where that is a requirement.
    pub fn parse(text: &str) -> (requirement: Option<VersionReq>)
        ensures
            requirement is Some <==> semver_requirement(text@),
            requirement is Some ==> requirement->0@ == text@,
    {
        if requirement_parses(text) {
            Some(VersionReq { text: text.to_owned() })
        } else {
            None
        }
    }

    pub fn as_str(&self) -> (text: &str)
        ensures
            text@ == self@,
            semver_requirement(text@),
    {
        proof {
            use_type_invariant(self);
        }
        self.text.as_str()
    }

    /// Whether `version` satisfies the requirement.
    pub fn matches(&self, version: &Version) -> (matches: bool)
        ensures
            matches == semver_matches(self@, version@),
    {
        requirement_matches(self.as_str(), version.as_str())
    }
}

/// Which property of the server the client cannot work with, and the
/// offending value.
#[derive(Debug, Clone, PartialEq, Eq)]
pub enum RequirementError {
    Game(String),
    CoreVersion(Version),
    ServerVersion(Version),
}

/// What the client requires of a server.
#[derive(Debug, Clone, PartialEq, Eq, Hash)]
pub struct WhistInfoReq {
    pub game: String,
    pub whist_core: VersionReq,
    pub whist_server: VersionReq,
}

impl WhistInfoReq {
    /// The requirement with the given name and the two version
    /// requirements, each of which is written as a requirement.
    pub fn new(game: &str, whist_core: &str, whist_server: &str) -> (requirement: Self)
        requires
            semver_requirement(whist_core@),
            semver_requirement(whist_server@),
        ensures
            requirement.game@ == game@,
            requirement.whist_core@ == whist_core@,
            requirement.whist_server@ == whist_server@,
    {
        Self {
            game: game.to_owned(),
            whist_core: VersionReq { text: whist_core.to_owned() },
            whist_server: VersionReq { text: whist_server.to_owned() },
        }
    }

    /// The requirement with the given name and the two version
    /// requirements, where both are written as requirements.
    pub fn parse(game: &str, whist_core: &str, whist_server: &str) -> (requirement: Option<Self>)
        ensures
            requirement is Some <==> semver_requirement(whist_core@) && semver_requirement(
                whist_server@,
            ),
            requirement is Some ==> {
                &&& requirement->0.game@ == game@
                &&& requirement->0.whist_core@ == whist_core@
                &&& requirement->0.whist_server@ == whist_server@
            },
    {
        if requirement_parses(whist_core) && requirement_parses(whist_server) {
            Some(Self::new(game, whist_core, whist_server))
        } else {
            None
        }
    }
}

/// The properties of a server.
#[derive(Debug, Clone, PartialEq, Eq, Hash)]
pub struct GameInfo {
    /// Name of the game the server runs.
    pub game: String,
    /// Version of the rules core.
    pub whist_core: Version,
    /// Version of the server.
    pub whist_server: Version,
}

/// What a server reports of itself.
#[derive(Debug, Clone, PartialEq, Eq, Hash)]
pub struct WhistInfo {
    pub info: GameInfo,
}

impl WhistInfo {
    /// The report with the given name and the two versions, each of which
    /// is written as a semantic version.
    pub fn new(game: &str, whist_core: &str, whist_server: &str) -> (report: Self)
        requires
            semver_version(whist_core@),
            semver_version(whist_server@),
        ensures
            report.info.game@ == game@,
            report.info.whist_core@ == whist_core@,
            report.info.whist_server@ == whist_server@,
    {
        Self {
            info: GameInfo {
                game: game.to_owned(),
                whist_core: Version { text: whist_core.to_owned() },
                whist_server: Version { text: whist_server.to_owned() },
            },
        }
    }

    /// The report with the given name and the two versions, where both are
    /// written as semantic versions.
    pub fn parse(game: &str, whist_core: &str, whist_server: &str) -> (report: Option<Self>)
        ensures
            report is Some <==> semver_version(whist_core@) && semver_version(whist_server@),
            report is Some ==> {
                &&& report->0.info.game@ == game@
                &&& report->0.info.whist_core@ == whist_core@
                &&& report->0.info.whist_server@ == whist_server@
            },
    {
        if version_parses(whist_core) && version_parses(whist_server) {
            Some(Self::new(game, whist_core, whist_server))
        } else {
            None
        }
    }

    /// Which requirement the report fails first, in the order game, core,
    /// server; `None` where it meets all three.
    pub open spec fn failure(self, requirement: WhistInfoReq) -> Option<RequirementError> {
        if !same_ignoring_ascii_case(requirement.game@, self.info.game@) {
            Some(RequirementError::Game(self.info.game))
        } else if !semver_matches(requirement.whist_core@, self.info.whist_core@) {
            Some(RequirementError::CoreVersion(self.info.whist_core))
        } else if !semver_matches(requirement.whist_server@, self.info.whist_server@) {
            Some(RequirementError::ServerVersion(self.info.whist_server))
        } else {
            None
        }
    }

    /// Holds the report against `requirement`: the name of the game must
    /// be the required one but for the case of its letters, and each of
    /// the two versions must satisfy its requirement.
    pub fn check_validity(self, requirement: &WhistInfoReq) -> (checked: Result<
        WhistInfo,
        RequirementError,
    >)
        ensures
            checked == match self.failure(*requirement) {
                Some(error) => Err::<WhistInfo, RequirementError>(error),
                None => Ok(self),
            },
    {
        if !eq_ignore_ascii_case(requirement.game.as_str(), self.info.game.as_str()) {
            Err(RequirementError::Game(self.info.game))
        } else if !requirement.whist_core.matches(&self.info.whist_core) {
            Err(RequirementError::CoreVersion(self.info.whist_core))
        } else if !requirement.whist_server.matches(&self.info.whist_server) {
            Err(RequirementError::ServerVersion(self.info.whist_server))
        } else {
            Ok(self)
        }
    }
}

} // verus!

//! Where the sources of a library come from (a git repository, a local
//! path, a tar archive, or several of these), and how the file of a
//! compiled library is recognised.
use vstd::prelude::*;
use crate::platform::OperatingSystem;
use crate::paths::{joined, join, file_name, file_name_of};
use crate::text::{concat, concat3, copy_str, contains, str_contains, eq_ignore_ascii_case,
    str_eq_ignore_ascii_case, views};

verus! {

/// Which git revision of a repository to build.
#[derive(Debug, Clone)]
pub enum GitVersion {
    Tag(String),
    Commit(String),
    Branch(String),
    Latest,
}

/// A git repository with the revision to check out and an optional
/// directory (below the third-party directory) to clone it into.
#[derive(Debug, Clone)]
pub struct GitLocation {
    pub repository: String,
    pub version: GitVersion,
    pub directory: Option<String>,
}

/// Sources that are already on disk.
#[derive(Debug, Clone)]
pub struct PathLocation {
    pub path: String,
}

/// The compression of a tar archive.
#[derive(Debug, Clone, Copy, PartialEq, Eq, Structural)]
pub enum TarArchive {
    Gz,
    Xz,
}

/// A tar archive to download, with the folder inside it that holds the
/// sources.
#[derive(Debug, Clone)]
pub struct TarUrlLocation {
    pub url: String,
    pub archive: TarArchive,
    pub sources: Option<String>,
}

/// Where the sources of a library come from.
#[derive(Debug)]
pub enum LibraryLocation {
    Git(GitLocation),
    Path(PathLocation),
    Tar(TarUrlLocation),
    Multiple(Vec<LibraryLocation>),
}

/// Why the sources of a library could not be made ready.
#[derive(Debug, Clone)]
pub enum SourcesError {
    /// Cloning the repository failed.
    CloneFailed(String),
    /// Checking out the revision of the repository failed: why, naming the
    /// revision and the repository.
    CheckoutFailed(String),
    /// The sources directory of a path location does not exist.
    SourcesMissing(String),
}

/// The serialisation of the URL that `Url::parse` makes of a text; `None`
/// when the text is no URL.
pub uninterp spec fn parsed_url(text: Seq<char>) -> Option<Seq<char>>;

/// The text of an optional string.
pub open spec fn opt_string_text(text: Option<String>) -> Option<Seq<char>> {
    match text {
        Some(t) => Some(t@),
        None => None,
    }
}

/// Parses the text with `url::Url::parse` and serialises the URL with
/// `Url::as_str`. The contract claims only that the result depends on the
/// text alone.
#[verifier::external_body]
fn parse_url(text: &str) -> (result: Option<String>)
    ensures
        opt_string_text(result) == parsed_url(text@),
{
    match url::Url::parse(text) {
        Ok(url) => Some(url.as_str().to_owned()),
        Err(_) => None,
    }
}

/// The repository text a location keeps for a repository known to the
/// library: its URL serialised, or the text itself when it is no URL.
pub open spec fn repository_text(repository: Seq<char>) -> Seq<char> {
    match parsed_url(repository) {
        Some(url) => url,
        None => repository,
    }
}

impl GitLocation {
    /// The latest revision of a repository, cloned into the default
    /// directory; `None` when the repository is no URL.
    pub fn new(repository: &str) -> (result: Option<Self>)
        ensures
            match parsed_url(repository@) {
                None => result is None,
                Some(url) => result matches Some(location) && {
                    &&& location.repository@ == url
                    &&& location.version is Latest
                    &&& location.directory is None
                },
            },
    {
        match parse_url(repository) {
            None => None,
            Some(url) => Some(GitLocation { repository: url, version: GitVersion::Latest, directory: None }),
        }
    }

    /// The latest revision of a repository that the library names itself,
    /// cloned into the default directory. Where the text is no URL it is
    /// kept as it is, and git is left to refuse it.
    pub(crate) fn known(repository: &str) -> (result: Self)
        ensures
            result.repository@ == repository_text(repository@),
            result.version is Latest,
            result.directory is None,
    {
        match parse_url(repository) {
            None => GitLocation { repository: copy_str(repository), version: GitVersion::Latest, directory: None },
            Some(url) => GitLocation { repository: url, version: GitVersion::Latest, directory: None },
        }
    }

    /// The same repository at the given commit.
    pub fn commit(self, commit: String) -> (result: Self)
        ensures
            result.repository == self.repository,
            result.version matches GitVersion::Commit(c) && c == commit,
            result.directory == self.directory,
    {
        GitLocation { repository: self.repository, version: GitVersion::Commit(commit), directory: self.directory }
    }

    /// The same repository on the given branch.
    pub fn branch(self, branch: String) -> (result: Self)
        ensures
            result.repository == self.repository,
            result.version matches GitVersion::Branch(b) && b == branch,
            result.directory == self.directory,
    {
        GitLocation { repository: self.repository, version: GitVersion::Branch(branch), directory: self.directory }
    }

    /// The same repository at the given tag.
    pub fn tag(self, tag: String) -> (result: Self)
        ensures
            result.repository == self.repository,
            result.version matches GitVersion::Tag(t) && t == tag,
            result.directory == self.directory,
    {
        GitLocation { repository: self.repository, version: GitVersion::Tag(tag), directory: self.directory }
    }

    /// The same repository cloned into the given directory.
    pub fn directory(self, directory: String) -> (result: Self)
        ensures
            result.repository == self.repository,
            result.version == self.version,
            result.directory == Some(directory),
    {
        GitLocation { repository: self.repository, version: self.version, directory: Some(directory) }
    }

    /// The directory the repository is cloned into: the custom directory
    /// when there is one, the default source directory otherwise, taken
    /// below the third-party directory.
    pub open spec fn source_directory_of(&self, third_party: Seq<char>, default_source: Seq<char>) -> Seq<char> {
        match self.directory {
            Some(d) => joined(third_party, d@),
            None => joined(third_party, default_source),
        }
    }

    /// The directory the repository is cloned into.
    pub fn source_directory(&self, third_party_directory: &str, default_source_directory: &str) -> (result: String)
        ensures
            result@ == self.source_directory_of(third_party_directory@, default_source_directory@),
    {
        match &self.directory {
            Some(d) => join(third_party_directory, d.as_str()),
            None => join(third_party_directory, default_source_directory),
        }
    }

    /// The git arguments that clone the repository into a directory.
    pub fn clone_arguments(&self, source_directory: &str) -> (result: Vec<String>)
        ensures
            views(result@) == seq!["clone"@, self.repository@, source_directory@],
    {
        let result = vec![copy_str("clone"), self.repository.clone(), copy_str(source_directory)];
        assert(views(result@) =~= seq!["clone"@, self.repository@, source_directory@]);
        result
    }

    /// The git arguments that bring the clone to the wanted revision: a
    /// checkout of the tag, commit or branch, or a pull for the latest one.
    pub fn checkout_arguments(&self) -> (result: Vec<String>)
        ensures
            views(result@) == checkout_arguments_of(self.version),
            self.version matches GitVersion::Branch(b) ==> views(result@) == seq!["checkout"@, b@],
            self.version matches GitVersion::Commit(c) ==> views(result@) == seq!["checkout"@, c@],
            self.version matches GitVersion::Tag(t) ==> views(result@) == seq!["checkout"@, "tags/"@ + t@],
            self.version is Latest ==> views(result@) == seq!["pull"@],
    {
        let result = match &self.version {
            GitVersion::Tag(tag) => vec![copy_str("checkout"), concat("tags/", tag.as_str())],
            GitVersion::Commit(commit) => vec![copy_str("checkout"), commit.clone()],
            GitVersion::Branch(branch) => vec![copy_str("checkout"), branch.clone()],
            GitVersion::Latest => vec![copy_str("pull")],
        };
        assert(views(result@) =~= checkout_arguments_of(self.version));
        result
    }

    /// Why the checkout failed: the revision and the repository.
    pub fn checkout_failure(&self) -> (result: String)
        ensures
            result@ == checkout_failure_of(self.version, self.repository@),
    {
        let revision = match &self.version {
            GitVersion::Tag(t) => concat("tag ", t.as_str()),
            GitVersion::Commit(c) => concat("commit ", c.as_str()),
            GitVersion::Branch(b) => concat("branch ", b.as_str()),
            GitVersion::Latest => copy_str("the latest revision"),
        };
        let mut message = concat3("Could not checkout ", revision.as_str(), " of ");
        message.append(self.repository.as_str());
        message
    }

    /// One step of making the repository's sources ready. At `Start` the
    /// outcome says whether the source directory exists: if not, it is
    /// cloned first. At every later stage it says whether the last git
    /// command succeeded. A failed clone or checkout ends with its error;
    /// the outcome of cleaning and fetching is not looked at. The sources
    /// are cleaned, all branches and tags fetched, and the wanted revision
    /// checked out.
    pub fn ensure_sources_step(&self, stage: GitSourcesStage, source_directory: &str, outcome: bool) -> (result: (
        GitSourcesStage,
        GitSourcesAction,
    ))
        requires
            stage != GitSourcesStage::Done,
        ensures
            result.0 == git_next_stage(stage, outcome),
            match git_next_action(stage, outcome) {
                GitStepView::Run(arguments) => result.1 matches GitSourcesAction::Run(a) && views(a@) == arguments(
                    self.repository@,
                    self.version,
                    source_directory@,
                ),
                GitStepView::CloneFailed => result.1 matches GitSourcesAction::Finish(Err(SourcesError::CloneFailed(r)))
                    && r@ == self.repository@,
                GitStepView::CheckoutFailed => result.1 matches GitSourcesAction::Finish(
                    Err(SourcesError::CheckoutFailed(r)),
                ) && r@ == checkout_failure_of(self.version, self.repository@),
                GitStepView::Ready => result.1 matches GitSourcesAction::Finish(Ok(())),
            },
    {
        match stage {
            GitSourcesStage::Start => {
                if outcome {
                    (GitSourcesStage::Cleaning, GitSourcesAction::Run(clean_arguments()))
                } else {
                    (GitSourcesStage::Cloning, GitSourcesAction::Run(self.clone_arguments(source_directory)))
                }
            },
            GitSourcesStage::Cloning => {
                if outcome {
                    (GitSourcesStage::Cleaning, GitSourcesAction::Run(clean_arguments()))
                } else {
                    (
                        GitSourcesStage::Done,
                        GitSourcesAction::Finish(Err(SourcesError::CloneFailed(self.repository.clone()))),
                    )
                }
            },
            GitSourcesStage::Cleaning => (GitSourcesStage::Fetching, GitSourcesAction::Run(fetch_arguments())),
            GitSourcesStage::Fetching => (GitSourcesStage::CheckingOut, GitSourcesAction::Run(self.checkout_arguments())),
            _ => {
                if outcome {
                    (GitSourcesStage::Done, GitSourcesAction::Finish(Ok(())))
                } else {
                    (
                        GitSourcesStage::Done,
                        GitSourcesAction::Finish(Err(SourcesError::CheckoutFailed(self.checkout_failure()))),
                    )
                }
            },
        }
    }
}

/// A library copied under its platform file name into any directory is
/// recognised as that library by the default name.
pub proof fn lemma_copied_library_is_recognised(os: OperatingSystem, directory: Seq<char>, name: Seq<char>)
    requires
        !name.contains('/'),
    ensures
        CompiledLibraryName::Default.matches_spec(os, name, joined(directory, library_file_name(os, name))),
{
    let file = library_file_name(os, name);
    reveal_strlit(".dll");
    reveal_strlit("lib");
    reveal_strlit(".dylib");
    reveal_strlit(".so");
    assert(!file.contains('/')) by {
        if file.contains('/') {
            let k = choose|k: int| 0 <= k < file.len() && file[k] == '/';
            if os == OperatingSystem::Windows {
                if k < name.len() {
                    assert(name[k] == '/');
                }
            } else if os == OperatingSystem::MacOs || os == OperatingSystem::Ios {
                if 3 <= k < 3 + name.len() {
                    assert(name[k - 3] == '/');
                }
            } else {
                if 3 <= k < 3 + name.len() {
                    assert(name[k - 3] == '/');
                }
            }
        }
    }
    assert(file.len() > 2);
    assert(file != seq!['.']);
    assert(file != seq!['.', '.']);
    crate::paths::lemma_join_then_split(directory, file);
}

/// The revision of a repository as a failed checkout names it.
pub open spec fn revision_text(version: GitVersion) -> Seq<char> {
    match version {
        GitVersion::Tag(t) => "tag "@ + t@,
        GitVersion::Commit(c) => "commit "@ + c@,
        GitVersion::Branch(b) => "branch "@ + b@,
        GitVersion::Latest => "the latest revision"@,
    }
}

/// Why a checkout failed: the revision and the repository.
pub open spec fn checkout_failure_of(version: GitVersion, repository: Seq<char>) -> Seq<char> {
    "Could not checkout "@ + revision_text(version) + " of "@ + repository
}

/// The arguments of the git command that brings a clone to a revision.
pub open spec fn checkout_arguments_of(version: GitVersion) -> Seq<Seq<char>> {
    match version {
        GitVersion::Tag(t) => seq!["checkout"@, "tags/"@ + t@],
        GitVersion::Commit(c) => seq!["checkout"@, c@],
        GitVersion::Branch(b) => seq!["checkout"@, b@],
        GitVersion::Latest => seq!["pull"@],
    }
}

/// Git is asked for a branch or a commit by its own name, and for a tag
/// under `tags/`: a branch and a commit of the same name check out the same
/// thing, a tag of that name differs from them only by the `tags/` prefix,
/// and every checkout names the revision last. Only the latest revision is
/// pulled instead.
pub proof fn law_only_tags_are_checked_out_under_tags(name: String)
    ensures
        checkout_arguments_of(GitVersion::Branch(name)) == seq!["checkout"@, name@],
        checkout_arguments_of(GitVersion::Branch(name)) == checkout_arguments_of(GitVersion::Commit(name)),
        checkout_arguments_of(GitVersion::Tag(name)).len() == 2,
        checkout_arguments_of(GitVersion::Tag(name))[0] == checkout_arguments_of(GitVersion::Branch(name))[0],
        checkout_arguments_of(GitVersion::Tag(name))[1] == "tags/"@ + checkout_arguments_of(GitVersion::Branch(name))[1],
        checkout_arguments_of(GitVersion::Latest) == seq!["pull"@],
{
}

/// Where the preparation of a repository's sources stands.
#[derive(Debug, Clone, Copy, PartialEq, Eq, Structural)]
pub enum GitSourcesStage {
    /// Nothing was done yet.
    Start,
    /// The repository is being cloned.
    Cloning,
    /// The clone is being cleaned.
    Cleaning,
    /// Branches and tags are being fetched.
    Fetching,
    /// The revision is being checked out.
    CheckingOut,
    /// The sources are ready, or could not be made ready.
    Done,
}

/// What to do after a step of preparing a repository's sources.
#[derive(Debug)]
pub enum GitSourcesAction {
    /// Run git with these arguments in the source directory.
    Run(Vec<String>),
    /// Stop, with this outcome.
    Finish(Result<(), SourcesError>),
}

/// The kind of action a step leads to.
pub enum GitStepView {
    /// Run git with the arguments computed from the repository, its
    /// revision and the source directory.
    Run(spec_fn(Seq<char>, GitVersion, Seq<char>) -> Seq<Seq<char>>),
    CloneFailed,
    CheckoutFailed,
    Ready,
}

/// The stage after a step.
pub open spec fn git_next_stage(stage: GitSourcesStage, outcome: bool) -> GitSourcesStage {
    match stage {
        GitSourcesStage::Start => if outcome { GitSourcesStage::Cleaning } else { GitSourcesStage::Cloning },
        GitSourcesStage::Cloning => if outcome { GitSourcesStage::Cleaning } else { GitSourcesStage::Done },
        GitSourcesStage::Cleaning => GitSourcesStage::Fetching,
        GitSourcesStage::Fetching => GitSourcesStage::CheckingOut,
        _ => GitSourcesStage::Done,
    }
}

/// The action after a step.
pub open spec fn git_next_action(stage: GitSourcesStage, outcome: bool) -> GitStepView {
    match stage {
        GitSourcesStage::Start => if outcome {
            GitStepView::Run(|r: Seq<char>, v: GitVersion, d: Seq<char>| seq!["clean"@, "-fdx"@])
        } else {
            GitStepView::Run(|r: Seq<char>, v: GitVersion, d: Seq<char>| seq!["clone"@, r, d])
        },
        GitSourcesStage::Cloning => if outcome {
            GitStepView::Run(|r: Seq<char>, v: GitVersion, d: Seq<char>| seq!["clean"@, "-fdx"@])
        } else {
            GitStepView::CloneFailed
        },
        GitSourcesStage::Cleaning => GitStepView::Run(
            |r: Seq<char>, v: GitVersion, d: Seq<char>| seq!["fetch"@, "--all"@, "--tags"@],
        ),
        GitSourcesStage::Fetching => GitStepView::Run(
            |r: Seq<char>, v: GitVersion, d: Seq<char>| checkout_arguments_of(v),
        ),
        _ => if outcome { GitStepView::Ready } else { GitStepView::CheckoutFailed },
    }
}

/// The stage reached from `stage` after steps with the given outcomes.
pub open spec fn git_stage_after(stage: GitSourcesStage, outcomes: Seq<bool>) -> GitSourcesStage
    decreases outcomes.len(),
{
    if outcomes.len() == 0 {
        stage
    } else {
        git_stage_after(git_next_stage(stage, outcomes[0]), outcomes.skip(1))
    }
}

/// Making a repository's sources ready takes at most five steps, whatever
/// their outcomes: clone, clean, fetch and check out.
pub proof fn lemma_git_sources_end(outcomes: Seq<bool>)
    requires
        outcomes.len() == 5,
    ensures
        git_stage_after(GitSourcesStage::Start, outcomes) == GitSourcesStage::Done,
{
    reveal_with_fuel(git_stage_after, 6);
    let s1 = outcomes.skip(1);
    let s2 = s1.skip(1);
    let s3 = s2.skip(1);
    let s4 = s3.skip(1);
    assert(s1[0] == outcomes[1]);
    assert(s2[0] == outcomes[2]);
    assert(s3[0] == outcomes[3]);
    assert(s4[0] == outcomes[4]);
    assert(s4.skip(1).len() == 0);
}

/// The git arguments that remove everything untracked from a clone.
fn clean_arguments() -> (result: Vec<String>)
    ensures
        views(result@) == seq!["clean"@, "-fdx"@],
{
    let result = vec![copy_str("clean"), copy_str("-fdx")];
    assert(views(result@) =~= seq!["clean"@, "-fdx"@]);
    result
}

/// The git arguments that fetch all branches and tags.
fn fetch_arguments() -> (result: Vec<String>)
    ensures
        views(result@) == seq!["fetch"@, "--all"@, "--tags"@],
{
    let result = vec![copy_str("fetch"), copy_str("--all"), copy_str("--tags")];
    assert(views(result@) =~= seq!["fetch"@, "--all"@, "--tags"@]);
    result
}

impl PathLocation {
    /// Sources at the given path.
    pub fn new(path: String) -> (result: Self)
        ensures
            result.path == path,
    {
        PathLocation { path }
    }

    /// The sources are ready when the default source directory exists.
    pub fn ensure_sources(&self, source_directory_exists: bool) -> (result: Result<(), SourcesError>)
        ensures
            source_directory_exists ==> result is Ok,
            !source_directory_exists ==> (result matches Err(SourcesError::SourcesMissing(p)) && p@ == self.path@),
    {
        if !source_directory_exists {
            return Err(SourcesError::SourcesMissing(self.path.clone()));
        }
        Ok(())
    }
}

impl TarUrlLocation {
    /// A gzip tar archive at the given address whose sources are at its root.
    pub fn new(url: String) -> (result: Self)
        ensures
            result.url == url,
            result.archive == TarArchive::Gz,
            result.sources is None,
    {
        TarUrlLocation { url, archive: TarArchive::Gz, sources: None }
    }

    /// The same archive with the given compression.
    pub fn archive(self, archive: TarArchive) -> (result: Self)
        ensures
            result.url == self.url,
            result.archive == archive,
            result.sources == self.sources,
    {
        TarUrlLocation { url: self.url, archive, sources: self.sources }
    }

    /// The same archive whose sources are in the given folder.
    pub fn sources(self, folder: String) -> (result: Self)
        ensures
            result.url == self.url,
            result.archive == self.archive,
            result.sources == Some(folder),
    {
        TarUrlLocation { url: self.url, archive: self.archive, sources: Some(folder) }
    }

    /// The folder, once the archive is unpacked into the source directory,
    /// whose contents are moved up into the source directory and which is
    /// then removed: the archive's sources folder, if it has one.
    pub fn unpacked_sources_directory(&self, source_directory: &str) -> (result: Option<String>)
        ensures
            match self.sources {
                Some(s) => result matches Some(r) && r@ == joined(source_directory@, s@),
                None => result is None,
            },
    {
        match &self.sources {
            Some(s) => Some(join(source_directory, s.as_str())),
            None => None,
        }
    }
}

/// How the file of a compiled library is recognised.
#[derive(Debug, Clone)]
pub enum CompiledLibraryName {
    /// The platform's file name for the library's own name.
    Default,
    /// A platform library file whose name holds the given text.
    Matching(String),
}

/// The file extension of shared libraries on a platform.
pub open spec fn library_ending(os: OperatingSystem) -> Seq<char> {
    match os {
        OperatingSystem::Windows => "dll"@,
        OperatingSystem::MacOs | OperatingSystem::Ios => "dylib"@,
        _ => "so"@,
    }
}

/// The file name of the shared library `name` on a platform.
pub open spec fn library_file_name(os: OperatingSystem, name: Seq<char>) -> Seq<char> {
    match os {
        OperatingSystem::Windows => name + ".dll"@,
        OperatingSystem::MacOs | OperatingSystem::Ios => "lib"@ + name + ".dylib"@,
        _ => "lib"@ + name + ".so"@,
    }
}

impl CompiledLibraryName {
    /// The file extension of shared libraries on a platform.
    pub fn platform_library_ending(&self, os: OperatingSystem) -> (result: String)
        ensures
            result@ == library_ending(os),
    {
        match os {
            OperatingSystem::Windows => copy_str("dll"),
            OperatingSystem::MacOs | OperatingSystem::Ios => copy_str("dylib"),
            _ => copy_str("so"),
        }
    }

    /// The file name of the shared library `name` on a platform.
    pub fn platform_library_name(&self, os: OperatingSystem, name: &str) -> (result: String)
        ensures
            result@ == library_file_name(os, name@),
    {
        match os {
            OperatingSystem::Windows => concat(name, ".dll"),
            OperatingSystem::MacOs | OperatingSystem::Ios => concat3("lib", name, ".dylib"),
            _ => concat3("lib", name, ".so"),
        }
    }

    /// The file name a compiled library is copied to.
    pub fn file_name(&self, os: OperatingSystem, library_name: &str) -> (result: String)
        ensures
            result@ == library_file_name(os, library_name@),
    {
        self.platform_library_name(os, library_name)
    }

    /// Whether the file at `path` is the compiled library `library_name`.
    pub open spec fn matches_spec(&self, os: OperatingSystem, library_name: Seq<char>, path: Seq<char>) -> bool {
        match file_name_of(path) {
            None => false,
            Some(actual) => match self {
                CompiledLibraryName::Default => eq_ignore_ascii_case(
                    actual,
                    library_file_name(os, library_name),
                ),
                CompiledLibraryName::Matching(substring) => contains(
                    actual,
                    seq!['.'] + library_ending(os),
                ) && contains(actual, substring@),
            },
        }
    }

    /// Whether the file at `path` is the compiled library `library_name`:
    /// its file name is the platform's name for the library, without regard
    /// to ASCII case, or it is a shared library file whose name holds the
    /// text to match.
    pub fn matches(&self, os: OperatingSystem, library_name: &str, path: &str) -> (result: bool)
        ensures
            result == self.matches_spec(os, library_name@, path@),
    {
        match file_name(path) {
            None => false,
            Some(actual) => match self {
                CompiledLibraryName::Default => {
                    let expected = self.platform_library_name(os, library_name);
                    str_eq_ignore_ascii_case(actual.as_str(), expected.as_str())
                },
                CompiledLibraryName::Matching(substring) => {
                    let ending = concat(".", self.platform_library_ending(os).as_str());
                    proof {
                        reveal_strlit(".");
                    }
                    assert(ending@ =~= seq!['.'] + library_ending(os));
                    str_contains(actual.as_str(), ending.as_str()) && str_contains(
                        actual.as_str(),
                        substring.as_str(),
                    )
                },
            },
        }
    }
}

} // verus!

//! The options of a bundle build: those given on the command line, the
//! resolved ones with their defaults, the options of a whole bundle and
//! those of one executable in it.
use vstd::prelude::*;
use crate::platform::OperatingSystem;
use crate::paths::{joined, join};
use crate::text::{copy_str, concat, concat3};
use crate::bindings::parameters::copy_strings;
use super::target::{Target, ThirdPartyLibrary, target_name};
use super::library::Library;

verus! {

/// The options given on the command line.
#[derive(Debug, Clone)]
pub struct BuildOptions {
    /// The level of verbosity.
    pub verbose: i32,
    /// Whether to bundle a release build.
    pub release: bool,
    /// Whether to split the build over several threads.
    pub multi_threaded: bool,
    /// The target to cross-compile for.
    pub target: Option<Target>,
    /// The root of cargo's build directory.
    pub target_dir: Option<String>,
    /// The name of the app.
    pub app_name: Option<String>,
    /// Where the bundle is placed.
    pub bundle_dir: Option<String>,
    /// A plist file to bundle (MacOS only).
    pub plist_file: Option<String>,
    /// The name of the executable.
    pub executable_name: Option<String>,
    /// The version to build, as `X.Y.Z` or `vX.Y.Z`.
    pub version: Option<String>,
    /// The app identifier in reverse domain notation.
    pub identifier: Option<String>,
    /// The author of the app.
    pub author: Option<String>,
    /// Icons of different sizes.
    pub icons: Option<Vec<String>>,
    /// The third-party libraries to include.
    pub libraries: Option<Vec<ThirdPartyLibrary>>,
    /// The virtual machine that runs the VMMaker.
    pub vmmaker_vm: Option<String>,
}

impl Default for BuildOptions {
    fn default() -> (result: Self)
        ensures
            result.verbose == 0,
            !result.release,
            !result.multi_threaded,
            result.target is None,
            result.target_dir is None,
            result.app_name is None,
            result.bundle_dir is None,
            result.plist_file is None,
            result.executable_name is None,
            result.version is None,
            result.identifier is None,
            result.author is None,
            result.icons is None,
            result.libraries is None,
            result.vmmaker_vm is None,
    {
        BuildOptions {
            verbose: 0,
            release: false,
            multi_threaded: false,
            target: None,
            target_dir: None,
            app_name: None,
            bundle_dir: None,
            plist_file: None,
            executable_name: None,
            version: None,
            identifier: None,
            author: None,
            icons: None,
            libraries: None,
            vmmaker_vm: None,
        }
    }
}

/// The text of an optional string.
pub open spec fn opt_view(s: Option<String>) -> Option<Seq<char>> {
    match s {
        Some(t) => Some(t@),
        None => None,
    }
}

/// Borrows the text of an optional string.
pub fn opt_str(s: &Option<String>) -> (result: Option<&str>)
    ensures
        result matches Some(r) ==> (s matches Some(t) && r@ == t@),
        result is None ==> s is None,
{
    match s {
        Some(t) => Some(t.as_str()),
        None => None,
    }
}

impl BuildOptions {
    /// The target: the given one, or the host's.
    pub fn target(&self, host: Target) -> (result: Target)
        ensures
            result == (match self.target {
                Some(t) => t,
                None => host,
            }),
    {
        match self.target {
            Some(t) => t,
            None => host,
        }
    }

    pub fn target_dir(&self) -> (result: Option<&str>)
        ensures
            opt_view(self.target_dir) == (match result {
                Some(r) => Some(r@),
                None => None::<Seq<char>>,
            }),
    {
        opt_str(&self.target_dir)
    }

    pub fn bundle_dir(&self) -> (result: Option<&str>)
        ensures
            opt_view(self.bundle_dir) == (match result {
                Some(r) => Some(r@),
                None => None::<Seq<char>>,
            }),
    {
        opt_str(&self.bundle_dir)
    }

    pub fn vmmaker_vm(&self) -> (result: Option<&str>)
        ensures
            opt_view(self.vmmaker_vm) == (match result {
                Some(r) => Some(r@),
                None => None::<Seq<char>>,
            }),
    {
        opt_str(&self.vmmaker_vm)
    }

    pub fn app_name(&self) -> (result: Option<&str>)
        ensures
            opt_view(self.app_name) == (match result {
                Some(r) => Some(r@),
                None => None::<Seq<char>>,
            }),
    {
        opt_str(&self.app_name)
    }

    pub fn identifier(&self) -> (result: Option<&str>)
        ensures
            opt_view(self.identifier) == (match result {
                Some(r) => Some(r@),
                None => None::<Seq<char>>,
            }),
    {
        opt_str(&self.identifier)
    }

    pub fn executable_name(&self) -> (result: Option<&str>)
        ensures
            opt_view(self.executable_name) == (match result {
                Some(r) => Some(r@),
                None => None::<Seq<char>>,
            }),
    {
        opt_str(&self.executable_name)
    }

    pub fn version(&self) -> (result: Option<&str>)
        ensures
            opt_view(self.version) == (match result {
                Some(r) => Some(r@),
                None => None::<Seq<char>>,
            }),
    {
        opt_str(&self.version)
    }

    pub fn verbose(&self) -> (result: i32)
        ensures
            result == self.verbose,
    {
        self.verbose
    }

    pub fn release(&self) -> (result: bool)
        ensures
            result == self.release,
    {
        self.release
    }

    pub fn multi_threaded(&self) -> (result: bool)
        ensures
            result == self.multi_threaded,
    {
        self.multi_threaded
    }

    pub fn icons(&self) -> (result: Option<&Vec<String>>)
        ensures
            match self.icons {
                Some(i) => result == Some(&i),
                None => result is None,
            },
    {
        self.icons.as_ref()
    }

    pub fn libraries(&self) -> (result: Option<&Vec<ThirdPartyLibrary>>)
        ensures
            match self.libraries {
                Some(l) => result == Some(&l),
                None => result is None,
            },
    {
        self.libraries.as_ref()
    }
}

/// The name of cargo's build directory.
pub open spec fn default_build_dir() -> Seq<char> {
    "target"@
}

/// The extension of executables on a platform.
pub open spec fn extension_of_executables(os: OperatingSystem) -> Option<Seq<char>> {
    if os == OperatingSystem::Windows {
        Some("exe"@)
    } else {
        None
    }
}

/// A name with the platform's executable extension, if it has one.
pub open spec fn with_extension(name: Seq<char>, os: OperatingSystem) -> Seq<char> {
    match extension_of_executables(os) {
        Some(e) => name + "."@ + e,
        None => name,
    }
}

/// Adds the platform's executable extension to a name.
pub fn add_executable_extension(name: String, os: OperatingSystem) -> (result: String)
    ensures
        result@ == with_extension(name@, os),
{
    if os == OperatingSystem::Windows {
        concat3(name.as_str(), ".", "exe")
    } else {
        name
    }
}

/// The options with every default resolved.
#[derive(Debug)]
pub struct ResolvedOptions {
    options: BuildOptions,
    workspace_directory: Option<String>,
    target_dir: String,
    target: Target,
    identifier: String,
    app_name: String,
    executable_name: String,
    icons: Vec<String>,
    libraries: Vec<Library>,
    os: OperatingSystem,
}

impl ResolvedOptions {
    pub closed spec fn options_view(&self) -> BuildOptions {
        self.options
    }

    pub closed spec fn workspace_view(&self) -> Option<Seq<char>> {
        opt_view(self.workspace_directory)
    }

    pub closed spec fn target_dir_view(&self) -> Seq<char> {
        self.target_dir@
    }

    pub closed spec fn target_view(&self) -> Target {
        self.target
    }

    pub closed spec fn identifier_view(&self) -> Seq<char> {
        self.identifier@
    }

    pub closed spec fn app_name_view(&self) -> Seq<char> {
        self.app_name@
    }

    pub closed spec fn executable_name_view(&self) -> Seq<char> {
        self.executable_name@
    }

    pub closed spec fn icons_view(&self) -> Seq<String> {
        self.icons@
    }

    pub closed spec fn libraries_view(&self) -> Seq<Library> {
        self.libraries@
    }

    pub closed spec fn os_view(&self) -> OperatingSystem {
        self.os
    }

    /// Resolves the options given on the command line. The build directory
    /// defaults to `target` in the workspace (or in the current directory),
    /// the target to the host, the app name to `VM`, and the identifier and
    /// the executable name to the app name.
    pub fn new(
        options: BuildOptions,
        workspace_directory: Option<String>,
        host: Target,
        os: OperatingSystem,
    ) -> (result: Self)
        ensures
            result.options_view() == options,
            result.workspace_view() == opt_view(workspace_directory),
            result.target_dir_view() == (match options.target_dir {
                Some(d) => d@,
                None => match workspace_directory {
                    Some(w) => joined(w@, default_build_dir()),
                    None => default_build_dir(),
                },
            }),
            result.target_view() == (match options.target {
                Some(t) => t,
                None => host,
            }),
            result.app_name_view() == (match options.app_name {
                Some(n) => n@,
                None => "VM"@,
            }),
            result.identifier_view() == (match options.identifier {
                Some(i) => i@,
                None => result.app_name_view(),
            }),
            result.executable_name_view() == (match options.executable_name {
                Some(n) => n@,
                None => result.app_name_view(),
            }),
            result.icons_view() == (match options.icons {
                Some(i) => i@,
                None => Seq::<String>::empty(),
            }),
            result.libraries_view().len() == (match options.libraries {
                Some(l) => l@.len(),
                None => 0,
            }),
            forall|i: int| 0 <= i < result.libraries_view().len() ==> (#[trigger] result.libraries_view()[i]).name_view()
                == super::definitions::third_party_library_name(options.libraries->0@[i]),
            result.os_view() == os,
    {
        let target_dir = match &options.target_dir {
            Some(d) => d.clone(),
            None => match &workspace_directory {
                Some(w) => join(w.as_str(), "target"),
                None => copy_str("target"),
            },
        };
        let target = options.target(host);
        let app_name = match &options.app_name {
            Some(n) => n.clone(),
            None => copy_str("VM"),
        };
        let identifier = match &options.identifier {
            Some(i) => i.clone(),
            None => app_name.clone(),
        };
        let executable_name = match &options.executable_name {
            Some(n) => n.clone(),
            None => app_name.clone(),
        };
        let icons = match &options.icons {
            Some(i) => i.clone(),
            None => Vec::new(),
        };
        let mut libraries: Vec<Library> = Vec::new();
        match &options.libraries {
            Some(requested) => {
                let mut k: usize = 0;
                while k < requested.len()
                    invariant
                        k <= requested@.len(),
                        libraries@.len() == k,
                        forall|i: int| 0 <= i < k ==> (#[trigger] libraries@[i]).name_view()
                            == super::definitions::third_party_library_name(requested@[i]),
                    decreases requested@.len() - k,
                {
                    libraries.push(requested[k].as_library(os));
                    k = k + 1;
                }
            },
            None => {},
        }
        ResolvedOptions {
            options,
            workspace_directory,
            target_dir,
            target,
            identifier,
            app_name,
            executable_name,
            icons,
            libraries,
            os,
        }
    }

    pub fn target(&self) -> (result: &Target)
        ensures
            *result == self.target_view(),
    {
        &self.target
    }

    pub fn target_dir(&self) -> (result: &str)
        ensures
            result@ == self.target_dir_view(),
    {
        self.target_dir.as_str()
    }

    pub fn identifier(&self) -> (result: &str)
        ensures
            result@ == self.identifier_view(),
    {
        self.identifier.as_str()
    }

    pub fn app_name(&self) -> (result: &str)
        ensures
            result@ == self.app_name_view(),
    {
        self.app_name.as_str()
    }

    pub fn executable_name(&self) -> (result: &str)
        ensures
            result@ == self.executable_name_view(),
    {
        self.executable_name.as_str()
    }

    /// The extension of executables on the host: `exe` on Windows.
    pub fn executable_extension(&self) -> (result: Option<String>)
        ensures
            match extension_of_executables(self.os_view()) {
                Some(e) => result matches Some(r) && r@ == e,
                None => result is None,
            },
    {
        if self.os == OperatingSystem::Windows {
            Some(copy_str("exe"))
        } else {
            None
        }
    }

    /// The operating system the build runs on.
    pub fn operating_system(&self) -> (result: OperatingSystem)
        ensures
            result == self.os_view(),
    {
        self.os
    }

    /// The version to build, as given.
    pub fn version(&self) -> (result: Option<&str>)
        ensures
            opt_view(self.options_view().version) == (match result {
                Some(r) => Some(r@),
                None => None::<Seq<char>>,
            }),
    {
        self.options.version()
    }

    pub fn verbose(&self) -> (result: i32)
        ensures
            result == self.options_view().verbose,
    {
        self.options.verbose()
    }

    pub fn release(&self) -> (result: bool)
        ensures
            result == self.options_view().release,
    {
        self.options.release()
    }

    pub fn icons(&self) -> (result: &Vec<String>)
        ensures
            result@ == self.icons_view(),
    {
        &self.icons
    }

    pub fn bundle_dir(&self) -> (result: Option<&str>)
        ensures
            opt_view(self.options_view().bundle_dir) == (match result {
                Some(r) => Some(r@),
                None => None::<Seq<char>>,
            }),
    {
        self.options.bundle_dir()
    }

    pub fn vmmaker_vm(&self) -> (result: Option<&str>)
        ensures
            opt_view(self.options_view().vmmaker_vm) == (match result {
                Some(r) => Some(r@),
                None => None::<Seq<char>>,
            }),
    {
        self.options.vmmaker_vm()
    }

    pub fn libraries(&self) -> (result: &Vec<Library>)
        ensures
            result@ == self.libraries_view(),
    {
        &self.libraries
    }

    /// The workspace directory, when it is known.
    pub fn workspace_directory(&self) -> (result: Option<&str>)
        ensures
            self.workspace_view() == (match result {
                Some(r) => Some(r@),
                None => None::<Seq<char>>,
            }),
    {
        opt_str(&self.workspace_directory)
    }
}


/// What the libraries need to know of a build: the build directory, the
/// third-party directory, the target, whether it is a release build, and the
/// operating system the build runs on.
pub struct LibraryContext {
    pub target_dir: Seq<char>,
    pub third_party: Seq<char>,
    pub target: Target,
    pub release: bool,
    pub os: OperatingSystem,
}

/// The name of the build profile.
pub open spec fn profile_name(release: bool) -> Seq<char> {
    if release { "release"@ } else { "debug"@ }
}

/// The directory, below the target's, that holds the bundle: `release`
/// for a release build, `build` otherwise.
pub open spec fn bundle_profile_name(release: bool) -> Seq<char> {
    if release { "release"@ } else { "build"@ }
}

/// The text of the directory that holds the bundle of a build.
pub fn bundle_profile(release: bool) -> (result: String)
    ensures
        result@ == bundle_profile_name(release),
{
    if release {
        copy_str("release")
    } else {
        copy_str("build")
    }
}

/// An executable of the bundle.
#[derive(Debug, Clone, Copy, PartialEq, Eq, Structural)]
pub enum Executable {
    App,
    Cli,
}

/// The name of each executable's cargo binary.
pub open spec fn cargo_bin_name_of(executable: Executable) -> Seq<char> {
    match executable {
        Executable::App => "vm_client"@,
        Executable::Cli => "vm_client-cli"@,
    }
}

impl Executable {
    /// The name of the executable's cargo binary.
    pub fn cargo_bin_name(&self) -> (result: &'static str)
        ensures
            result@ == cargo_bin_name_of(*self),
    {
        match self {
            Executable::App => "vm_client",
            Executable::Cli => "vm_client-cli",
        }
    }

    /// The name of the executable as cargo compiles it: the binary's name
    /// with the platform's executable extension.
    pub fn compiled_name(&self, options: &ResolvedOptions) -> (result: String)
        ensures
            result@ == with_extension(cargo_bin_name_of(*self), options.os_view()),
    {
        add_executable_extension(copy_str(self.cargo_bin_name()), options.operating_system())
    }

    /// The name of the executable in the bundle: the executable name (with
    /// `-cli` after it for the command-line one) and the platform's
    /// executable extension.
    pub fn bundled_name(&self, options: &ResolvedOptions) -> (result: String)
        ensures
            result@ == with_extension(bundled_base_name(*self, options.executable_name_view()), options.os_view()),
    {
        let base = match self {
            Executable::App => copy_str(options.executable_name()),
            Executable::Cli => concat(options.executable_name(), "-cli"),
        };
        add_executable_extension(base, options.operating_system())
    }
}

/// The name of an executable in the bundle, before the extension.
pub open spec fn bundled_base_name(executable: Executable, executable_name: Seq<char>) -> Seq<char> {
    match executable {
        Executable::App => executable_name,
        Executable::Cli => executable_name + "-cli"@,
    }
}

/// The options of a bundle: the resolved options and the executables to
/// build.
#[derive(Debug)]
pub struct BundleOptions {
    options: ResolvedOptions,
    executables: Vec<Executable>,
}

impl BundleOptions {
    pub closed spec fn resolved(&self) -> ResolvedOptions {
        self.options
    }

    pub closed spec fn executables_view(&self) -> Seq<Executable> {
        self.executables@
    }

    /// The directory that holds the sources of third-party libraries:
    /// `third_party` in the workspace.
    pub open spec fn third_party_view(&self) -> Seq<char> {
        match self.resolved().workspace_view() {
            Some(w) => joined(w, "third_party"@),
            None => "third_party"@,
        }
    }

    /// Where cargo places what it compiles: the build directory, the
    /// target's name and the profile.
    pub open spec fn compilation_location_view(&self) -> Seq<char> {
        joined(
            joined(self.resolved().target_dir_view(), target_name(self.resolved().target_view())),
            profile_name(self.resolved().options_view().release),
        )
    }

    /// Where the bundle goes by default: `bundle` below the build
    /// directory, the target's name and `build` or `release`.
    pub open spec fn default_bundle_location_view(&self) -> Seq<char> {
        joined(
            joined(
                joined(self.resolved().target_dir_view(), target_name(self.resolved().target_view())),
                bundle_profile_name(self.resolved().options_view().release),
            ),
            "bundle"@,
        )
    }

    /// What the libraries need to know of this build.
    pub open spec fn context(&self) -> LibraryContext {
        LibraryContext {
            target_dir: self.resolved().target_dir_view(),
            third_party: self.third_party_view(),
            target: self.resolved().target_view(),
            release: self.resolved().options_view().release,
            os: self.resolved().os_view(),
        }
    }

    /// Bundle options for the given executables.
    pub fn new(options: ResolvedOptions, executables: Vec<Executable>) -> (result: Self)
        ensures
            result.resolved() == options,
            result.executables_view() == executables@,
    {
        BundleOptions { options, executables }
    }

    pub fn executables(&self) -> (result: &Vec<Executable>)
        ensures
            result@ == self.executables_view(),
    {
        &self.executables
    }

    pub fn resolved_options(&self) -> (result: &ResolvedOptions)
        ensures
            *result == self.resolved(),
    {
        &self.options
    }

    pub fn target(&self) -> (result: &Target)
        ensures
            *result == self.resolved().target_view(),
    {
        self.options.target()
    }

    pub fn target_dir(&self) -> (result: &str)
        ensures
            result@ == self.resolved().target_dir_view(),
    {
        self.options.target_dir()
    }

    pub fn verbose(&self) -> (result: i32)
        ensures
            result == self.resolved().options_view().verbose,
    {
        self.options.verbose()
    }

    pub fn release(&self) -> (result: bool)
        ensures
            result == self.resolved().options_view().release,
    {
        self.options.release()
    }

    pub fn icons(&self) -> (result: &Vec<String>)
        ensures
            result@ == self.resolved().icons_view(),
    {
        self.options.icons()
    }

    pub fn identifier(&self) -> (result: &str)
        ensures
            result@ == self.resolved().identifier_view(),
    {
        self.options.identifier()
    }

    pub fn app_name(&self) -> (result: &str)
        ensures
            result@ == self.resolved().app_name_view(),
    {
        self.options.app_name()
    }

    pub fn version(&self) -> (result: Option<&str>)
        ensures
            opt_view(self.resolved().options_view().version) == (match result {
                Some(r) => Some(r@),
                None => None::<Seq<char>>,
            }),
    {
        self.options.version()
    }

    pub fn vmmaker_vm(&self) -> (result: Option<&str>)
        ensures
            opt_view(self.resolved().options_view().vmmaker_vm) == (match result {
                Some(r) => Some(r@),
                None => None::<Seq<char>>,
            }),
    {
        self.options.vmmaker_vm()
    }

    pub fn libraries(&self) -> (result: &Vec<Library>)
        ensures
            result@ == self.resolved().libraries_view(),
    {
        self.options.libraries()
    }

    /// The operating system the build runs on.
    pub fn operating_system(&self) -> (result: OperatingSystem)
        ensures
            result == self.resolved().os_view(),
    {
        self.options.operating_system()
    }

    /// `release` or `debug`.
    pub fn profile(&self) -> (result: String)
        ensures
            result@ == profile_name(self.resolved().options_view().release),
    {
        if self.release() {
            copy_str("release")
        } else {
            copy_str("debug")
        }
    }

    /// Where cargo places what it compiles.
    pub fn compilation_location(&self) -> (result: String)
        ensures
            result@ == self.compilation_location_view(),
    {
        let with_target = join(self.target_dir(), self.target().name());
        join(with_target.as_str(), self.profile().as_str())
    }

    /// Where the bundle is placed: the given bundle directory, or the
    /// default bundle location.
    pub fn bundle_location(&self) -> (result: String)
        ensures
            result@ == (match opt_view(self.resolved().options_view().bundle_dir) {
                Some(d) => d,
                None => self.default_bundle_location_view(),
            }),
    {
        match self.options.bundle_dir() {
            Some(dir) => copy_str(dir),
            None => self.default_bundle_location(),
        }
    }

    /// The name of an executable in the bundle.
    pub fn bundled_executable_name(&self, executable: &Executable) -> (result: String)
        ensures
            result@ == with_extension(
                bundled_base_name(*executable, self.resolved().executable_name_view()),
                self.resolved().os_view(),
            ),
    {
        executable.bundled_name(&self.options)
    }

    /// The name of an executable as cargo compiles it.
    pub fn compiled_executable_name(&self, executable: &Executable) -> (result: String)
        ensures
            result@ == with_extension(cargo_bin_name_of(*executable), self.resolved().os_view()),
    {
        executable.compiled_name(&self.options)
    }

    /// The path of a compiled executable.
    pub fn compiled_executable_path(&self, executable: &Executable) -> (result: String)
        ensures
            result@ == joined(
                self.compilation_location_view(),
                with_extension(cargo_bin_name_of(*executable), self.resolved().os_view()),
            ),
    {
        join(self.compilation_location().as_str(), executable.compiled_name(&self.options).as_str())
    }

    /// `bundle` below the build directory, the target's name and `build`
    /// or `release`.
    pub fn default_bundle_location(&self) -> (result: String)
        ensures
            result@ == self.default_bundle_location_view(),
    {
        let with_target = join(self.target_dir(), self.target().name());
        let with_profile = join(with_target.as_str(), bundle_profile(self.release()).as_str());
        join(with_profile.as_str(), "bundle")
    }

    /// The directory that holds the sources of third-party libraries.
    pub fn third_party_libraries_directory(&self) -> (result: String)
        ensures
            result@ == self.third_party_view(),
    {
        match self.options.workspace_directory() {
            Some(w) => join(w, "third_party"),
            None => copy_str("third_party"),
        }
    }
}

/// The options of one executable of a bundle.
#[derive(Debug)]
pub struct ExecutableOptions<'a> {
    options: &'a BundleOptions,
    executable: Executable,
}

impl<'a> ExecutableOptions<'a> {
    pub closed spec fn bundle(&self) -> BundleOptions {
        *self.options
    }

    pub closed spec fn executable_view(&self) -> Executable {
        self.executable
    }

    pub fn new(options: &'a BundleOptions, executable: Executable) -> (result: Self)
        ensures
            result.bundle() == *options,
            result.executable_view() == executable,
    {
        ExecutableOptions { options, executable }
    }

    pub fn bundle_options(&self) -> (result: &BundleOptions)
        ensures
            *result == self.bundle(),
    {
        self.options
    }

    pub fn app_name(&self) -> (result: &str)
        ensures
            result@ == self.bundle().resolved().app_name_view(),
    {
        self.options.app_name()
    }

    pub fn executable(&self) -> (result: &Executable)
        ensures
            *result == self.executable_view(),
    {
        &self.executable
    }

    /// The name of the executable in the bundle.
    pub fn executable_name(&self) -> (result: String)
        ensures
            result@ == with_extension(
                bundled_base_name(self.executable_view(), self.bundle().resolved().executable_name_view()),
                self.bundle().resolved().os_view(),
            ),
    {
        self.options.bundled_executable_name(&self.executable)
    }

    pub fn version(&self) -> (result: Option<&str>)
        ensures
            opt_view(self.bundle().resolved().options_view().version) == (match result {
                Some(r) => Some(r@),
                None => None::<Seq<char>>,
            }),
    {
        self.options.version()
    }

    pub fn verbose(&self) -> (result: i32)
        ensures
            result == self.bundle().resolved().options_view().verbose,
    {
        self.options.verbose()
    }

    pub fn vmmaker_vm(&self) -> (result: Option<&str>)
        ensures
            opt_view(self.bundle().resolved().options_view().vmmaker_vm) == (match result {
                Some(r) => Some(r@),
                None => None::<Seq<char>>,
            }),
    {
        self.options.vmmaker_vm()
    }

    pub fn target(&self) -> (result: &Target)
        ensures
            *result == self.bundle().resolved().target_view(),
    {
        self.options.target()
    }

    pub fn target_dir(&self) -> (result: &str)
        ensures
            result@ == self.bundle().resolved().target_dir_view(),
    {
        self.options.target_dir()
    }

    pub fn release(&self) -> (result: bool)
        ensures
            result == self.bundle().resolved().options_view().release,
    {
        self.options.release()
    }

    pub fn identifier(&self) -> (result: &str)
        ensures
            result@ == self.bundle().resolved().identifier_view(),
    {
        self.options.identifier()
    }

    pub fn icons(&self) -> (result: &Vec<String>)
        ensures
            result@ == self.bundle().resolved().icons_view(),
    {
        self.options.icons()
    }

    /// The name of the executable's cargo binary.
    pub fn cargo_bin_name(&self) -> (result: &'static str)
        ensures
            result@ == cargo_bin_name_of(self.executable_view()),
    {
        self.executable.cargo_bin_name()
    }

    /// The name of the executable as cargo compiles it.
    pub fn compiled_executable_name(&self) -> (result: String)
        ensures
            result@ == with_extension(cargo_bin_name_of(self.executable_view()), self.bundle().resolved().os_view()),
    {
        self.options.compiled_executable_name(&self.executable)
    }
}

} // verus!

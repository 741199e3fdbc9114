//! The first form of the build options: the options given on the command
//! line with major, minor and patch versions, and the final options that
//! fill in their defaults.
use vstd::prelude::*;
use crate::platform::OperatingSystem;
use crate::paths::{joined, join};
use crate::text::{copy_str, concat, concat3, views, eq_ignore_ascii_case, str_eq_ignore_ascii_case, ascii_lower};
use super::target::{Target, target_name, invalid_variant, invalid_variant_message};
use super::options::{opt_view, profile_name, bundle_profile_name, bundle_profile, default_build_dir};
use super::library::Library;
use super::definitions::{git, sdl2, boxer, skia, glutin, gleam, winit, clipboard};

verus! {

/// A third-party library of the first form of the options.
#[derive(Debug, Clone, Copy, PartialEq, Eq, Structural)]
pub enum ThirdPartyLibrary {
    Git,
    Sdl2,
    Boxer,
    Skia,
    Glutin,
    Gleam,
    Winit,
    Clipboard,
}

/// The name of each library on the command line (SDL2's is spelled `sld2`).
pub open spec fn legacy_library_name(library: ThirdPartyLibrary) -> Seq<char> {
    match library {
        ThirdPartyLibrary::Git => "git"@,
        ThirdPartyLibrary::Sdl2 => "sld2"@,
        ThirdPartyLibrary::Boxer => "boxer"@,
        ThirdPartyLibrary::Skia => "skia"@,
        ThirdPartyLibrary::Glutin => "glutin"@,
        ThirdPartyLibrary::Gleam => "gleam"@,
        ThirdPartyLibrary::Winit => "winit"@,
        ThirdPartyLibrary::Clipboard => "clipboard"@,
    }
}

/// The first library, in declaration order, whose name equals `s` without
/// regard to ASCII case.
pub open spec fn legacy_library_named(s: Seq<char>) -> Option<ThirdPartyLibrary> {
    if eq_ignore_ascii_case(s, "git"@) {
        Some(ThirdPartyLibrary::Git)
    } else if eq_ignore_ascii_case(s, "sld2"@) {
        Some(ThirdPartyLibrary::Sdl2)
    } else if eq_ignore_ascii_case(s, "boxer"@) {
        Some(ThirdPartyLibrary::Boxer)
    } else if eq_ignore_ascii_case(s, "skia"@) {
        Some(ThirdPartyLibrary::Skia)
    } else if eq_ignore_ascii_case(s, "glutin"@) {
        Some(ThirdPartyLibrary::Glutin)
    } else if eq_ignore_ascii_case(s, "gleam"@) {
        Some(ThirdPartyLibrary::Gleam)
    } else if eq_ignore_ascii_case(s, "winit"@) {
        Some(ThirdPartyLibrary::Winit)
    } else if eq_ignore_ascii_case(s, "clipboard"@) {
        Some(ThirdPartyLibrary::Clipboard)
    } else {
        None
    }
}

/// The name of the library each third-party library stands for.
pub open spec fn legacy_defined_name(library: ThirdPartyLibrary) -> Seq<char> {
    match library {
        ThirdPartyLibrary::Git => "git2"@,
        ThirdPartyLibrary::Sdl2 => "SDL2"@,
        ThirdPartyLibrary::Boxer => "Boxer"@,
        ThirdPartyLibrary::Skia => "Skia"@,
        ThirdPartyLibrary::Glutin => "Glutin"@,
        ThirdPartyLibrary::Gleam => "Gleam"@,
        ThirdPartyLibrary::Winit => "Winit"@,
        ThirdPartyLibrary::Clipboard => "Clipboard"@,
    }
}

impl ThirdPartyLibrary {
    /// The library's name on the command line.
    pub fn to_string(&self) -> (result: String)
        ensures
            result@ == legacy_library_name(*self),
    {
        match self {
            ThirdPartyLibrary::Git => copy_str("git"),
            ThirdPartyLibrary::Sdl2 => copy_str("sld2"),
            ThirdPartyLibrary::Boxer => copy_str("boxer"),
            ThirdPartyLibrary::Skia => copy_str("skia"),
            ThirdPartyLibrary::Glutin => copy_str("glutin"),
            ThirdPartyLibrary::Gleam => copy_str("gleam"),
            ThirdPartyLibrary::Winit => copy_str("winit"),
            ThirdPartyLibrary::Clipboard => copy_str("clipboard"),
        }
    }

    /// The library with the given name, compared without regard to ASCII
    /// case.
    pub fn from_str(s: &str) -> (result: Result<ThirdPartyLibrary, String>)
        ensures
            legacy_library_named(s@) matches Some(l) ==> (result matches Ok(r) && r == l),
            legacy_library_named(s@) is None ==> (result matches Err(e) && e@ == invalid_variant(s@)),
    {
        if str_eq_ignore_ascii_case(s, "git") {
            Ok(ThirdPartyLibrary::Git)
        } else if str_eq_ignore_ascii_case(s, "sld2") {
            Ok(ThirdPartyLibrary::Sdl2)
        } else if str_eq_ignore_ascii_case(s, "boxer") {
            Ok(ThirdPartyLibrary::Boxer)
        } else if str_eq_ignore_ascii_case(s, "skia") {
            Ok(ThirdPartyLibrary::Skia)
        } else if str_eq_ignore_ascii_case(s, "glutin") {
            Ok(ThirdPartyLibrary::Glutin)
        } else if str_eq_ignore_ascii_case(s, "gleam") {
            Ok(ThirdPartyLibrary::Gleam)
        } else if str_eq_ignore_ascii_case(s, "winit") {
            Ok(ThirdPartyLibrary::Winit)
        } else if str_eq_ignore_ascii_case(s, "clipboard") {
            Ok(ThirdPartyLibrary::Clipboard)
        } else {
            Err(invalid_variant_message(s))
        }
    }

    /// The library this third-party library stands for.
    pub fn as_library(&self, os: OperatingSystem) -> (result: Library)
        ensures
            result.name_view() == legacy_defined_name(*self),
    {
        match self {
            ThirdPartyLibrary::Boxer => Library::Rust(boxer()),
            ThirdPartyLibrary::Skia => Library::Rust(skia()),
            ThirdPartyLibrary::Glutin => Library::Rust(glutin()),
            ThirdPartyLibrary::Gleam => Library::Rust(gleam()),
            ThirdPartyLibrary::Winit => Library::Rust(winit()),
            ThirdPartyLibrary::Clipboard => Library::Rust(clipboard()),
            ThirdPartyLibrary::Git => Library::CMake(git(os)),
            ThirdPartyLibrary::Sdl2 => Library::CMake(sdl2()),
        }
    }
}

/// A library's name reads back as that library.
pub proof fn lemma_legacy_library_name_round_trip(library: ThirdPartyLibrary)
    ensures
        legacy_library_named(legacy_library_name(library)) == Some(library),
{
    reveal_strlit("git");
    reveal_strlit("sld2");
    reveal_strlit("boxer");
    reveal_strlit("skia");
    reveal_strlit("glutin");
    reveal_strlit("gleam");
    reveal_strlit("winit");
    reveal_strlit("clipboard");
    assert(ascii_lower('l') != ascii_lower('k'));
    assert(ascii_lower('b') != ascii_lower('g'));
    assert(ascii_lower('b') != ascii_lower('w'));
    assert(ascii_lower('g') != ascii_lower('w'));
    match library {
        ThirdPartyLibrary::Skia => {
            assert(!eq_ignore_ascii_case("skia"@, "sld2"@)) by {
                assert(ascii_lower("skia"@[1]) != ascii_lower("sld2"@[1]));
            }
        },
        ThirdPartyLibrary::Gleam => {
            assert(!eq_ignore_ascii_case("gleam"@, "boxer"@)) by {
                assert(ascii_lower("gleam"@[0]) != ascii_lower("boxer"@[0]));
            }
        },
        ThirdPartyLibrary::Winit => {
            assert(!eq_ignore_ascii_case("winit"@, "boxer"@)) by {
                assert(ascii_lower("winit"@[0]) != ascii_lower("boxer"@[0]));
            }
            assert(!eq_ignore_ascii_case("winit"@, "gleam"@)) by {
                assert(ascii_lower("winit"@[0]) != ascii_lower("gleam"@[0]));
            }
        },
        _ => {},
    }
}

/// The options given on the command line, in their first form.
#[derive(Debug, Clone)]
pub struct BuildOptions {
    /// The level of verbosity.
    pub verbose: i32,
    /// Whether to bundle a release build.
    pub release: bool,
    /// Whether to include debug symbols in the binary.
    pub debug_symbols: bool,
    /// The target to cross-compile for.
    pub target: Option<Target>,
    /// The root of cargo's build directory.
    pub target_dir: Option<String>,
    /// The name of the app.
    pub app_name: Option<String>,
    /// Where the bundle is placed.
    pub bundle_dir: Option<String>,
    /// A plist file to bundle (MacOS only).
    pub plist_file: Option<String>,
    /// The name of the executable.
    pub executable_name: Option<String>,
    /// The major version of the bundle.
    pub major_version: Option<usize>,
    /// The minor version of the bundle.
    pub minor_version: Option<usize>,
    /// The patch version of the bundle.
    pub patch_version: Option<usize>,
    /// The app identifier in reverse domain notation.
    pub identifier: Option<String>,
    /// The author of the app.
    pub author: Option<String>,
    /// Icons of different sizes.
    pub icons: Option<Vec<String>>,
    /// The third-party libraries to include.
    pub libraries: Option<Vec<ThirdPartyLibrary>>,
}

/// The major version: the given one; else 0 when a minor or patch version
/// is given; else 1.
pub open spec fn major_version_of(options: BuildOptions) -> usize {
    match options.major_version {
        Some(v) => v,
        None => if options.minor_version is Some || options.patch_version is Some { 0 } else { 1 },
    }
}

/// The extension of executables on a platform: `exe` on Windows.
pub open spec fn executable_extension_of(os: OperatingSystem) -> Option<Seq<char>> {
    if os == OperatingSystem::Windows { Some("exe"@) } else { None }
}

/// A name with the platform's executable extension.
pub open spec fn executable_file_name(name: Seq<char>, os: OperatingSystem) -> Seq<char> {
    match executable_extension_of(os) {
        Some(e) => name + "."@ + e,
        None => name,
    }
}

/// The options of a build with their defaults filled in: the build
/// directory and the target.
#[derive(Debug)]
pub struct FinalOptions {
    build_options: BuildOptions,
    target_dir: String,
    target: Target,
    workspace_directory: Option<String>,
    os: OperatingSystem,
}

impl FinalOptions {
    pub closed spec fn options_view(&self) -> BuildOptions {
        self.build_options
    }

    pub closed spec fn target_dir_view(&self) -> Seq<char> {
        self.target_dir@
    }

    pub closed spec fn target_view(&self) -> Target {
        self.target
    }

    pub closed spec fn workspace_view(&self) -> Option<Seq<char>> {
        opt_view(self.workspace_directory)
    }

    pub closed spec fn os_view(&self) -> OperatingSystem {
        self.os
    }

    /// The name of the app: the given one, or `VM`.
    pub open spec fn app_name_view(&self) -> Seq<char> {
        match self.options_view().app_name {
            Some(n) => n@,
            None => "VM"@,
        }
    }

    /// The executable's name before its extension: the given one, or the
    /// app's name.
    pub open spec fn base_executable_name(&self) -> Seq<char> {
        match self.options_view().executable_name {
            Some(n) => n@,
            None => self.app_name_view(),
        }
    }

    /// Where cargo places what it compiles: the build directory, the
    /// target's name and the profile.
    pub open spec fn compilation_location_view(&self) -> Seq<char> {
        joined(joined(self.target_dir_view(), target_name(self.target_view())), profile_name(self.options_view().release))
    }

    /// Where the bundle goes by default: `bundle` below the build
    /// directory, the target's name and `build` or `release`.
    pub open spec fn default_bundle_location_view(&self) -> Seq<char> {
        joined(
            joined(joined(self.target_dir_view(), target_name(self.target_view())), bundle_profile_name(self.options_view().release)),
            "bundle"@,
        )
    }

    /// Fills in the defaults: the build directory is the given one, else
    /// `target` in the workspace, else `target`; the target is the given
    /// one, else the host.
    pub fn new(
        build_options: BuildOptions,
        workspace_directory: Option<String>,
        host: Target,
        os: OperatingSystem,
    ) -> (result: Self)
        ensures
            result.options_view() == build_options,
            result.target_dir_view() == (match build_options.target_dir {
                Some(d) => d@,
                None => match workspace_directory {
                    Some(w) => joined(w@, default_build_dir()),
                    None => default_build_dir(),
                },
            }),
            result.target_view() == (match build_options.target {
                Some(t) => t,
                None => host,
            }),
            result.workspace_view() == opt_view(workspace_directory),
            result.os_view() == os,
    {
        let target_dir = match &build_options.target_dir {
            Some(d) => d.clone(),
            None => match &workspace_directory {
                Some(w) => join(w.as_str(), "target"),
                None => copy_str("target"),
            },
        };
        let target = match build_options.target {
            Some(t) => t,
            None => host,
        };
        FinalOptions { build_options, target_dir, target, workspace_directory, os }
    }

    pub fn target(&self) -> (result: Target)
        ensures
            result == self.target_view(),
    {
        self.target
    }

    pub fn target_dir(&self) -> (result: &str)
        ensures
            result@ == self.target_dir_view(),
    {
        self.target_dir.as_str()
    }

    pub fn debug_symbols(&self) -> (result: bool)
        ensures
            result == self.options_view().debug_symbols,
    {
        self.build_options.debug_symbols
    }

    pub fn verbose(&self) -> (result: i32)
        ensures
            result == self.options_view().verbose,
    {
        self.build_options.verbose
    }

    pub fn release(&self) -> (result: bool)
        ensures
            result == self.options_view().release,
    {
        self.build_options.release
    }

    /// The icons, none when none were given.
    pub fn icons(&self) -> (result: Vec<String>)
        ensures
            views(result@) == (match self.options_view().icons {
                Some(i) => views(i@),
                None => Seq::<Seq<char>>::empty(),
            }),
    {
        match &self.build_options.icons {
            Some(icons) => crate::bindings::parameters::copy_strings(icons),
            None => {
                let none: Vec<String> = Vec::new();
                assert(views(none@) =~= Seq::<Seq<char>>::empty());
                none
            },
        }
    }

    pub fn identifier(&self) -> (result: Option<String>)
        ensures
            opt_view(result) == opt_view(self.options_view().identifier),
    {
        match &self.build_options.identifier {
            Some(i) => Some(i.clone()),
            None => None,
        }
    }

    /// The major version: the given one; else 0 when a minor or patch
    /// version is given; else 1.
    pub fn major_version(&self) -> (result: usize)
        ensures
            result == major_version_of(self.options_view()),
    {
        match self.build_options.major_version {
            Some(v) => v,
            None => {
                if self.build_options.minor_version.is_some() || self.build_options.patch_version.is_some() {
                    0
                } else {
                    1
                }
            },
        }
    }

    /// `release` or `debug`.
    pub fn profile(&self) -> (result: String)
        ensures
            result@ == profile_name(self.options_view().release),
    {
        if self.build_options.release {
            copy_str("release")
        } else {
            copy_str("debug")
        }
    }

    /// The minor version: the given one, else 0.
    pub fn minor_version(&self) -> (result: usize)
        ensures
            result == (match self.options_view().minor_version {
                Some(v) => v,
                None => 0,
            }),
    {
        match self.build_options.minor_version {
            Some(v) => v,
            None => 0,
        }
    }

    /// The patch version: the given one, else 0.
    pub fn patch_version(&self) -> (result: usize)
        ensures
            result == (match self.options_view().patch_version {
                Some(v) => v,
                None => 0,
            }),
    {
        match self.build_options.patch_version {
            Some(v) => v,
            None => 0,
        }
    }

    pub fn bundle_dir(&self) -> (result: Option<String>)
        ensures
            opt_view(result) == opt_view(self.options_view().bundle_dir),
    {
        match &self.build_options.bundle_dir {
            Some(d) => Some(d.clone()),
            None => None,
        }
    }

    /// The libraries the third-party libraries stand for, in order.
    pub fn third_party_libraries(&self) -> (result: Vec<Library>)
        ensures
            result@.len() == (match self.options_view().libraries {
                Some(l) => l@.len(),
                None => 0,
            }),
            forall|i: int| 0 <= i < result@.len() ==> (#[trigger] result@[i]).name_view()
                == legacy_defined_name(self.options_view().libraries->0@[i]),
    {
        let mut libraries: Vec<Library> = Vec::new();
        match &self.build_options.libraries {
            Some(requested) => {
                let mut k: usize = 0;
                while k < requested.len()
                    invariant
                        k <= requested@.len(),
                        libraries@.len() == k,
                        forall|i: int| 0 <= i < k ==> (#[trigger] libraries@[i]).name_view()
                            == legacy_defined_name(requested@[i]),
                    decreases requested@.len() - k,
                {
                    libraries.push(requested[k].as_library(self.os));
                    k = k + 1;
                }
            },
            None => {},
        }
        libraries
    }

    /// The name of the app: the given one, or `VM`.
    pub fn app_name(&self) -> (result: String)
        ensures
            result@ == self.app_name_view(),
    {
        match &self.build_options.app_name {
            Some(n) => n.clone(),
            None => copy_str("VM"),
        }
    }

    /// The name of the executable: the given one or the app's name, with
    /// the platform's executable extension.
    pub fn executable_name(&self) -> (result: String)
        ensures
            result@ == executable_file_name(self.base_executable_name(), self.os_view()),
    {
        let name = match &self.build_options.executable_name {
            Some(n) => n.clone(),
            None => self.app_name(),
        };
        match self.executable_extension() {
            Some(e) => concat3(name.as_str(), ".", e.as_str()),
            None => name,
        }
    }

    /// The name of the command-line executable: the executable's name with
    /// `-cli` after it, and the platform's executable extension.
    pub fn cli_executable_name(&self) -> (result: String)
        ensures
            result@ == executable_file_name(self.base_executable_name() + "-cli"@, self.os_view()),
    {
        let name = match &self.build_options.executable_name {
            Some(n) => concat(n.as_str(), "-cli"),
            None => concat(self.app_name().as_str(), "-cli"),
        };
        match self.executable_extension() {
            Some(e) => concat3(name.as_str(), ".", e.as_str()),
            None => name,
        }
    }

    /// `exe` on Windows, none elsewhere.
    pub fn executable_extension(&self) -> (result: Option<String>)
        ensures
            opt_view(result) == executable_extension_of(self.os_view()),
    {
        match self.os {
            OperatingSystem::Windows => Some(copy_str("exe")),
            _ => None,
        }
    }

    /// Where cargo places what it compiles.
    pub fn compilation_location(&self) -> (result: String)
        ensures
            result@ == self.compilation_location_view(),
    {
        let with_target = join(self.target_dir.as_str(), self.target.name());
        join(with_target.as_str(), self.profile().as_str())
    }

    /// Where the bundle is placed: the given bundle directory, or the
    /// default bundle location.
    pub fn bundle_location(&self) -> (result: String)
        ensures
            result@ == (match opt_view(self.options_view().bundle_dir) {
                Some(d) => d,
                None => self.default_bundle_location_view(),
            }),
    {
        match &self.build_options.bundle_dir {
            Some(d) => d.clone(),
            None => self.default_bundle_location(),
        }
    }

    /// `bundle` below the build directory, the target's name and `build`
    /// or `release`.
    pub fn default_bundle_location(&self) -> (result: String)
        ensures
            result@ == self.default_bundle_location_view(),
    {
        let with_target = join(self.target_dir.as_str(), self.target.name());
        let with_profile = join(with_target.as_str(), bundle_profile(self.build_options.release).as_str());
        join(with_profile.as_str(), "bundle")
    }

    /// `third_party` in the workspace, or in the current directory when the
    /// workspace is not known.
    pub fn third_party_libraries_directory(&self, current_directory: &str) -> (result: String)
        ensures
            result@ == joined(
                match self.workspace_view() {
                    Some(w) => w,
                    None => current_directory@,
                },
                "third_party"@,
            ),
    {
        match &self.workspace_directory {
            Some(w) => join(w.as_str(), "third_party"),
            None => join(current_directory, "third_party"),
        }
    }
}

} // verus!

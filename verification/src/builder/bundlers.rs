//! The decisions of the bundlers: which bundler builds for a target, how
//! cargo is run, which libraries can be built first, and the layout and
//! descriptions of the Linux, macOS and Windows bundles.
use vstd::prelude::*;
use crate::platform::OperatingSystem;
use crate::paths::{joined, join, extension, extension_of};
use crate::text::{copy_str, concat, concat3, views, str_eq};
use super::target::{Target, target_name};
use super::location::library_file_name;
use super::options::{
    BundleOptions, ExecutableOptions, Executable, opt_view, with_extension, bundled_base_name,
    cargo_bin_name_of, profile_name,
};
use super::library::{Library, library_has_dependencies, library_name_of};
use super::legacy::{FinalOptions, executable_file_name, major_version_of};

verus! {

/// The bundler that builds for a target.
#[derive(Debug, Clone, Copy, PartialEq, Eq, Structural)]
pub enum BundlerKind {
    Mac,
    Windows,
    Linux,
}

/// The bundler of each target: macOS targets get an app bundle, Windows
/// and Linux a directory with the executables and libraries.
pub open spec fn bundler_of(target: Target) -> BundlerKind {
    match target {
        Target::X8664appleDarwin | Target::AArch64appleDarwin => BundlerKind::Mac,
        Target::X8664pcWindowsMsvc => BundlerKind::Windows,
        Target::X8664UnknownlinuxGNU => BundlerKind::Linux,
    }
}

/// The bundler that builds for a target.
pub fn bundler_for(target: Target) -> (result: BundlerKind)
    ensures
        result == bundler_of(target),
{
    match target {
        Target::X8664appleDarwin => BundlerKind::Mac,
        Target::AArch64appleDarwin => BundlerKind::Mac,
        Target::X8664pcWindowsMsvc => BundlerKind::Windows,
        Target::X8664UnknownlinuxGNU => BundlerKind::Linux,
    }
}

/// Where the bundle is placed.
pub open spec fn bundle_location_of(options: BundleOptions) -> Seq<char> {
    match opt_view(options.resolved().options_view().bundle_dir) {
        Some(d) => d,
        None => options.default_bundle_location_view(),
    }
}

/// The directory the compiled libraries are collected in:
/// `shared_libraries` in the compilation location.
pub open spec fn compiled_libraries_directory_of(options: BundleOptions) -> Seq<char> {
    joined(options.compilation_location_view(), "shared_libraries"@)
}

/// The directory the compiled libraries are collected in.
pub fn compiled_libraries_directory(options: &BundleOptions) -> (result: String)
    ensures
        result@ == compiled_libraries_directory_of(*options),
{
    join(options.compilation_location().as_str(), "shared_libraries")
}

/// Where a compiled library is copied: the platform's file name for the
/// library's name in the compiled libraries directory.
pub fn compiled_library_destination(options: &BundleOptions, library: &Library) -> (result: String)
    ensures
        result@ == joined(
            compiled_libraries_directory_of(*options),
            library_file_name(options.resolved().os_view(), library_name_of(*library)),
        ),
{
    let name = library.compiled_library_name().file_name(options.operating_system(), library.name());
    join(compiled_libraries_directory(options).as_str(), name.as_str())
}

/// The cargo arguments for a level of verbosity: none, `-v` or `-vv`.
pub open spec fn verbosity_arguments(verbose: i32) -> Seq<Seq<char>> {
    if verbose == 0 {
        Seq::empty()
    } else if verbose == 1 {
        seq!["-v"@]
    } else {
        seq!["-vv"@]
    }
}

/// The arguments of cargo that build an executable of the client.
pub open spec fn compile_binary_arguments_of(options: ExecutableOptions) -> Seq<Seq<char>> {
    seq![
        "build"@,
        "--package"@,
        "vm-client"@,
        "--bin"@,
        with_extension(cargo_bin_name_of(options.executable_view()), options.bundle().resolved().os_view()),
        "--target"@,
        target_name(options.bundle().resolved().target_view()),
    ] + verbosity_arguments(options.bundle().resolved().options_view().verbose) + if options.bundle().resolved().options_view().release {
        seq!["--release"@]
    } else {
        Seq::<Seq<char>>::empty()
    }
}

/// The arguments of cargo that build an executable of the client: its
/// package and binary, the target, the verbosity and the profile.
pub fn compile_binary_arguments(options: &ExecutableOptions) -> (result: Vec<String>)
    ensures
        views(result@) == compile_binary_arguments_of(*options),
{
    let mut args = vec![
        copy_str("build"),
        copy_str("--package"),
        copy_str("vm-client"),
        copy_str("--bin"),
        options.compiled_executable_name(),
        copy_str("--target"),
        options.target().to_string(),
    ];
    let ghost base = views(args@);
    let verbose = options.verbose();
    if verbose == 0 {
    } else if verbose == 1 {
        args.push(copy_str("-v"));
    } else {
        args.push(copy_str("-vv"));
    }
    let ghost with_verbosity = views(args@);
    assert(with_verbosity =~= base + verbosity_arguments(verbose));
    if options.release() {
        args.push(copy_str("--release"));
    }
    assert(views(args@) =~= compile_binary_arguments_of(*options));
    args
}

/// The environment of the cargo build: the build directory, and the
/// virtual machine that runs the VMMaker when one is given.
pub fn compile_binary_environment(options: &ExecutableOptions) -> (result: Vec<(String, String)>)
    ensures
        result@.len() == (if options.bundle().resolved().options_view().vmmaker_vm is Some { 2int } else { 1int }),
        result@[0].0@ == "CARGO_TARGET_DIR"@,
        result@[0].1@ == options.bundle().resolved().target_dir_view(),
        options.bundle().resolved().options_view().vmmaker_vm matches Some(v) ==> (result@[1].0@
            == "VM_CLIENT_VMMAKER"@ && result@[1].1@ == v@),
{
    let mut environment = vec![(copy_str("CARGO_TARGET_DIR"), copy_str(options.target_dir()))];
    match options.vmmaker_vm() {
        Some(v) => {
            environment.push((copy_str("VM_CLIENT_VMMAKER"), copy_str(v)));
        },
        None => {},
    }
    environment
}

/// The positions of the libraries with (or without) native dependencies,
/// in order.
pub open spec fn is_positions_where(result: Seq<usize>, libraries: Seq<Library>, with_dependencies: bool) -> bool {
    &&& forall|i: int, j: int| 0 <= i < j < result.len() ==> result[i] < result[j]
    &&& forall|i: int| 0 <= i < result.len() ==> result[i] < libraries.len()
        && library_has_dependencies(libraries[result[i] as int]) == with_dependencies
    &&& forall|k: int| 0 <= k < libraries.len() && library_has_dependencies(libraries[k]) == with_dependencies
        ==> result.contains(k as usize)
}

/// The positions of the libraries that have (or do not have) native
/// dependencies. Those without are built first, each on its own, and
/// those with after them, in order.
pub fn libraries_by_dependencies(options: &BundleOptions, with_dependencies: bool) -> (result: Vec<usize>)
    ensures
        is_positions_where(result@, options.resolved().libraries_view(), with_dependencies),
{
    let libraries = options.libraries();
    let mut result: Vec<usize> = Vec::new();
    let mut i: usize = 0;
    while i < libraries.len()
        invariant
            i <= libraries@.len(),
            libraries@ == options.resolved().libraries_view(),
            forall|a: int, b: int| 0 <= a < b < result@.len() ==> result@[a] < result@[b],
            forall|a: int| 0 <= a < result@.len() ==> result@[a] < i
                && library_has_dependencies(libraries@[result@[a] as int]) == with_dependencies,
            forall|k: int| 0 <= k < i && library_has_dependencies(libraries@[k]) == with_dependencies
                ==> result@.contains(k as usize),
        decreases libraries@.len() - i,
    {
        if libraries[i].has_dependencies(options) == with_dependencies {
            let ghost before = result@;
            result.push(i);
            proof {
                assert forall|k: int| 0 <= k < i + 1 && library_has_dependencies(libraries@[k]) == with_dependencies
                    implies result@.contains(k as usize) by {
                    if k < i {
                        assert(before.contains(k as usize));
                        let w = choose|w: int| 0 <= w < before.len() && before[w] == k as usize;
                        assert(result@[w] == k as usize);
                    } else {
                        assert(result@[result@.len() - 1] == k as usize);
                    }
                }
            }
        }
        i = i + 1;
    }
    result
}

/// Every library is built exactly once: it is either among those without
/// native dependencies, built first, or among those with them, built after.
pub proof fn lemma_libraries_partitioned(
    libraries: Seq<Library>,
    first: Seq<usize>,
    after: Seq<usize>,
    k: usize,
)
    requires
        is_positions_where(first, libraries, false),
        is_positions_where(after, libraries, true),
        k < libraries.len(),
    ensures
        first.contains(k) != after.contains(k),
{
    let ki = k as int;
    if library_has_dependencies(libraries[ki]) {
        assert(after.contains(k));
        if first.contains(k) {
            let i = choose|i: int| 0 <= i < first.len() && first[i] == k;
            assert(!library_has_dependencies(libraries[first[i] as int]));
        }
    } else {
        assert(first.contains(k));
        if after.contains(k) {
            let j = choose|j: int| 0 <= j < after.len() && after[j] == k;
            assert(library_has_dependencies(libraries[after[j] as int]));
        }
    }
}

/// A bundle directory with the executables in `bin` and the libraries in
/// `lib`.
pub struct LinuxLayout {
    pub app_dir: String,
    pub binary_dir: String,
    pub library_dir: String,
}

/// Bundles for Linux.
pub struct LinuxBundler {}

impl LinuxBundler {
    pub fn new() -> (result: Self) {
        LinuxBundler {}
    }

    /// The app's name in the bundle location, with `bin` and `lib` in it.
    pub fn layout(&self, options: &BundleOptions) -> (result: LinuxLayout)
        ensures
            result.app_dir@ == joined(bundle_location_of(*options), options.resolved().app_name_view()),
            result.binary_dir@ == joined(result.app_dir@, "bin"@),
            result.library_dir@ == joined(result.app_dir@, "lib"@),
    {
        let app_dir = join(options.bundle_location().as_str(), options.app_name());
        let binary_dir = join(app_dir.as_str(), "bin");
        let library_dir = join(app_dir.as_str(), "lib");
        LinuxLayout { app_dir, binary_dir, library_dir }
    }

    /// Where an executable is placed: its bundled name in `bin`.
    pub fn bundled_executable_path(&self, options: &BundleOptions, executable: &Executable) -> (result: String)
        ensures
            result@ == joined(
                joined(joined(bundle_location_of(*options), options.resolved().app_name_view()), "bin"@),
                with_extension(
                    bundled_base_name(*executable, options.resolved().executable_name_view()),
                    options.resolved().os_view(),
                ),
            ),
    {
        let layout = self.layout(options);
        join(layout.binary_dir.as_str(), options.bundled_executable_name(executable).as_str())
    }

    /// The arguments of `patchelf` that make the executables find the
    /// libraries in `lib` next to `bin`.
    pub fn rpath_arguments(&self) -> (result: Vec<String>)
        ensures
            views(result@) == seq!["--set-rpath"@, "$ORIGIN/../lib"@],
    {
        let result = vec![copy_str("--set-rpath"), copy_str("$ORIGIN/../lib")];
        assert(views(result@) =~= seq!["--set-rpath"@, "$ORIGIN/../lib"@]);
        result
    }
}

/// A macOS app bundle.
pub struct MacLayout {
    pub app_dir: String,
    pub contents_dir: String,
    pub resources_dir: String,
    pub macos_dir: String,
    pub info_plist: String,
}

/// What the `Info.plist` of an app bundle says.
pub struct MacInfo {
    pub bundle_name: String,
    pub bundle_display_name: String,
    pub executable_name: String,
    pub bundle_identifier: String,
    pub bundle_version: String,
}

/// Bundles for macOS.
pub struct MacBundler {}

impl MacBundler {
    pub fn new() -> (result: Self) {
        MacBundler {}
    }

    /// `<app>.app` in the bundle location, with `Contents/Resources`,
    /// `Contents/MacOS` and `Contents/Info.plist` in it.
    pub fn layout(&self, options: &BundleOptions) -> (result: MacLayout)
        ensures
            result.app_dir@ == joined(bundle_location_of(*options), options.resolved().app_name_view() + ".app"@),
            result.contents_dir@ == joined(result.app_dir@, "Contents"@),
            result.resources_dir@ == joined(result.contents_dir@, "Resources"@),
            result.macos_dir@ == joined(result.contents_dir@, "MacOS"@),
            result.info_plist@ == joined(result.contents_dir@, "Info.plist"@),
    {
        let app_dir = join(options.bundle_location().as_str(), concat(options.app_name(), ".app").as_str());
        let contents_dir = join(app_dir.as_str(), "Contents");
        let resources_dir = join(contents_dir.as_str(), "Resources");
        let macos_dir = join(contents_dir.as_str(), "MacOS");
        let info_plist = join(contents_dir.as_str(), "Info.plist");
        MacLayout { app_dir, contents_dir, resources_dir, macos_dir, info_plist }
    }

    /// Where an executable is placed: its bundled name in `Contents/MacOS`.
    pub fn bundled_executable_path(&self, options: &BundleOptions, executable: &Executable) -> (result: String)
        ensures
            result@ == joined(
                joined(
                    joined(joined(bundle_location_of(*options), options.resolved().app_name_view() + ".app"@), "Contents"@),
                    "MacOS"@,
                ),
                with_extension(
                    bundled_base_name(*executable, options.resolved().executable_name_view()),
                    options.resolved().os_view(),
                ),
            ),
    {
        let layout = self.layout(options);
        join(layout.macos_dir.as_str(), options.bundled_executable_name(executable).as_str())
    }

    /// The description of the bundle: the app's name as name and display
    /// name, the executable's name, the identifier and the given version.
    pub fn info(&self, options: &ExecutableOptions, bundle_version: String) -> (result: MacInfo)
        ensures
            result.bundle_name@ == options.bundle().resolved().app_name_view(),
            result.bundle_display_name@ == options.bundle().resolved().app_name_view(),
            result.executable_name@ == with_extension(
                bundled_base_name(options.executable_view(), options.bundle().resolved().executable_name_view()),
                options.bundle().resolved().os_view(),
            ),
            result.bundle_identifier@ == options.bundle().resolved().identifier_view(),
            result.bundle_version == bundle_version,
    {
        MacInfo {
            bundle_name: copy_str(options.app_name()),
            bundle_display_name: copy_str(options.app_name()),
            executable_name: options.executable_name(),
            bundle_identifier: copy_str(options.identifier()),
            bundle_version,
        }
    }
}

/// The first icon that exists and is an `.ico` file.
pub open spec fn first_ico(icons: Seq<Seq<char>>, existing: Seq<Seq<char>>) -> Option<Seq<char>>
    decreases icons.len(),
{
    if icons.len() == 0 {
        None
    } else if existing.contains(icons[0]) && extension_of(icons[0]) == Some("ico"@) {
        Some(icons[0])
    } else {
        first_ico(icons.skip(1), existing)
    }
}

/// What the resource file of a Windows executable says.
pub struct WindowsInfo {
    pub bundle_name: String,
    pub bundle_identifier: String,
    pub bundle_author: String,
    pub bundle_major_version: usize,
    pub bundle_minor_version: usize,
    pub bundle_patch_version: usize,
    pub bundle_icon: String,
    pub executable_name: String,
}

/// A Windows bundle: the executable and the libraries in `bin`.
pub struct WindowsLayout {
    pub app_dir: String,
    pub binary_dir: String,
    pub executable_path: String,
}

/// Bundles for Windows.
pub struct WindowsBundler {}

impl WindowsBundler {
    pub fn new() -> (result: Self) {
        WindowsBundler {}
    }

    /// The icon to embed: the first icon that exists (is among the
    /// existing files) and has the extension `ico`.
    pub fn create_ico(&self, configuration: &FinalOptions, existing: &Vec<String>) -> (result: Option<String>)
        ensures
            match first_ico(
                match configuration.options_view().icons {
                    Some(i) => views(i@),
                    None => Seq::<Seq<char>>::empty(),
                },
                views(existing@),
            ) {
                Some(p) => result matches Some(r) && r@ == p,
                None => result is None,
            },
    {
        let icons = configuration.icons();
        let ghost all = views(icons@);
        let mut i: usize = 0;
        assert(all.skip(0) =~= all);
        while i < icons.len()
            invariant
                i <= icons@.len(),
                all == views(icons@),
                all == (match configuration.options_view().icons {
                    Some(i) => views(i@),
                    None => Seq::<Seq<char>>::empty(),
                }),
                first_ico(all, views(existing@)) == first_ico(all.skip(i as int), views(existing@)),
            decreases icons@.len() - i,
        {
            let icon = &icons[i];
            let ghost rest = all.skip(i as int);
            assert(rest[0] == icon@);
            assert(rest.skip(1) =~= all.skip(i + 1));
            let exists = is_listed(existing, icon.as_str());
            if exists {
                match extension(icon.as_str()) {
                    Some(e) => {
                        if str_eq(e.as_str(), "ico") {
                            proof {
                                assert(views(existing@).contains(rest[0]));
                                assert(extension_of(rest[0]) == Some("ico"@));
                                assert(first_ico(rest, views(existing@)) == Some(icon@));
                            }
                            return Some(icon.clone());
                        }
                    },
                    None => {},
                }
            }
            i = i + 1;
        }
        assert(all.skip(i as int) =~= Seq::<Seq<char>>::empty());
        None
    }

    /// The directory the resource files are written to: `temp` in the
    /// current directory.
    pub fn temporary_directory(&self, current_directory: &str) -> (result: String)
        ensures
            result@ == joined(current_directory@, "temp"@),
    {
        join(current_directory, "temp")
    }

    /// The resource file of the executable: its name with `.rc` in the
    /// temporary directory.
    pub fn resource_file_path(&self, configuration: &FinalOptions, temporary_directory: &str) -> (result: String)
        ensures
            result@ == joined(
                temporary_directory@,
                executable_file_name(configuration.base_executable_name(), configuration.os_view()) + ".rc"@,
            ),
    {
        join(temporary_directory, concat(configuration.executable_name().as_str(), ".rc").as_str())
    }

    /// The manifest of the executable: its name with `.manifest` in the
    /// temporary directory.
    pub fn manifest_file_path(&self, configuration: &FinalOptions, temporary_directory: &str) -> (result: String)
        ensures
            result@ == joined(
                temporary_directory@,
                executable_file_name(configuration.base_executable_name(), configuration.os_view()) + ".manifest"@,
            ),
    {
        join(temporary_directory, concat(configuration.executable_name().as_str(), ".manifest").as_str())
    }

    /// The description of the executable: the app's name, the identifier
    /// (the app's name when none is given), no author, the versions, the
    /// icon line when there is an icon, and the executable's name.
    pub fn info(&self, configuration: &FinalOptions, icon: Option<String>) -> (result: WindowsInfo)
        ensures
            result.bundle_name@ == configuration.app_name_view(),
            result.bundle_identifier@ == (match opt_view(configuration.options_view().identifier) {
                Some(i) => i,
                None => configuration.app_name_view(),
            }),
            result.bundle_author@ == Seq::<char>::empty(),
            result.bundle_major_version == major_version_of(configuration.options_view()),
            result.bundle_minor_version == (match configuration.options_view().minor_version {
                Some(v) => v,
                None => 0,
            }),
            result.bundle_patch_version == (match configuration.options_view().patch_version {
                Some(v) => v,
                None => 0,
            }),
            result.bundle_icon@ == (match icon {
                Some(i) => "100 ICON \""@ + i@ + "\""@,
                None => Seq::<char>::empty(),
            }),
            result.executable_name@ == executable_file_name(configuration.base_executable_name(), configuration.os_view()),
    {
        let bundle_identifier = match configuration.identifier() {
            Some(i) => i,
            None => configuration.app_name(),
        };
        let bundle_icon = match icon {
            Some(i) => concat3("100 ICON \"", i.as_str(), "\""),
            None => String::new(),
        };
        WindowsInfo {
            bundle_name: configuration.app_name(),
            bundle_identifier,
            bundle_author: String::new(),
            bundle_major_version: configuration.major_version(),
            bundle_minor_version: configuration.minor_version(),
            bundle_patch_version: configuration.patch_version(),
            bundle_icon,
            executable_name: configuration.executable_name(),
        }
    }

    /// The app's name in the bundle location, with `bin` in it holding the
    /// executable.
    pub fn layout(&self, configuration: &FinalOptions) -> (result: WindowsLayout)
        ensures
            result.app_dir@ == joined(
                match opt_view(configuration.options_view().bundle_dir) {
                    Some(d) => d,
                    None => configuration.default_bundle_location_view(),
                },
                configuration.app_name_view(),
            ),
            result.binary_dir@ == joined(result.app_dir@, "bin"@),
            result.executable_path@ == joined(
                result.binary_dir@,
                executable_file_name(configuration.base_executable_name(), configuration.os_view()),
            ),
    {
        let app_dir = join(configuration.bundle_location().as_str(), configuration.app_name().as_str());
        let binary_dir = join(app_dir.as_str(), "bin");
        let executable_path = join(binary_dir.as_str(), configuration.executable_name().as_str());
        WindowsLayout { app_dir, binary_dir, executable_path }
    }
}

/// Whether a list of strings holds the given text.
fn is_listed(list: &Vec<String>, item: &str) -> (result: bool)
    ensures
        result == views(list@).contains(item@),
{
    let mut i: usize = 0;
    while i < list.len()
        invariant
            i <= list@.len(),
            forall|j: int| 0 <= j < i ==> views(list@)[j] != item@,
        decreases list@.len() - i,
    {
        if str_eq(list[i].as_str(), item) {
            assert(views(list@)[i as int] == item@);
            return true;
        }
        i = i + 1;
    }
    false
}

} // verus!

use gtoolkit_vm::builder::bundlers::{MacInfo, WindowsInfo};
use gtoolkit_vm::builder::templates::{info_plist, windows_manifest, windows_resource};
use gtoolkit_vm::builder::bundlers::{
    bundler_for, compile_binary_arguments, compile_binary_environment, compiled_libraries_directory,
    compiled_library_destination, libraries_by_dependencies, BundlerKind, LinuxBundler, MacBundler,
    WindowsBundler,
};
use gtoolkit_vm::builder::definitions::{cairo, git, pixman, png_static, zlib_static};
use gtoolkit_vm::builder::error::Error;
use gtoolkit_vm::builder::legacy;
use gtoolkit_vm::builder::legacy::FinalOptions;
use gtoolkit_vm::builder::library::{CMakeLibrary, Library, NativeLibrary};
use gtoolkit_vm::builder::location::{
    CompiledLibraryName, GitLocation, GitSourcesAction, GitSourcesStage, LibraryLocation,
    PathLocation, SourcesError, TarArchive, TarUrlLocation,
};
use gtoolkit_vm::builder::native::{msvc_include_directories, msvc_lib_directories};
use gtoolkit_vm::builder::options::{
    BuildOptions, BundleOptions, Executable, ExecutableOptions, ResolvedOptions,
};
use gtoolkit_vm::builder::target::{Target, ThirdPartyLibrary};
use gtoolkit_vm::platform::OperatingSystem;

fn linux_bundle(options: BuildOptions) -> BundleOptions {
    let resolved = ResolvedOptions::new(
        options,
        Some("/ws".to_string()),
        Target::X8664UnknownlinuxGNU,
        OperatingSystem::Linux,
    );
    BundleOptions::new(resolved, vec![Executable::App, Executable::Cli])
}

fn run_args(action: GitSourcesAction) -> Vec<String> {
    match action {
        GitSourcesAction::Run(args) => args,
        GitSourcesAction::Finish(_) => panic!("expected a command"),
    }
}

#[test]
fn targets_by_name() {
    assert_eq!(Target::from_str("x86_64-apple-darwin"), Ok(Target::X8664appleDarwin));
    assert_eq!(Target::from_str("X86_64-PC-WINDOWS-MSVC"), Ok(Target::X8664pcWindowsMsvc));
    assert_eq!(Target::from_str("sparc"), Err("Invalid variant: sparc".to_string()));
    assert_eq!(Target::AArch64appleDarwin.to_string(), "aarch64-apple-darwin");
    assert!(Target::X8664UnknownlinuxGNU.is_unix());
    assert!(Target::X8664pcWindowsMsvc.is_windows());
    assert_eq!(Target::variants().len(), 4);
}

#[test]
fn libraries_by_name() {
    assert_eq!(ThirdPartyLibrary::from_str("Cairo"), Ok(ThirdPartyLibrary::Cairo));
    assert_eq!(ThirdPartyLibrary::from_str("sdl2"), Ok(ThirdPartyLibrary::Sdl2));
    assert_eq!(ThirdPartyLibrary::Skia.to_string(), "skia");
    assert!(ThirdPartyLibrary::from_str("openssl").is_err());
    assert_eq!(legacy::ThirdPartyLibrary::from_str("SLD2"), Ok(legacy::ThirdPartyLibrary::Sdl2));
    assert!(legacy::ThirdPartyLibrary::from_str("sdl2").is_err());
    assert_eq!(legacy::ThirdPartyLibrary::Sdl2.to_string(), "sld2");
}

#[test]
fn resolved_options_defaults() {
    let bundle = linux_bundle(BuildOptions::default());
    let resolved = bundle.resolved_options();
    assert_eq!(resolved.target_dir(), "/ws/target");
    assert_eq!(resolved.app_name(), "VM");
    assert_eq!(resolved.identifier(), "VM");
    assert_eq!(resolved.executable_name(), "VM");
    assert_eq!(bundle.compilation_location(), "/ws/target/x86_64-unknown-linux-gnu/debug");
    assert_eq!(bundle.bundle_location(), "/ws/target/x86_64-unknown-linux-gnu/build/bundle");
    assert_eq!(bundle.third_party_libraries_directory(), "/ws/third_party");
    assert_eq!(bundle.bundled_executable_name(&Executable::Cli), "VM-cli");
    assert_eq!(bundle.compiled_executable_name(&Executable::App), "vm_client");
}

#[test]
fn resolved_options_given_values() {
    let mut options = BuildOptions::default();
    options.release = true;
    options.app_name = Some("GlamorousToolkit".to_string());
    options.target_dir = Some("/tmp/build".to_string());
    options.bundle_dir = Some("/tmp/bundle".to_string());
    options.libraries = Some(vec![ThirdPartyLibrary::Cairo, ThirdPartyLibrary::Boxer]);
    let bundle = linux_bundle(options);
    assert_eq!(bundle.compilation_location(), "/tmp/build/x86_64-unknown-linux-gnu/release");
    assert_eq!(bundle.bundle_location(), "/tmp/bundle");
    assert_eq!(bundle.libraries().len(), 2);
    assert_eq!(bundle.libraries()[0].name(), "cairo");
    assert_eq!(bundle.libraries()[1].name(), "Boxer");
    assert_eq!(libraries_by_dependencies(&bundle, true), vec![0]);
    assert_eq!(libraries_by_dependencies(&bundle, false), vec![1]);
}

#[test]
fn windows_executables_have_extension() {
    let resolved = ResolvedOptions::new(
        BuildOptions::default(),
        None,
        Target::X8664pcWindowsMsvc,
        OperatingSystem::Windows,
    );
    let bundle = BundleOptions::new(resolved, vec![Executable::App]);
    assert_eq!(bundle.bundled_executable_name(&Executable::App), "VM.exe");
    assert_eq!(bundle.compiled_executable_name(&Executable::Cli), "vm_client-cli.exe");
    assert_eq!(bundle.third_party_libraries_directory(), "third_party");
}

#[test]
fn git_location_steps() {
    let location = GitLocation::new("https://github.com/feenkcom/gtoolkit.git").unwrap().tag("v1.0".to_string());
    let (stage, action) = location.ensure_sources_step(GitSourcesStage::Start, "third_party/gt", false);
    assert_eq!(stage, GitSourcesStage::Cloning);
    assert_eq!(
        run_args(action),
        vec!["clone", "https://github.com/feenkcom/gtoolkit.git", "third_party/gt"]
    );
    let (stage, action) = location.ensure_sources_step(stage, "third_party/gt", true);
    assert_eq!(stage, GitSourcesStage::Cleaning);
    assert_eq!(run_args(action), vec!["clean", "-fdx"]);
    let (stage, action) = location.ensure_sources_step(stage, "third_party/gt", false);
    assert_eq!(stage, GitSourcesStage::Fetching);
    assert_eq!(run_args(action), vec!["fetch", "--all", "--tags"]);
    let (stage, action) = location.ensure_sources_step(stage, "third_party/gt", true);
    assert_eq!(stage, GitSourcesStage::CheckingOut);
    assert_eq!(run_args(action), vec!["checkout", "tags/v1.0"]);
    let (stage, action) = location.ensure_sources_step(stage, "third_party/gt", false);
    assert_eq!(stage, GitSourcesStage::Done);
    match action {
        GitSourcesAction::Finish(Err(SourcesError::CheckoutFailed(reason))) => assert_eq!(
            reason,
            "Could not checkout tag v1.0 of https://github.com/feenkcom/gtoolkit.git"
        ),
        _ => panic!("expected a failed checkout"),
    }
}

#[test]
fn git_location_parses_the_repository_url() {
    assert!(GitLocation::new("not a url").is_none());
    assert!(GitLocation::new("").is_none());
    let location = GitLocation::new("HTTPS://Example.COM/a/../repo.git").unwrap();
    assert_eq!(location.repository, "https://example.com/repo.git");
    let location = GitLocation::new("https://example.com").unwrap();
    assert_eq!(location.repository, "https://example.com/");
}

#[test]
fn git_location_failed_clone_and_existing_sources() {
    let location = GitLocation::new("https://example.com/repo.git").unwrap();
    let (stage, action) = location.ensure_sources_step(GitSourcesStage::Cloning, "d", false);
    assert_eq!(stage, GitSourcesStage::Done);
    match action {
        GitSourcesAction::Finish(Err(SourcesError::CloneFailed(repository))) => {
            assert_eq!(repository, "https://example.com/repo.git")
        }
        _ => panic!("expected a failed clone"),
    }
    let (stage, action) = location.ensure_sources_step(GitSourcesStage::Start, "d", true);
    assert_eq!(stage, GitSourcesStage::Cleaning);
    assert_eq!(run_args(action), vec!["clean", "-fdx"]);
    assert_eq!(location.checkout_arguments(), vec!["pull"]);
    let (_, action) = location.ensure_sources_step(GitSourcesStage::CheckingOut, "d", true);
    assert!(matches!(action, GitSourcesAction::Finish(Ok(()))));
    assert_eq!(location.source_directory("third_party", "repo"), "third_party/repo");
    let custom = location.directory("custom".to_string());
    assert_eq!(custom.source_directory("third_party", "repo"), "third_party/custom");
}

#[test]
fn path_and_tar_locations() {
    let path = PathLocation::new("sources".to_string());
    assert!(path.ensure_sources(true).is_ok());
    assert!(matches!(path.ensure_sources(false), Err(SourcesError::SourcesMissing(_))));
    let tar = TarUrlLocation::new("https://example.com/a.tar.xz".to_string())
        .archive(TarArchive::Xz)
        .sources("a-1.0".to_string());
    assert_eq!(tar.unpacked_sources_directory("third_party/a"), Some("third_party/a/a-1.0".to_string()));
    let plain = TarUrlLocation::new("https://example.com/b.tar.gz".to_string());
    assert_eq!(plain.unpacked_sources_directory("third_party/b"), None);
}

#[test]
fn compiled_library_names() {
    let default = CompiledLibraryName::Default;
    assert_eq!(default.file_name(OperatingSystem::Linux, "git2"), "libgit2.so");
    assert_eq!(default.file_name(OperatingSystem::MacOs, "git2"), "libgit2.dylib");
    assert_eq!(default.file_name(OperatingSystem::Windows, "git2"), "git2.dll");
    assert!(default.matches(OperatingSystem::Linux, "git2", "/build/lib/LIBGIT2.so"));
    assert!(!default.matches(OperatingSystem::Linux, "git2", "/build/lib/libgit2.so.1"));
    let matching = CompiledLibraryName::Matching("png".to_string());
    assert!(matching.matches(OperatingSystem::Linux, "png", "/build/lib/libpng16.so.16"));
    assert!(!matching.matches(OperatingSystem::Linux, "png", "/build/lib/libpng16.a"));
}

#[test]
fn compiled_library_found_in_first_directory_that_has_it() {
    let library = Library::CMake(CMakeLibrary::new(
        "ssh2",
        LibraryLocation::Path(PathLocation::new("p".to_string())),
    ));
    let listings = vec![
        vec!["/t/ssh2/lib/other.so".to_string()],
        vec!["/t/ssh2/bin/libssh2.so".to_string(), "/t/ssh2/bin/x".to_string()],
    ];
    assert_eq!(
        library.compiled_library(OperatingSystem::Linux, &listings),
        Some("/t/ssh2/bin/libssh2.so".to_string())
    );
    assert_eq!(library.compiled_library(OperatingSystem::Windows, &listings), None);
}

#[test]
fn cmake_defines_and_flags() {
    let bundle = linux_bundle(BuildOptions::default());
    let png = png_static();
    let defines = png.cmake_defines(&bundle, Some("/usr/local".to_string()));
    assert_eq!(defines[0].0, "CMAKE_PREFIX_PATH");
    assert_eq!(defines[0].1, "/ws/target/zlib;/usr/local");
    assert_eq!(defines[1], ("PNG_SHARED".to_string(), "OFF".to_string()));
    assert_eq!(defines[2], ("PNG_ARM_NEON".to_string(), "off".to_string()));
    assert_eq!(png.linker_search_flags(&bundle), vec!["-L/ws/target/zlib/lib"]);
    assert_eq!(zlib_static().cmake_prefix_path(&bundle, None), "");
}

#[test]
fn cmake_defines_on_macos() {
    let resolved = ResolvedOptions::new(
        BuildOptions::default(),
        Some("/ws".to_string()),
        Target::AArch64appleDarwin,
        OperatingSystem::MacOs,
    );
    let bundle = BundleOptions::new(resolved, vec![Executable::App]);
    let defines = zlib_static().cmake_defines(&bundle, None);
    assert_eq!(defines[1], ("CMAKE_OSX_ARCHITECTURES".to_string(), "arm64".to_string()));
    assert_eq!(defines.len(), 3);
}

#[test]
fn pkg_config_directories_of_existing() {
    let bundle = linux_bundle(BuildOptions::default());
    let zlib = NativeLibrary::CMake(zlib_static());
    let existing = vec!["/ws/target/zlib/share/pkgconfig".to_string()];
    assert_eq!(
        zlib.pkg_config_directory(&bundle, &existing),
        Some("/ws/target/zlib/share/pkgconfig".to_string())
    );
    assert_eq!(zlib.pkg_config_directory(&bundle, &vec![]), None);
    assert_eq!(NativeLibrary::Pixman(pixman()).pkg_config_directory(&bundle, &existing), None);
}

#[test]
fn cairo_unix_build() {
    let bundle = linux_bundle(BuildOptions::default());
    let cairo = cairo();
    assert_eq!(
        cairo.configure_arguments(&bundle),
        vec![
            "--prefix=/ws/target/cairo",
            "--exec-prefix=/ws/target/cairo",
            "--libdir=/ws/target/cairo/lib"
        ]
    );
    assert_eq!(cairo.configure_script(&bundle), "/ws/third_party/cairo/configure");
    let existing = vec!["/ws/target/png/lib/pkgconfig".to_string()];
    let environment = cairo.unix_build_environment(
        &bundle,
        &existing,
        vec!["/usr/lib/pkgconfig".to_string()],
        Some("-O2".to_string()),
    );
    assert_eq!(
        environment.pkg_config_path,
        vec!["/ws/target/png/lib/pkgconfig", "../pixman", "/usr/lib/pkgconfig"]
    );
    assert_eq!(environment.cpp_flags, "-O2 -I/ws/target/pixman/include/pixman-1");
    assert_eq!(environment.libs, "-lbz2");
    let no_flags = cairo.unix_build_environment(&bundle, &vec![], vec![], None);
    assert_eq!(no_flags.cpp_flags, " -I/ws/target/pixman/include/pixman-1");
}

#[test]
fn cairo_windows_build() {
    let resolved = ResolvedOptions::new(
        BuildOptions::default(),
        Some("C:/ws".to_string()),
        Target::X8664pcWindowsMsvc,
        OperatingSystem::Windows,
    );
    let bundle = BundleOptions::new(resolved, vec![Executable::App]);
    let cairo = cairo();
    assert_eq!(
        cairo.windows_make_arguments(&bundle),
        vec![
            "cairo",
            "-f",
            "C:/ws/third_party/cairo/Makefile.win32",
            "CFG=release",
            "PIXMAN_PATH=C:/ws/target/pixman",
            "ZLIB_PATH=C:/ws/target/zlib",
            "LIBPNG_PATH=C:/ws/target/png"
        ]
    );
    assert_eq!(
        cairo.patch_windows_features_makefile("\t@echo a\n\t@echo b"),
        "\t@coreutils echo a\n\t@coreutils echo b"
    );
    assert_eq!(
        cairo.patch_windows_makefile("x\n@for x in $(enabled_cairo_headers); do echo \"\tsrc/$$x\"; done\ny"),
        "x\n\ny"
    );
    let common = "CFLAGS = -MD\nDEFAULT_LDFLAGS = -nologo $(CFG_LDFLAGS)\n";
    let patched = cairo.patch_windows_common_makefile(common);
    assert!(patched.starts_with("CFLAGS = -MT\nDEFAULT_LDFLAGS = -nologo $(CFG_LDFLAGS)\nDEFAULT_LDFLAGS += -LIBPATH:\"C:\\Program Files (x86)\\Windows Kits\\10\\Lib\\10.0.19041.0\\um\\x64\"\n"));
    assert_eq!(msvc_include_directories().len(), 4);
    assert_eq!(msvc_lib_directories().len(), 3);
}

#[test]
fn library_directories() {
    let bundle = linux_bundle(BuildOptions::default());
    let git = Library::CMake(git(OperatingSystem::Linux));
    assert_eq!(
        git.compiled_library_directories(&bundle),
        vec!["/ws/target/git2/lib", "/ws/target/git2/bin"]
    );
    assert_eq!(git.source_directory(&bundle), "/ws/third_party/git2");
    assert!(git.has_dependencies(&bundle));
    assert_eq!(
        Library::Cairo(cairo()).compiled_library_directories(&bundle),
        vec!["/ws/target/cairo/lib"]
    );
    assert_eq!(
        compiled_library_destination(&bundle, &git),
        "/ws/target/x86_64-unknown-linux-gnu/debug/shared_libraries/libgit2.so"
    );
    assert_eq!(
        compiled_libraries_directory(&bundle),
        "/ws/target/x86_64-unknown-linux-gnu/debug/shared_libraries"
    );
}

#[test]
fn bundlers_by_target() {
    assert_eq!(bundler_for(Target::AArch64appleDarwin), BundlerKind::Mac);
    assert_eq!(bundler_for(Target::X8664appleDarwin), BundlerKind::Mac);
    assert_eq!(bundler_for(Target::X8664pcWindowsMsvc), BundlerKind::Windows);
    assert_eq!(bundler_for(Target::X8664UnknownlinuxGNU), BundlerKind::Linux);
}

#[test]
fn cargo_invocation() {
    let mut options = BuildOptions::default();
    options.verbose = 2;
    options.release = true;
    options.vmmaker_vm = Some("/opt/vm".to_string());
    let bundle = linux_bundle(options);
    let executable = ExecutableOptions::new(&bundle, Executable::Cli);
    assert_eq!(
        compile_binary_arguments(&executable),
        vec![
            "build",
            "--package",
            "vm-client",
            "--bin",
            "vm_client-cli",
            "--target",
            "x86_64-unknown-linux-gnu",
            "-vv",
            "--release"
        ]
    );
    let environment = compile_binary_environment(&executable);
    assert_eq!(environment[0], ("CARGO_TARGET_DIR".to_string(), "/ws/target".to_string()));
    assert_eq!(environment[1], ("VM_CLIENT_VMMAKER".to_string(), "/opt/vm".to_string()));
    let quiet = linux_bundle(BuildOptions::default());
    let app = ExecutableOptions::new(&quiet, Executable::App);
    assert_eq!(compile_binary_arguments(&app).len(), 7);
    assert_eq!(compile_binary_environment(&app).len(), 1);
}

#[test]
fn linux_bundle_layout() {
    let bundle = linux_bundle(BuildOptions::default());
    let bundler = LinuxBundler::new();
    let layout = bundler.layout(&bundle);
    assert_eq!(layout.app_dir, "/ws/target/x86_64-unknown-linux-gnu/build/bundle/VM");
    assert_eq!(layout.binary_dir, "/ws/target/x86_64-unknown-linux-gnu/build/bundle/VM/bin");
    assert_eq!(layout.library_dir, "/ws/target/x86_64-unknown-linux-gnu/build/bundle/VM/lib");
    assert_eq!(
        bundler.bundled_executable_path(&bundle, &Executable::Cli),
        "/ws/target/x86_64-unknown-linux-gnu/build/bundle/VM/bin/VM-cli"
    );
    assert_eq!(bundler.rpath_arguments(), vec!["--set-rpath", "$ORIGIN/../lib"]);
}

#[test]
fn mac_bundle_layout() {
    let mut options = BuildOptions::default();
    options.app_name = Some("GlamorousToolkit".to_string());
    options.identifier = Some("com.gtoolkit".to_string());
    options.bundle_dir = Some("/out".to_string());
    let resolved = ResolvedOptions::new(options, None, Target::AArch64appleDarwin, OperatingSystem::MacOs);
    let bundle = BundleOptions::new(resolved, vec![Executable::App]);
    let bundler = MacBundler::new();
    let layout = bundler.layout(&bundle);
    assert_eq!(layout.app_dir, "/out/GlamorousToolkit.app");
    assert_eq!(layout.contents_dir, "/out/GlamorousToolkit.app/Contents");
    assert_eq!(layout.resources_dir, "/out/GlamorousToolkit.app/Contents/Resources");
    assert_eq!(layout.macos_dir, "/out/GlamorousToolkit.app/Contents/MacOS");
    assert_eq!(layout.info_plist, "/out/GlamorousToolkit.app/Contents/Info.plist");
    let executable = ExecutableOptions::new(&bundle, Executable::App);
    let info = bundler.info(&executable, "1.2.3".to_string());
    assert_eq!(info.bundle_name, "GlamorousToolkit");
    assert_eq!(info.bundle_display_name, "GlamorousToolkit");
    assert_eq!(info.executable_name, "GlamorousToolkit");
    assert_eq!(info.bundle_identifier, "com.gtoolkit");
    assert_eq!(info.bundle_version, "1.2.3");
}

fn legacy_options() -> legacy::BuildOptions {
    legacy::BuildOptions {
        verbose: 0,
        release: false,
        debug_symbols: false,
        target: None,
        target_dir: None,
        app_name: None,
        bundle_dir: None,
        plist_file: None,
        executable_name: None,
        major_version: None,
        minor_version: None,
        patch_version: None,
        identifier: None,
        author: None,
        icons: None,
        libraries: None,
    }
}

#[test]
fn final_options_versions() {
    let host = Target::X8664UnknownlinuxGNU;
    let plain = FinalOptions::new(legacy_options(), None, host, OperatingSystem::Linux);
    assert_eq!(plain.major_version(), 1);
    assert_eq!(plain.minor_version(), 0);
    assert_eq!(plain.patch_version(), 0);
    let mut minor = legacy_options();
    minor.minor_version = Some(3);
    let with_minor = FinalOptions::new(minor, None, host, OperatingSystem::Linux);
    assert_eq!(with_minor.major_version(), 0);
    assert_eq!(with_minor.minor_version(), 3);
    let mut major = legacy_options();
    major.major_version = Some(2);
    major.patch_version = Some(7);
    let with_major = FinalOptions::new(major, None, host, OperatingSystem::Linux);
    assert_eq!(with_major.major_version(), 2);
    assert_eq!(with_major.patch_version(), 7);
}

#[test]
fn final_options_locations_and_names() {
    let mut options = legacy_options();
    options.release = true;
    options.executable_name = Some("gt".to_string());
    let linux = FinalOptions::new(options.clone(), Some("/ws".to_string()), Target::X8664UnknownlinuxGNU, OperatingSystem::Linux);
    assert_eq!(linux.target_dir(), "/ws/target");
    assert_eq!(linux.compilation_location(), "/ws/target/x86_64-unknown-linux-gnu/release");
    assert_eq!(linux.bundle_location(), "/ws/target/x86_64-unknown-linux-gnu/release/bundle");
    assert_eq!(linux.executable_name(), "gt");
    assert_eq!(linux.cli_executable_name(), "gt-cli");
    assert_eq!(linux.app_name(), "VM");
    assert_eq!(linux.profile(), "release");
    assert_eq!(linux.third_party_libraries_directory("/cwd"), "/ws/third_party");
    let windows = FinalOptions::new(options, None, Target::X8664pcWindowsMsvc, OperatingSystem::Windows);
    assert_eq!(windows.executable_name(), "gt.exe");
    assert_eq!(windows.cli_executable_name(), "gt-cli.exe");
    assert_eq!(windows.third_party_libraries_directory("/cwd"), "/cwd/third_party");
}

#[test]
fn windows_bundle() {
    let mut options = legacy_options();
    options.icons = Some(vec![
        "icons/missing.ico".to_string(),
        "icons/app.png".to_string(),
        "icons/app.ico".to_string(),
    ]);
    options.app_name = Some("GT".to_string());
    options.minor_version = Some(4);
    options.bundle_dir = Some("C:/out".to_string());
    let configuration = FinalOptions::new(options, None, Target::X8664pcWindowsMsvc, OperatingSystem::Windows);
    let bundler = WindowsBundler::new();
    let existing = vec!["icons/app.png".to_string(), "icons/app.ico".to_string()];
    let icon = bundler.create_ico(&configuration, &existing);
    assert_eq!(icon, Some("icons/app.ico".to_string()));
    assert_eq!(bundler.create_ico(&configuration, &vec![]), None);
    let info = bundler.info(&configuration, icon);
    assert_eq!(info.bundle_name, "GT");
    assert_eq!(info.bundle_identifier, "GT");
    assert_eq!(info.bundle_author, "");
    assert_eq!(info.bundle_major_version, 0);
    assert_eq!(info.bundle_minor_version, 4);
    assert_eq!(info.bundle_patch_version, 0);
    assert_eq!(info.bundle_icon, "100 ICON \"icons/app.ico\"");
    assert_eq!(info.executable_name, "GT.exe");
    let temp = bundler.temporary_directory("C:/work");
    assert_eq!(temp, "C:/work/temp");
    assert_eq!(bundler.resource_file_path(&configuration, &temp), "C:/work/temp/GT.exe.rc");
    assert_eq!(bundler.manifest_file_path(&configuration, &temp), "C:/work/temp/GT.exe.manifest");
    let layout = bundler.layout(&configuration);
    assert_eq!(layout.app_dir, "C:/out/GT");
    assert_eq!(layout.binary_dir, "C:/out/GT/bin");
    assert_eq!(layout.executable_path, "C:/out/GT/bin/GT.exe");
}

#[test]
fn build_errors() {
    let error = Error::new("Failed to build".to_string());
    assert_eq!(error.to_string(), "Failed to build");
    let caused = error.from("disk full".to_string());
    assert_eq!(caused.to_string(), "Failed to build\nCaused by: disk full");
    let result: Result<u32, Error> = caused.result();
    assert!(result.is_err());
}

#[test]
fn every_library_is_built_exactly_once() {
    let mut options = BuildOptions::default();
    options.libraries = Some(vec![
        ThirdPartyLibrary::Boxer,
        ThirdPartyLibrary::Git,
        ThirdPartyLibrary::Pixman,
        ThirdPartyLibrary::Cairo,
    ]);
    let bundle = linux_bundle(options);
    let first = libraries_by_dependencies(&bundle, false);
    let after = libraries_by_dependencies(&bundle, true);
    assert_eq!(first, vec![0, 2]);
    assert_eq!(after, vec![1, 3]);
}

#[test]
fn git_sources_always_end_within_five_steps() {
    let location = GitLocation::new("https://example.com/r.git").unwrap().branch("main".to_string());
    for outcomes in 0u32..32 {
        let mut stage = GitSourcesStage::Start;
        let mut steps = 0;
        while stage != GitSourcesStage::Done {
            let outcome = outcomes & (1 << steps) != 0;
            stage = location.ensure_sources_step(stage, "d", outcome).0;
            steps += 1;
        }
        assert!(steps <= 5);
    }
}

#[test]
fn copied_library_is_recognised() {
    for os in [OperatingSystem::Linux, OperatingSystem::MacOs, OperatingSystem::Windows] {
        let name = CompiledLibraryName::Default.file_name(os, "Skia");
        let path = gtoolkit_vm::paths::join("/bundle/lib", &name);
        assert!(CompiledLibraryName::Default.matches(os, "Skia", &path));
    }
}

#[test]
fn bundle_templates_are_filled_in() {
    let mac = MacInfo {
        bundle_name: "GlamorousToolkit".to_string(),
        bundle_display_name: "Glamorous Toolkit".to_string(),
        executable_name: "GlamorousToolkit-cli".to_string(),
        bundle_identifier: "com.feenk.gtoolkit".to_string(),
        bundle_version: "1.2.3".to_string(),
    };
    let plist = info_plist(&mac).unwrap();
    assert!(plist.contains("<string>Glamorous Toolkit</string>"));
    assert!(plist.contains("<string>GlamorousToolkit-cli</string>"));
    assert!(plist.contains("<string>com.feenk.gtoolkit</string>"));
    assert!(plist.contains("<key>CFBundleVersion</key>\n  <string>1.2.3</string>"));
    assert!(!plist.contains("{{"));
    let windows = WindowsInfo {
        bundle_name: "GlamorousToolkit".to_string(),
        bundle_identifier: "com.feenk.gtoolkit".to_string(),
        bundle_author: "feenk gmbh".to_string(),
        bundle_major_version: 1,
        bundle_minor_version: 2,
        bundle_patch_version: 30,
        bundle_icon: "2 ICON \"app.ico\"".to_string(),
        executable_name: "GlamorousToolkit".to_string(),
    };
    let resource = windows_resource(&windows).unwrap();
    assert!(resource.contains("1 RT_MANIFEST \"GlamorousToolkit.manifest\""));
    assert!(resource.contains("FILEVERSION     1,2,30,0"));
    assert!(resource.contains("VALUE \"CompanyName\", \"feenk gmbh\\0\""));
    assert!(!resource.contains("{{"));
    let manifest = windows_manifest(&windows).unwrap();
    assert!(manifest.contains("name=\"com.feenk.gtoolkit\""));
    assert!(!manifest.contains("{{"));
}

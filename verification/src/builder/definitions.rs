//! The third-party libraries a bundle can include, and where each comes
//! from.
use vstd::prelude::*;
use crate::platform::OperatingSystem;
use crate::text::copy_str;
use super::location::{
    LibraryLocation, GitLocation, GitVersion, TarUrlLocation, TarArchive, CompiledLibraryName,
    repository_text,
};
use super::library::{
    CMakeLibrary, RustLibrary, OpenSSLLibrary, PixmanLibrary, CairoLibrary, NativeLibrary,
    NativeLibraryDependencies, FileNamed, Library, library_name_of,
};
use super::builds::defines_view;
use super::target::ThirdPartyLibrary;

use super::files::{named_by, any_named, wild_matches};

verus! {

/// The location is the given tag of the given git repository, cloned into
/// the default directory.
pub open spec fn git_tag_location(location: LibraryLocation, repository: Seq<char>, tag: Seq<char>) -> bool {
    &&& location matches LibraryLocation::Git(g)
    &&& g.repository@ == repository_text(repository)
    &&& g.version matches GitVersion::Tag(t) && t@ == tag
    &&& g.directory is None
}

/// The location is the latest revision of the given git repository.
pub open spec fn git_latest_location(location: LibraryLocation, repository: Seq<char>) -> bool {
    &&& location matches LibraryLocation::Git(g)
    &&& g.repository@ == repository_text(repository)
    &&& g.version is Latest
    &&& g.directory is None
}

/// The location is a tar archive of the given kind whose sources are in the
/// given folder.
pub open spec fn tar_location(location: LibraryLocation, url: Seq<char>, archive: TarArchive, folder: Seq<char>) -> bool {
    &&& location matches LibraryLocation::Tar(t)
    &&& t.url@ == url
    &&& t.archive == archive
    &&& t.sources matches Some(f) && f@ == folder
}

/// A compiled name that matches file names holding `text`.
pub open spec fn matching(name: CompiledLibraryName, text: Seq<char>) -> bool {
    name matches CompiledLibraryName::Matching(s) && s@ == text
}

/// The name of a native library.
pub open spec fn native_name(library: NativeLibrary) -> Seq<char> {
    match library {
        NativeLibrary::CMake(l) => l.name@,
        NativeLibrary::Pixman(_) => "pixman"@,
        NativeLibrary::OpenSSL(_) => "openssl"@,
        NativeLibrary::Cairo(_) => "cairo"@,
    }
}

/// The names of native libraries, in order.
pub open spec fn native_names(libraries: Seq<NativeLibrary>) -> Seq<Seq<char>> {
    libraries.map_values(|l: NativeLibrary| native_name(l))
}

fn git_tag(repository: &str, tag: &str) -> (result: LibraryLocation)
    ensures
        git_tag_location(result, repository@, tag@),
{
    LibraryLocation::Git(GitLocation::known(repository).tag(copy_str(tag)))
}

fn git_latest(repository: &str) -> (result: LibraryLocation)
    ensures
        git_latest_location(result, repository@),
{
    LibraryLocation::Git(GitLocation::known(repository))
}

fn matching_name(text: &str) -> (result: CompiledLibraryName)
    ensures
        matching(result, text@),
{
    CompiledLibraryName::Matching(copy_str(text))
}

impl OpenSSLLibrary {
    /// OpenSSL 1.1.1k from its repository.
    pub fn new() -> (result: Self)
        ensures
            git_tag_location(result.location, "https://github.com/openssl/openssl.git"@, "OpenSSL_1_1_1k"@),
    {
        OpenSSLLibrary { location: git_tag("https://github.com/openssl/openssl.git", "OpenSSL_1_1_1k") }
    }
}

impl PixmanLibrary {
    /// pixman 0.40.0 from its release archive.
    pub fn new() -> (result: Self)
        ensures
            tar_location(
                result.location,
                "https://www.cairographics.org/releases/pixman-0.40.0.tar.gz"@,
                TarArchive::Gz,
                "pixman-0.40.0"@,
            ),
    {
        PixmanLibrary {
            location: LibraryLocation::Tar(
                TarUrlLocation::new(copy_str("https://www.cairographics.org/releases/pixman-0.40.0.tar.gz"))
                    .archive(TarArchive::Gz)
                    .sources(copy_str("pixman-0.40.0")),
            ),
        }
    }
}

impl CairoLibrary {
    /// cairo 1.17.4 from its snapshot archive, depending on pixman, a
    /// static freetype and a static png.
    pub fn new() -> (result: Self)
        ensures
            tar_location(
                result.location,
                "https://cairographics.org/snapshots/cairo-1.17.4.tar.xz"@,
                TarArchive::Xz,
                "cairo-1.17.4"@,
            ),
            native_names(result.dependencies.dependencies@) == seq!["pixman"@, "freetype"@, "png"@],
            result.zlib.name@ == "zlib"@,
            result.png.name@ == "png"@,
    {
        let dependencies = NativeLibraryDependencies::new()
            .add(NativeLibrary::Pixman(pixman()))
            .add(NativeLibrary::CMake(freetype_static()))
            .add(NativeLibrary::CMake(png_static()));
        let result = CairoLibrary {
            location: LibraryLocation::Tar(
                TarUrlLocation::new(copy_str("https://cairographics.org/snapshots/cairo-1.17.4.tar.xz"))
                    .archive(TarArchive::Xz)
                    .sources(copy_str("cairo-1.17.4")),
            ),
            dependencies,
            pixman: pixman(),
            zlib: zlib_static(),
            png: png_static(),
        };
        assert(native_names(result.dependencies.dependencies@) =~= seq!["pixman"@, "freetype"@, "png"@]);
        result
    }
}

/// libgit2 1.1.1. On Windows libssh2 is cloned next to it and embedded; on
/// the other systems libssh2 is a CMake dependency built with OpenSSL.
pub fn git(os: OperatingSystem) -> (result: CMakeLibrary)
    ensures
        result.name@ == "git2"@,
        os == OperatingSystem::Windows ==> {
            &&& result.compiled_name is Default
            &&& defines_view(result.defines@) == seq![("EMBED_SSH_PATH"@, "../../ssh2"@), ("BUILD_CLAR"@, "OFF"@)]
            &&& result.dependencies.dependencies@.len() == 0
            &&& result.location matches LibraryLocation::Multiple(locations) && locations@.len() == 2
        },
        os != OperatingSystem::Windows ==> {
            &&& matching(result.compiled_name, "git2"@)
            &&& git_tag_location(result.location, "https://github.com/libgit2/libgit2.git"@, "v1.1.1"@)
            &&& defines_view(result.defines@) == seq![
                ("CMAKE_SHARED_LINKER_FLAGS:STRING"@, "-lssl -lcrypto"@),
                ("BUILD_CLAR"@, "OFF"@),
            ]
            &&& native_names(result.dependencies.dependencies@) == seq!["ssh2"@]
        },
{
    if os == OperatingSystem::Windows {
        let libssh2 = LibraryLocation::Git(
            GitLocation::known("https://github.com/libssh2/libssh2.git")
                .directory(copy_str("ssh2"))
                .tag(copy_str("libssh2-1.9.0")),
        );
        let libgit2 = git_tag("https://github.com/libgit2/libgit2.git", "v1.1.1");
        let result = CMakeLibrary::new("git2", LibraryLocation::Multiple(vec![libssh2, libgit2]))
            .define("EMBED_SSH_PATH", "../../ssh2")
            .define("BUILD_CLAR", "OFF");
        assert(defines_view(result.defines@) =~= seq![("EMBED_SSH_PATH"@, "../../ssh2"@), ("BUILD_CLAR"@, "OFF"@)]);
        result
    } else {
        let openssl = OpenSSLLibrary::new();
        let libssh2 = CMakeLibrary::new(
            "ssh2",
            git_tag("https://github.com/libssh2/libssh2.git", "libssh2-1.9.0"),
        ).depends(NativeLibrary::OpenSSL(openssl));
        let result = CMakeLibrary::new("git2", git_tag("https://github.com/libgit2/libgit2.git", "v1.1.1"))
            .compiled_name(matching_name("git2"))
            .define("CMAKE_SHARED_LINKER_FLAGS:STRING", "-lssl -lcrypto")
            .define("BUILD_CLAR", "OFF")
            .depends(NativeLibrary::CMake(libssh2));
        assert(defines_view(result.defines@) =~= seq![
            ("CMAKE_SHARED_LINKER_FLAGS:STRING"@, "-lssl -lcrypto"@),
            ("BUILD_CLAR"@, "OFF"@),
        ]);
        assert(native_names(result.dependencies.dependencies@) =~= seq!["ssh2"@]);
        result
    }
}

/// A static freetype 2.11.0.
pub fn freetype_static() -> (result: CMakeLibrary)
    ensures
        result.name@ == "freetype"@,
        matching(result.compiled_name, "freetype"@),
        git_tag_location(result.location, "https://github.com/freetype/freetype.git"@, "VER-2-11-0"@),
        result.defines@.len() == 0,
        result.dependencies.dependencies@.len() == 0,
{
    CMakeLibrary::new("freetype", git_tag("https://github.com/freetype/freetype.git", "VER-2-11-0"))
        .compiled_name(matching_name("freetype"))
}

/// A static zlib 1.2.11, whose shared libraries are deleted after the build.
pub fn zlib_static() -> (result: CMakeLibrary)
    ensures
        result.name@ == "zlib"@,
        matching(result.compiled_name, "zlib"@),
        git_tag_location(result.location, "https://github.com/madler/zlib.git"@, "v1.2.11"@),
        defines_view(result.defines@) == seq![("BUILD_SHARED_LIBS"@, "OFF"@)],
        result.dependencies.dependencies@.len() == 0,
        result.files_to_delete@.len() == 1,
        forall|name: Seq<char>| #[trigger] named_by(result.files_to_delete@[0], name) <==> (wild_matches(
            "*zlib.*"@,
            name,
        ) || wild_matches("*.dylib"@, name) || wild_matches("*.so"@, name)),
{
    let windows = copy_str("*zlib.*");
    let mac = copy_str("*.dylib");
    let linux = copy_str("*.so");
    let ghost expected = seq![FileNamed::Wildmatch(windows), FileNamed::Wildmatch(mac), FileNamed::Wildmatch(linux)];
    let patterns = vec![FileNamed::Wildmatch(windows), FileNamed::Wildmatch(mac), FileNamed::Wildmatch(linux)];
    let ghost ps = patterns@;
    assert(ps =~= expected);
    let result = CMakeLibrary::new("zlib", git_tag("https://github.com/madler/zlib.git", "v1.2.11"))
        .compiled_name(matching_name("zlib"))
        .define("BUILD_SHARED_LIBS", "OFF")
        .delete(FileNamed::AnyNamed(patterns));
    assert(defines_view(result.defines@) =~= seq![("BUILD_SHARED_LIBS"@, "OFF"@)]);
    proof {
        assert(result.files_to_delete@[0]->AnyNamed_0@ == ps);
        assert(ps.skip(1)[0] == ps[1]);
        assert(ps.skip(1).skip(1)[0] == ps[2]);
        assert(ps.skip(1).skip(1).skip(1).len() == 0);
        assert forall|name: Seq<char>| #[trigger] named_by(result.files_to_delete@[0], name) <==> (wild_matches(
            "*zlib.*"@,
            name,
        ) || wild_matches("*.dylib"@, name) || wild_matches("*.so"@, name)) by {
            let f = result.files_to_delete@[0];
            assert(f is AnyNamed);
            assert(named_by(f, name) == any_named(ps, name));
            let p1 = ps.skip(1);
            let p2 = p1.skip(1);
            let p3 = p2.skip(1);
            assert(any_named(ps, name) == (named_by(ps[0], name) || any_named(p1, name)));
            assert(any_named(p1, name) == (named_by(p1[0], name) || any_named(p2, name)));
            assert(any_named(p2, name) == (named_by(p2[0], name) || any_named(p3, name)));
            assert(!any_named(p3, name));
            assert(named_by(ps[0], name) == wild_matches("*zlib.*"@, name));
            assert(named_by(p1[0], name) == wild_matches("*.dylib"@, name));
            assert(named_by(p2[0], name) == wild_matches("*.so"@, name));
        }
    }
    result
}

/// A static png 1.6.37, built on a static zlib.
pub fn png_static() -> (result: CMakeLibrary)
    ensures
        result.name@ == "png"@,
        matching(result.compiled_name, "png"@),
        git_tag_location(result.location, "https://github.com/glennrp/libpng.git"@, "v1.6.37"@),
        defines_view(result.defines@) == seq![("PNG_SHARED"@, "OFF"@), ("PNG_ARM_NEON"@, "off"@)],
        native_names(result.dependencies.dependencies@) == seq!["zlib"@],
{
    let result = CMakeLibrary::new("png", git_tag("https://github.com/glennrp/libpng.git", "v1.6.37"))
        .depends(NativeLibrary::CMake(zlib_static()))
        .compiled_name(matching_name("png"))
        .define("PNG_SHARED", "OFF")
        .define("PNG_ARM_NEON", "off");
    assert(defines_view(result.defines@) =~= seq![("PNG_SHARED"@, "OFF"@), ("PNG_ARM_NEON"@, "off"@)]);
    assert(native_names(result.dependencies.dependencies@) =~= seq!["zlib"@]);
    result
}

/// A shared freetype, built on a static png.
pub fn freetype() -> (result: CMakeLibrary)
    ensures
        result.name@ == "freetype"@,
        matching(result.compiled_name, "freetype"@),
        git_tag_location(result.location, "https://github.com/freetype/freetype.git"@, "VER-2-11-0"@),
        defines_view(result.defines@) == seq![("BUILD_SHARED_LIBS"@, "true"@)],
        native_names(result.dependencies.dependencies@) == seq!["png"@],
{
    let result = freetype_static().define("BUILD_SHARED_LIBS", "true").depends(NativeLibrary::CMake(png_static()));
    assert(defines_view(result.defines@) =~= seq![("BUILD_SHARED_LIBS"@, "true"@)]);
    assert(native_names(result.dependencies.dependencies@) =~= seq!["png"@]);
    result
}

/// The cairo library.
pub fn cairo() -> (result: CairoLibrary)
    ensures
        tar_location(
            result.location,
            "https://cairographics.org/snapshots/cairo-1.17.4.tar.xz"@,
            TarArchive::Xz,
            "cairo-1.17.4"@,
        ),
        native_names(result.dependencies.dependencies@) == seq!["pixman"@, "freetype"@, "png"@],
{
    CairoLibrary::new()
}

/// The pixman library.
pub fn pixman() -> (result: PixmanLibrary)
    ensures
        tar_location(
            result.location,
            "https://www.cairographics.org/releases/pixman-0.40.0.tar.gz"@,
            TarArchive::Gz,
            "pixman-0.40.0"@,
        ),
{
    PixmanLibrary::new()
}

/// SDL 2.0.14.
pub fn sdl2() -> (result: CMakeLibrary)
    ensures
        result.name@ == "SDL2"@,
        matching(result.compiled_name, "SDL2"@),
        git_tag_location(result.location, "https://github.com/libsdl-org/SDL.git"@, "release-2.0.14"@),
        result.defines@.len() == 0,
        result.dependencies.dependencies@.len() == 0,
{
    CMakeLibrary::new("SDL2", git_tag("https://github.com/libsdl-org/SDL.git", "release-2.0.14"))
        .compiled_name(matching_name("SDL2"))
}

/// The Rust library `name` from the latest revision of `repository`.
pub open spec fn rust_library_from(library: RustLibrary, name: Seq<char>, repository: Seq<char>) -> bool {
    &&& library.name@ == name
    &&& git_latest_location(library.location, repository)
    &&& library.features@.len() == 0
}

/// The glutin windowing library.
pub fn glutin() -> (result: RustLibrary)
    ensures
        rust_library_from(result, "Glutin"@, "https://github.com/feenkcom/libglutin.git"@),
        result.required_executables@.len() == 0,
{
    RustLibrary::new("Glutin", git_latest("https://github.com/feenkcom/libglutin.git"))
}

/// The boxer library.
pub fn boxer() -> (result: RustLibrary)
    ensures
        rust_library_from(result, "Boxer"@, "https://github.com/feenkcom/gtoolkit-boxer.git"@),
        result.required_executables@.len() == 0,
{
    RustLibrary::new("Boxer", git_latest("https://github.com/feenkcom/gtoolkit-boxer.git"))
}

/// The skia graphics library, whose build needs python.
pub fn skia() -> (result: RustLibrary)
    ensures
        rust_library_from(result, "Skia"@, "https://github.com/feenkcom/libskia.git"@),
        crate::text::views(result.required_executables@) == seq!["python"@],
{
    let result = RustLibrary::new("Skia", git_latest("https://github.com/feenkcom/libskia.git")).requiring("python");
    assert(crate::text::views(result.required_executables@) =~= seq!["python"@]);
    result
}

/// The gleam OpenGL library.
pub fn gleam() -> (result: RustLibrary)
    ensures
        rust_library_from(result, "Gleam"@, "https://github.com/feenkcom/libgleam.git"@),
        result.required_executables@.len() == 0,
{
    RustLibrary::new("Gleam", git_latest("https://github.com/feenkcom/libgleam.git"))
}

/// The winit windowing library.
pub fn winit() -> (result: RustLibrary)
    ensures
        rust_library_from(result, "Winit"@, "https://github.com/feenkcom/libwinit.git"@),
        result.required_executables@.len() == 0,
{
    RustLibrary::new("Winit", git_latest("https://github.com/feenkcom/libwinit.git"))
}

/// The clipboard library.
pub fn clipboard() -> (result: RustLibrary)
    ensures
        rust_library_from(result, "Clipboard"@, "https://github.com/feenkcom/libclipboard.git"@),
        result.required_executables@.len() == 0,
{
    RustLibrary::new("Clipboard", git_latest("https://github.com/feenkcom/libclipboard.git"))
}

/// The name of the library each third-party library stands for.
pub open spec fn third_party_library_name(library: ThirdPartyLibrary) -> Seq<char> {
    match library {
        ThirdPartyLibrary::Git => "git2"@,
        ThirdPartyLibrary::Sdl2 => "SDL2"@,
        ThirdPartyLibrary::Boxer => "Boxer"@,
        ThirdPartyLibrary::Pixman => "pixman"@,
        ThirdPartyLibrary::Freetype => "freetype"@,
        ThirdPartyLibrary::Cairo => "cairo"@,
        ThirdPartyLibrary::Skia => "Skia"@,
        ThirdPartyLibrary::Glutin => "Glutin"@,
        ThirdPartyLibrary::Gleam => "Gleam"@,
        ThirdPartyLibrary::Winit => "Winit"@,
        ThirdPartyLibrary::Clipboard => "Clipboard"@,
    }
}

impl ThirdPartyLibrary {
    /// The library this third-party library stands for: the CMake projects
    /// git, SDL2 and freetype, cairo, pixman, or one of the Rust libraries.
    pub fn as_library(&self, os: OperatingSystem) -> (result: Library)
        ensures
            library_name_of(result) == third_party_library_name(*self),
            match self {
                ThirdPartyLibrary::Git | ThirdPartyLibrary::Sdl2 | ThirdPartyLibrary::Freetype => result is CMake,
                ThirdPartyLibrary::Cairo => result is Cairo,
                ThirdPartyLibrary::Pixman => result is Pixman,
                _ => result is Rust,
            },
    {
        match self {
            ThirdPartyLibrary::Boxer => Library::Rust(boxer()),
            ThirdPartyLibrary::Skia => Library::Rust(skia()),
            ThirdPartyLibrary::Glutin => Library::Rust(glutin()),
            ThirdPartyLibrary::Gleam => Library::Rust(gleam()),
            ThirdPartyLibrary::Winit => Library::Rust(winit()),
            ThirdPartyLibrary::Clipboard => Library::Rust(clipboard()),
            ThirdPartyLibrary::Git => Library::CMake(git(os)),
            ThirdPartyLibrary::Sdl2 => Library::CMake(sdl2()),
            ThirdPartyLibrary::Freetype => Library::CMake(freetype()),
            ThirdPartyLibrary::Cairo => Library::Cairo(cairo()),
            ThirdPartyLibrary::Pixman => Library::Pixman(pixman()),
        }
    }
}

} // verus!

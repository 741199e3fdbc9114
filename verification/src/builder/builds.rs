//! How each kind of library is configured and built: the builder methods of
//! CMake and Rust libraries and the arguments of their builds, the
//! configuration of OpenSSL, pixman and cairo, and the patches applied to
//! their makefiles.
use vstd::prelude::*;
use crate::paths::{joined, join};
use crate::text::{copy_str, concat, views, join_strings, replace, replace_all};
use crate::text::join as join_texts;
use super::location::{LibraryLocation, CompiledLibraryName};
use super::options::{BundleOptions, LibraryContext, profile_name};
use super::target::{Target, target_name};
use super::library::{
    CMakeLibrary, RustLibrary, OpenSSLLibrary, PixmanLibrary, CairoLibrary, NativeLibrary,
    NativeLibraryDependencies, FileNamed, prefixes_of_all, native_prefix, cairo_prefix,
    cairo_library_prefix,
};

verus! {

/// The defines of a CMake library as text pairs.
pub open spec fn defines_view(defines: Seq<(String, String)>) -> Seq<(Seq<char>, Seq<char>)> {
    defines.map_values(|d: (String, String)| (d.0@, d.1@))
}

impl CMakeLibrary {
    /// A CMake library with the given name and sources, found under its own
    /// name, with no defines, dependencies or files to delete.
    pub fn new(name: &str, location: LibraryLocation) -> (result: Self)
        ensures
            result.name@ == name@,
            result.compiled_name is Default,
            result.location == location,
            result.defines@.len() == 0,
            result.dependencies.dependencies@.len() == 0,
            result.files_to_delete@.len() == 0,
    {
        CMakeLibrary {
            name: copy_str(name),
            compiled_name: CompiledLibraryName::Default,
            location,
            defines: Vec::new(),
            dependencies: NativeLibraryDependencies::new(),
            files_to_delete: Vec::new(),
        }
    }

    /// The same library with one more CMake definition.
    pub fn define(self, define: &str, value: &str) -> (result: Self)
        ensures
            result.name == self.name,
            result.compiled_name == self.compiled_name,
            result.location == self.location,
            defines_view(result.defines@) == defines_view(self.defines@).push((define@, value@)),
            result.dependencies == self.dependencies,
            result.files_to_delete == self.files_to_delete,
    {
        let mut defines = self.defines;
        defines.push((copy_str(define), copy_str(value)));
        assert(defines_view(defines@) =~= defines_view(self.defines@).push((define@, value@)));
        CMakeLibrary {
            name: self.name,
            compiled_name: self.compiled_name,
            location: self.location,
            defines,
            dependencies: self.dependencies,
            files_to_delete: self.files_to_delete,
        }
    }

    /// The same library depending on one more native library.
    pub fn depends(self, library: NativeLibrary) -> (result: Self)
        ensures
            result.name == self.name,
            result.compiled_name == self.compiled_name,
            result.location == self.location,
            result.defines == self.defines,
            result.dependencies.dependencies@ == self.dependencies.dependencies@.push(library),
            result.files_to_delete == self.files_to_delete,
    {
        CMakeLibrary {
            name: self.name,
            compiled_name: self.compiled_name,
            location: self.location,
            defines: self.defines,
            dependencies: self.dependencies.add(library),
            files_to_delete: self.files_to_delete,
        }
    }

    /// The same library, recognised by the given compiled name.
    pub fn compiled_name(self, compiled_name: CompiledLibraryName) -> (result: Self)
        ensures
            result.name == self.name,
            result.compiled_name == compiled_name,
            result.location == self.location,
            result.defines == self.defines,
            result.dependencies == self.dependencies,
            result.files_to_delete == self.files_to_delete,
    {
        CMakeLibrary {
            name: self.name,
            compiled_name,
            location: self.location,
            defines: self.defines,
            dependencies: self.dependencies,
            files_to_delete: self.files_to_delete,
        }
    }

    /// The same library with one more pattern of files to delete after the
    /// build.
    pub fn delete(self, entry_to_delete: FileNamed) -> (result: Self)
        ensures
            result.name == self.name,
            result.compiled_name == self.compiled_name,
            result.location == self.location,
            result.defines == self.defines,
            result.dependencies == self.dependencies,
            result.files_to_delete@ == self.files_to_delete@.push(entry_to_delete),
    {
        let mut entries = self.files_to_delete;
        entries.push(entry_to_delete);
        CMakeLibrary {
            name: self.name,
            compiled_name: self.compiled_name,
            location: self.location,
            defines: self.defines,
            dependencies: self.dependencies,
            files_to_delete: entries,
        }
    }

    /// The directory the library is installed into: its name in the build
    /// directory.
    pub fn native_library_prefix(&self, options: &BundleOptions) -> (result: String)
        ensures
            result@ == joined(options.context().target_dir, self.name@),
    {
        join(options.target_dir(), self.name.as_str())
    }

    /// The directories where a pkg-config file of the library may be, in the
    /// order they are looked at.
    pub fn pkg_config_candidates(&self, options: &BundleOptions) -> (result: Vec<String>)
        ensures
            views(result@) == seq![
                joined(joined(joined(options.context().target_dir, self.name@), "lib"@), "pkgconfig"@),
                joined(joined(joined(options.context().target_dir, self.name@), "share"@), "pkgconfig"@),
            ],
    {
        let prefix = self.native_library_prefix(options);
        let result = vec![
            join(join(prefix.as_str(), "lib").as_str(), "pkgconfig"),
            join(join(prefix.as_str(), "share").as_str(), "pkgconfig"),
        ];
        assert(views(result@) =~= seq![
            joined(joined(joined(options.context().target_dir, self.name@), "lib"@), "pkgconfig"@),
            joined(joined(joined(options.context().target_dir, self.name@), "share"@), "pkgconfig"@),
        ]);
        result
    }

    /// The `CMAKE_PREFIX_PATH` of the build: the install directories of the
    /// dependencies, then the one from the environment if any, joined by `;`.
    pub fn cmake_prefix_path(&self, options: &BundleOptions, from_environment: Option<String>) -> (result: String)
        ensures
            result@ == join_texts(
                prefixes_of_all(self.dependencies.dependencies@, options.context()) + (match from_environment {
                    Some(p) => seq![p@],
                    None => Seq::<Seq<char>>::empty(),
                }),
                ";"@,
            ),
    {
        let mut paths = self.dependencies.dependency_prefixes(options);
        let ghost before = views(paths@);
        match from_environment {
            Some(p) => {
                paths.push(p);
            },
            None => {},
        }
        assert(views(paths@) =~= prefixes_of_all(self.dependencies.dependencies@, options.context()) + (match from_environment {
            Some(p) => seq![p@],
            None => Seq::<Seq<char>>::empty(),
        }));
        join_strings(&paths, ";")
    }

    /// The C flags that let the compiler find the libraries of the
    /// dependencies: `-L` and the `lib` directory of each install directory.
    pub fn linker_search_flags(&self, options: &BundleOptions) -> (result: Vec<String>)
        ensures
            result@.len() == prefixes_of_all(self.dependencies.dependencies@, options.context()).len(),
            forall|i: int| 0 <= i < result@.len() ==> (#[trigger] result@[i])@ == "-L"@ + joined(
                prefixes_of_all(self.dependencies.dependencies@, options.context())[i],
                "lib"@,
            ),
    {
        let prefixes = self.dependencies.dependency_prefixes(options);
        let mut flags: Vec<String> = Vec::new();
        let mut i: usize = 0;
        while i < prefixes.len()
            invariant
                i <= prefixes@.len(),
                flags@.len() == i,
                forall|j: int| 0 <= j < i ==> (#[trigger] flags@[j])@ == "-L"@ + joined(prefixes@[j]@, "lib"@),
            decreases prefixes@.len() - i,
        {
            flags.push(concat("-L", join(prefixes[i].as_str(), "lib").as_str()));
            i = i + 1;
        }
        assert forall|j: int| 0 <= j < flags@.len() implies (#[trigger] flags@[j])@ == "-L"@ + joined(
            prefixes_of_all(self.dependencies.dependencies@, options.context())[j],
            "lib"@,
        ) by {
            assert(views(prefixes@)[j] == prefixes@[j]@);
        }
        flags
    }
}

impl CMakeLibrary {
    /// The variables CMake is configured with: `CMAKE_PREFIX_PATH`, then
    /// `CMAKE_OSX_ARCHITECTURES` on macOS targets, then the library's own
    /// defines in order.
    pub fn cmake_defines(&self, options: &BundleOptions, from_environment: Option<String>) -> (result: Vec<(String, String)>)
        ensures
            defines_view(result@) == seq![(
                "CMAKE_PREFIX_PATH"@,
                join_texts(
                    prefixes_of_all(self.dependencies.dependencies@, options.context()) + (match from_environment {
                        Some(p) => seq![p@],
                        None => Seq::<Seq<char>>::empty(),
                    }),
                    ";"@,
                ),
            )] + (match osx_architecture(options.context().target) {
                Some(a) => seq![("CMAKE_OSX_ARCHITECTURES"@, a)],
                None => Seq::<(Seq<char>, Seq<char>)>::empty(),
            }) + defines_view(self.defines@),
    {
        let mut result: Vec<(String, String)> = Vec::new();
        result.push((copy_str("CMAKE_PREFIX_PATH"), self.cmake_prefix_path(options, from_environment)));
        match cmake_osx_architectures(*options.target()) {
            Some(a) => {
                result.push((copy_str("CMAKE_OSX_ARCHITECTURES"), copy_str(a)));
            },
            None => {},
        }
        let ghost start = defines_view(result@);
        let mut i: usize = 0;
        while i < self.defines.len()
            invariant
                i <= self.defines@.len(),
                defines_view(result@) == start + defines_view(self.defines@).take(i as int),
            decreases self.defines@.len() - i,
        {
            let define = (self.defines[i].0.clone(), self.defines[i].1.clone());
            let ghost before = result@;
            result.push(define);
            proof {
                assert(defines_view(result@) =~= defines_view(before).push((define.0@, define.1@)));
                assert(defines_view(self.defines@).take(i + 1) =~= defines_view(self.defines@).take(i as int).push(
                    (self.defines@[i as int].0@, self.defines@[i as int].1@),
                ));
            }
            i = i + 1;
        }
        assert(defines_view(self.defines@).take(i as int) =~= defines_view(self.defines@));
        result
    }
}

/// The macOS architecture CMake builds for, on macOS targets.
pub open spec fn osx_architecture(target: Target) -> Option<Seq<char>> {
    match target {
        Target::X8664appleDarwin => Some("x86_64"@),
        Target::AArch64appleDarwin => Some("arm64"@),
        _ => None,
    }
}

/// The value of `CMAKE_OSX_ARCHITECTURES` for a target, if it is set.
pub fn cmake_osx_architectures(target: Target) -> (result: Option<&'static str>)
    ensures
        match osx_architecture(target) {
            Some(a) => result matches Some(r) && r@ == a,
            None => result is None,
        },
{
    match target {
        Target::X8664appleDarwin => Some("x86_64"),
        Target::AArch64appleDarwin => Some("arm64"),
        _ => None,
    }
}

impl RustLibrary {
    /// A Rust library with the given name and sources, with no features and
    /// no required executables.
    pub fn new(name: &str, location: LibraryLocation) -> (result: Self)
        ensures
            result.name@ == name@,
            result.location == location,
            result.features@.len() == 0,
            result.required_executables@.len() == 0,
    {
        RustLibrary { name: copy_str(name), location, features: Vec::new(), required_executables: Vec::new() }
    }

    /// The same library with one more feature.
    pub fn feature(self, feature: &str) -> (result: Self)
        ensures
            result.name == self.name,
            result.location == self.location,
            views(result.features@) == views(self.features@).push(feature@),
            result.required_executables == self.required_executables,
    {
        let mut features = self.features;
        features.push(copy_str(feature));
        assert(views(features@) =~= views(self.features@).push(feature@));
        RustLibrary { name: self.name, location: self.location, features, required_executables: self.required_executables }
    }

    /// The same library, which needs one more executable on the path.
    pub fn requiring(self, executable: &str) -> (result: Self)
        ensures
            result.name == self.name,
            result.location == self.location,
            result.features == self.features,
            views(result.required_executables@) == views(self.required_executables@).push(executable@),
    {
        let mut required = self.required_executables;
        required.push(copy_str(executable));
        assert(views(required@) =~= views(self.required_executables@).push(executable@));
        RustLibrary { name: self.name, location: self.location, features: self.features, required_executables: required }
    }

    /// The same library with exactly the given features.
    pub fn features(self, features: Vec<String>) -> (result: Self)
        ensures
            result.name == self.name,
            result.location == self.location,
            result.features == features,
            result.required_executables == self.required_executables,
    {
        RustLibrary { name: self.name, location: self.location, features, required_executables: self.required_executables }
    }

    /// The directory of the crate's sources: its name in the third-party
    /// directory.
    pub fn crate_source_directory(&self, options: &BundleOptions) -> (result: String)
        ensures
            result@ == joined(options.third_party_view(), self.name@),
    {
        join(options.third_party_libraries_directory().as_str(), self.name.as_str())
    }

    /// The arguments of `cargo` that build the crate.
    pub fn cargo_build_arguments(&self, options: &BundleOptions) -> (result: Vec<String>)
        ensures
            views(result@) == seq![
                "build"@,
                "--target"@,
                target_name(options.context().target),
                "--target-dir"@,
                options.context().target_dir,
                "--manifest-path"@,
                joined(joined(options.third_party_view(), self.name@), "Cargo.toml"@),
            ] + (if options.context().release { seq!["--release"@] } else { Seq::<Seq<char>>::empty() }),
    {
        let mut args: Vec<String> = Vec::new();
        args.push(copy_str("build"));
        args.push(copy_str("--target"));
        args.push(options.target().to_string());
        args.push(copy_str("--target-dir"));
        args.push(copy_str(options.target_dir()));
        args.push(copy_str("--manifest-path"));
        args.push(join(self.crate_source_directory(options).as_str(), "Cargo.toml"));
        if options.release() {
            args.push(copy_str("--release"));
        }
        assert(views(args@) =~= seq![
            "build"@,
            "--target"@,
            target_name(options.context().target),
            "--target-dir"@,
            options.context().target_dir,
            "--manifest-path"@,
            joined(joined(options.third_party_view(), self.name@), "Cargo.toml"@),
        ] + (if options.context().release { seq!["--release"@] } else { Seq::<Seq<char>>::empty() }));
        args
    }
}

/// The compiler configuration OpenSSL is configured with for each target.
pub open spec fn openssl_compiler(target: Target) -> Seq<char> {
    match target {
        Target::X8664appleDarwin => "darwin64-x86_64-cc"@,
        Target::AArch64appleDarwin => "darwin64-arm64-cc"@,
        Target::X8664pcWindowsMsvc => "VC-WIN64A"@,
        Target::X8664UnknownlinuxGNU => "linux-x86_64-clang"@,
    }
}

impl OpenSSLLibrary {
    /// The compiler configuration for the build's target.
    pub fn compiler(&self, options: &BundleOptions) -> (result: &'static str)
        ensures
            result@ == openssl_compiler(options.context().target),
    {
        match options.target() {
            Target::X8664appleDarwin => "darwin64-x86_64-cc",
            Target::AArch64appleDarwin => "darwin64-arm64-cc",
            Target::X8664pcWindowsMsvc => "VC-WIN64A",
            Target::X8664UnknownlinuxGNU => "linux-x86_64-clang",
        }
    }

    /// The arguments of `perl` that configure the build: the Configure
    /// script, the profile, the install directory twice, the compiler
    /// configuration, full optimisation and no shared libraries.
    pub fn configure_arguments(&self, options: &BundleOptions) -> (result: Vec<String>)
        ensures
            views(result@) == seq![
                joined(joined(options.third_party_view(), "openssl"@), "Configure"@),
                "--"@ + profile_name(options.context().release),
                "--prefix="@ + native_prefix(NativeLibrary::OpenSSL(*self), options.context()),
                "--openssldir="@ + native_prefix(NativeLibrary::OpenSSL(*self), options.context()),
                openssl_compiler(options.context().target),
                "OPT_LEVEL=3"@,
                "no-shared"@,
            ],
    {
        let prefix = join(join(options.target_dir(), "openssl").as_str(), "build");
        let source = join(options.third_party_libraries_directory().as_str(), "openssl");
        let args = vec![
            join(source.as_str(), "Configure"),
            concat("--", options.profile().as_str()),
            concat("--prefix=", prefix.as_str()),
            concat("--openssldir=", prefix.as_str()),
            copy_str(self.compiler(options)),
            copy_str("OPT_LEVEL=3"),
            copy_str("no-shared"),
        ];
        assert(views(args@) =~= seq![
            joined(joined(options.third_party_view(), "openssl"@), "Configure"@),
            "--"@ + profile_name(options.context().release),
            "--prefix="@ + native_prefix(NativeLibrary::OpenSSL(*self), options.context()),
            "--openssldir="@ + native_prefix(NativeLibrary::OpenSSL(*self), options.context()),
            openssl_compiler(options.context().target),
            "OPT_LEVEL=3"@,
            "no-shared"@,
        ]);
        args
    }
}

/// The makefile of pixman without its demos and tests.
pub open spec fn pixman_patched(contents: Seq<char>) -> Seq<char> {
    replace_all(contents, "SUBDIRS = pixman demos test"@, "SUBDIRS = pixman"@)
}

impl PixmanLibrary {
    /// Removes the demos and tests from pixman's `Makefile.in`.
    pub fn patch_makefile(&self, contents: &str) -> (result: String)
        ensures
            result@ == pixman_patched(contents@),
    {
        proof {
            reveal_strlit("SUBDIRS = pixman demos test");
        }
        replace(contents, "SUBDIRS = pixman demos test", "SUBDIRS = pixman")
    }

    /// The arguments of pixman's configure script: the install directory as
    /// prefix and exec prefix, no shared library and no GTK.
    pub fn configure_arguments(&self, options: &BundleOptions) -> (result: Vec<String>)
        ensures
            views(result@) == seq![
                "--prefix="@ + joined(options.context().target_dir, "pixman"@),
                "--exec-prefix="@ + joined(options.context().target_dir, "pixman"@),
                "--enable-shared=false"@,
                "--disable-gtk"@,
            ],
    {
        let prefix = join(options.target_dir(), "pixman");
        let args = vec![
            concat("--prefix=", prefix.as_str()),
            concat("--exec-prefix=", prefix.as_str()),
            copy_str("--enable-shared=false"),
            copy_str("--disable-gtk"),
        ];
        assert(views(args@) =~= seq![
            "--prefix="@ + joined(options.context().target_dir, "pixman"@),
            "--exec-prefix="@ + joined(options.context().target_dir, "pixman"@),
            "--enable-shared=false"@,
            "--disable-gtk"@,
        ]);
        args
    }

    /// The header directory pixman exports.
    pub fn native_library_include_headers(&self, options: &BundleOptions) -> (result: Vec<String>)
        ensures
            views(result@) == seq![joined(joined(joined(options.context().target_dir, "pixman"@), "include"@), "pixman-1"@)],
    {
        let prefix = join(options.target_dir(), "pixman");
        let result = vec![join(join(prefix.as_str(), "include").as_str(), "pixman-1")];
        assert(views(result@) =~= seq![joined(joined(joined(options.context().target_dir, "pixman"@), "include"@), "pixman-1"@)]);
        result
    }

    /// The library directory pixman exports.
    pub fn native_library_linker_libraries(&self, options: &BundleOptions) -> (result: Vec<String>)
        ensures
            views(result@) == seq![joined(joined(options.context().target_dir, "pixman"@), "lib"@)],
    {
        let prefix = join(options.target_dir(), "pixman");
        let result = vec![join(prefix.as_str(), "lib")];
        assert(views(result@) =~= seq![joined(joined(options.context().target_dir, "pixman"@), "lib"@)]);
        result
    }
}

} // verus!

//! What native libraries export to the libraries built on them: header and
//! library directories, pkg-config directories, the compiler flags made of
//! them, and the directories of the Microsoft toolchain.
use vstd::prelude::*;
use crate::paths::{joined, join};
use crate::text::{copy_str, concat, views};
use super::options::{BundleOptions, LibraryContext};
use super::library::{CMakeLibrary, Library, NativeLibrary, NativeLibraryDependencies};
use super::definitions::native_name;
use super::target::Target;

verus! {

/// The header directories a native library exports: only pixman exports
/// one, `include/pixman-1` in its install directory.
pub open spec fn exported_headers(library: NativeLibrary, c: LibraryContext) -> Seq<Seq<char>> {
    match library {
        NativeLibrary::Pixman(_) => seq![joined(joined(joined(c.target_dir, "pixman"@), "include"@), "pixman-1"@)],
        _ => Seq::empty(),
    }
}

/// The library directories a native library exports: only pixman exports
/// one, `lib` in its install directory.
pub open spec fn exported_link_directories(library: NativeLibrary, c: LibraryContext) -> Seq<Seq<char>> {
    match library {
        NativeLibrary::Pixman(_) => seq![joined(joined(c.target_dir, "pixman"@), "lib"@)],
        _ => Seq::empty(),
    }
}

/// The header directories of a list of dependencies, in order.
pub open spec fn headers_of(dependencies: Seq<NativeLibrary>, c: LibraryContext) -> Seq<Seq<char>>
    decreases dependencies.len(),
{
    if dependencies.len() == 0 {
        Seq::empty()
    } else {
        headers_of(dependencies.drop_last(), c) + exported_headers(dependencies.last(), c)
    }
}

/// The library directories of a list of dependencies, in order.
pub open spec fn link_directories_of(dependencies: Seq<NativeLibrary>, c: LibraryContext) -> Seq<Seq<char>>
    decreases dependencies.len(),
{
    if dependencies.len() == 0 {
        Seq::empty()
    } else {
        link_directories_of(dependencies.drop_last(), c) + exported_link_directories(dependencies.last(), c)
    }
}

/// Each path with the flag before it, all run together with nothing between
/// them.
pub open spec fn flags(flag: Seq<char>, paths: Seq<Seq<char>>) -> Seq<char>
    decreases paths.len(),
{
    if paths.len() == 0 {
        Seq::empty()
    } else {
        flags(flag, paths.drop_last()) + flag + paths.last()
    }
}

/// The directories where the pkg-config file of a native library may be,
/// in the order they are looked at: only CMake libraries have them.
pub open spec fn pkg_config_candidates_of(library: NativeLibrary, c: LibraryContext) -> Seq<Seq<char>> {
    match library {
        NativeLibrary::CMake(l) => seq![
            joined(joined(joined(c.target_dir, l.name@), "lib"@), "pkgconfig"@),
            joined(joined(joined(c.target_dir, l.name@), "share"@), "pkgconfig"@),
        ],
        _ => Seq::empty(),
    }
}

/// The first candidate that is among the existing directories.
pub open spec fn first_existing(candidates: Seq<Seq<char>>, existing: Seq<Seq<char>>) -> Option<Seq<char>>
    decreases candidates.len(),
{
    if candidates.len() == 0 {
        None
    } else if existing.contains(candidates[0]) {
        Some(candidates[0])
    } else {
        first_existing(candidates.skip(1), existing)
    }
}

/// The pkg-config directories of a list of dependencies: for each in
/// order, its first candidate that exists, if any.
pub open spec fn pkg_config_directories_of(
    dependencies: Seq<NativeLibrary>,
    c: LibraryContext,
    existing: Seq<Seq<char>>,
) -> Seq<Seq<char>>
    decreases dependencies.len(),
{
    if dependencies.len() == 0 {
        Seq::empty()
    } else {
        pkg_config_directories_of(dependencies.drop_last(), c, existing) + match first_existing(
            pkg_config_candidates_of(dependencies.last(), c),
            existing,
        ) {
            Some(d) => seq![d],
            None => Seq::empty(),
        }
    }
}

/// The include directories of the Microsoft compiler and Windows SDK that
/// cairo is built against on Windows.
pub open spec fn msvc_include_paths() -> Seq<Seq<char>> {
    seq![
        "C:\\Program Files (x86)\\Microsoft Visual Studio\\2019\\BuildTools\\VC\\Tools\\MSVC\\14.29.30037\\include"@,
        "C:\\Program Files (x86)\\Windows Kits\\10\\Include\\10.0.19041.0\\ucrt"@,
        "C:\\Program Files (x86)\\Windows Kits\\10\\Include\\10.0.19041.0\\shared"@,
        "C:\\Program Files (x86)\\Windows Kits\\10\\Include\\10.0.19041.0\\um"@,
    ]
}

/// The library directories of the Windows SDK and the Microsoft compiler
/// that cairo is linked against on Windows.
pub open spec fn msvc_lib_paths() -> Seq<Seq<char>> {
    seq![
        "C:\\Program Files (x86)\\Windows Kits\\10\\Lib\\10.0.19041.0\\um\\x64"@,
        "C:\\Program Files (x86)\\Windows Kits\\10\\Lib\\10.0.19041.0\\ucrt\\x64"@,
        "C:\\Program Files (x86)\\Microsoft Visual Studio\\2019\\BuildTools\\VC\\Tools\\MSVC\\14.29.30037\\lib\\x64"@,
    ]
}

/// The include directories of the Microsoft toolchain.
pub fn msvc_include_directories() -> (result: Vec<String>)
    ensures
        views(result@) == msvc_include_paths(),
{
    let result = vec![
        copy_str("C:\\Program Files (x86)\\Microsoft Visual Studio\\2019\\BuildTools\\VC\\Tools\\MSVC\\14.29.30037\\include"),
        copy_str("C:\\Program Files (x86)\\Windows Kits\\10\\Include\\10.0.19041.0\\ucrt"),
        copy_str("C:\\Program Files (x86)\\Windows Kits\\10\\Include\\10.0.19041.0\\shared"),
        copy_str("C:\\Program Files (x86)\\Windows Kits\\10\\Include\\10.0.19041.0\\um"),
    ];
    assert(views(result@) =~= msvc_include_paths());
    result
}

/// The library directories of the Microsoft toolchain.
pub fn msvc_lib_directories() -> (result: Vec<String>)
    ensures
        views(result@) == msvc_lib_paths(),
{
    let result = vec![
        copy_str("C:\\Program Files (x86)\\Windows Kits\\10\\Lib\\10.0.19041.0\\um\\x64"),
        copy_str("C:\\Program Files (x86)\\Windows Kits\\10\\Lib\\10.0.19041.0\\ucrt\\x64"),
        copy_str("C:\\Program Files (x86)\\Microsoft Visual Studio\\2019\\BuildTools\\VC\\Tools\\MSVC\\14.29.30037\\lib\\x64"),
    ];
    assert(views(result@) =~= msvc_lib_paths());
    result
}

/// Each path with the flag before it, run together.
pub fn flags_of(flag: &str, paths: &Vec<String>) -> (result: String)
    ensures
        result@ == flags(flag@, views(paths@)),
{
    let mut result = String::new();
    let mut i: usize = 0;
    while i < paths.len()
        invariant
            i <= paths@.len(),
            result@ == flags(flag@, views(paths@).take(i as int)),
        decreases paths@.len() - i,
    {
        let ghost after = views(paths@).take(i + 1);
        assert(after.drop_last() =~= views(paths@).take(i as int));
        assert(after.last() == paths@[i as int]@);
        result.append(flag);
        result.append(paths[i].as_str());
        i = i + 1;
    }
    assert(views(paths@).take(i as int) =~= views(paths@));
    result
}

/// Appends the strings of `tail` to `out`.
fn extend_strings(out: &mut Vec<String>, tail: Vec<String>)
    ensures
        views(final(out)@) == views(old(out)@) + views(tail@),
{
    let mut k: usize = 0;
    let ghost start = views(out@);
    while k < tail.len()
        invariant
            k <= tail@.len(),
            views(out@) == start + views(tail@).take(k as int),
        decreases tail@.len() - k,
    {
        let item = tail[k].clone();
        let ghost before = out@;
        out.push(item);
        proof {
            assert(views(out@) =~= views(before).push(item@));
            assert(views(tail@).take(k + 1) =~= views(tail@).take(k as int).push(item@));
        }
        k = k + 1;
    }
    assert(views(tail@).take(k as int) =~= views(tail@));
}

/// Whether a list of strings holds the given text.
fn holds(list: &Vec<String>, item: &str) -> (result: bool)
    ensures
        result == views(list@).contains(item@),
{
    let mut i: usize = 0;
    while i < list.len()
        invariant
            i <= list@.len(),
            forall|j: int| 0 <= j < i ==> views(list@)[j] != item@,
        decreases list@.len() - i,
    {
        if crate::text::str_eq(list[i].as_str(), item) {
            assert(views(list@)[i as int] == item@);
            return true;
        }
        i = i + 1;
    }
    false
}

/// The programs a library's build needs on the path: pkg-config for CMake
/// projects, the executables a Rust library names, make (and coreutils on
/// Windows) for cairo, make and autoreconf for pixman, make for OpenSSL.
pub open spec fn required_tools_of(library: Library, target: Target) -> Seq<Seq<char>> {
    match library {
        Library::CMake(_) => seq!["pkg-config"@],
        Library::Rust(l) => views(l.required_executables@),
        Library::Cairo(_) => if target == Target::X8664pcWindowsMsvc {
            seq!["make"@, "coreutils"@]
        } else {
            seq!["make"@]
        },
        Library::Pixman(_) => seq!["make"@, "autoreconf"@],
        Library::OpenSSL(_) => seq!["make"@],
    }
}

impl Library {
    /// The programs the library's build needs on the path.
    pub fn required_tools(&self, options: &BundleOptions) -> (result: Vec<String>)
        ensures
            views(result@) == required_tools_of(*self, options.context().target),
    {
        let result = match self {
            Library::CMake(_) => vec![copy_str("pkg-config")],
            Library::Rust(l) => crate::bindings::parameters::copy_strings(&l.required_executables),
            Library::Cairo(_) => {
                if options.target().is_windows() {
                    vec![copy_str("make"), copy_str("coreutils")]
                } else {
                    vec![copy_str("make")]
                }
            },
            Library::Pixman(_) => vec![copy_str("make"), copy_str("autoreconf")],
            Library::OpenSSL(_) => vec![copy_str("make")],
        };
        assert(views(result@) =~= required_tools_of(*self, options.context().target));
        result
    }
}

impl NativeLibrary {
    /// The library's name.
    pub fn name(&self) -> (result: &str)
        ensures
            result@ == native_name(*self),
    {
        match self {
            NativeLibrary::CMake(l) => l.name.as_str(),
            NativeLibrary::Pixman(_) => "pixman",
            NativeLibrary::OpenSSL(_) => "openssl",
            NativeLibrary::Cairo(_) => "cairo",
        }
    }

    /// The directory the library's sources are kept in: its name in the
    /// third-party directory.
    pub fn source_directory(&self, options: &BundleOptions) -> (result: String)
        ensures
            result@ == joined(options.third_party_view(), native_name(*self)),
    {
        join(options.third_party_libraries_directory().as_str(), self.name())
    }

    /// The header directories the library exports.
    pub fn native_library_include_headers(&self, options: &BundleOptions) -> (result: Vec<String>)
        ensures
            views(result@) == exported_headers(*self, options.context()),
    {
        match self {
            NativeLibrary::Pixman(p) => p.native_library_include_headers(options),
            _ => {
                let result: Vec<String> = Vec::new();
                assert(views(result@) =~= Seq::<Seq<char>>::empty());
                result
            },
        }
    }

    /// The library directories the library exports.
    pub fn native_library_linker_libraries(&self, options: &BundleOptions) -> (result: Vec<String>)
        ensures
            views(result@) == exported_link_directories(*self, options.context()),
    {
        match self {
            NativeLibrary::Pixman(p) => p.native_library_linker_libraries(options),
            _ => {
                let result: Vec<String> = Vec::new();
                assert(views(result@) =~= Seq::<Seq<char>>::empty());
                result
            },
        }
    }

    /// The directory of the library's pkg-config file: the first of its
    /// candidates that is among the existing directories.
    pub fn pkg_config_directory(&self, options: &BundleOptions, existing: &Vec<String>) -> (result: Option<String>)
        ensures
            match first_existing(pkg_config_candidates_of(*self, options.context()), views(existing@)) {
                Some(d) => result matches Some(r) && r@ == d,
                None => result is None,
            },
    {
        match self {
            NativeLibrary::CMake(l) => l.pkg_config_directory(options, existing),
            _ => None,
        }
    }
}

impl CMakeLibrary {
    /// The directory of the library's pkg-config file: `lib/pkgconfig` in
    /// its install directory if that exists, else `share/pkgconfig` if that
    /// exists.
    pub fn pkg_config_directory(&self, options: &BundleOptions, existing: &Vec<String>) -> (result: Option<String>)
        ensures
            match first_existing(pkg_config_candidates_of(NativeLibrary::CMake(*self), options.context()), views(existing@)) {
                Some(d) => result matches Some(r) && r@ == d,
                None => result is None,
            },
    {
        let candidates = self.pkg_config_candidates(options);
        let ghost c = views(candidates@);
        proof {
            assert(c == pkg_config_candidates_of(NativeLibrary::CMake(*self), options.context()));
            assert(c.skip(1).skip(1) =~= Seq::<Seq<char>>::empty());
            assert(c.skip(1)[0] == c[1]);
            reveal_with_fuel(first_existing, 3);
        }
        if holds(existing, candidates[0].as_str()) {
            return Some(candidates[0].clone());
        }
        if holds(existing, candidates[1].as_str()) {
            return Some(candidates[1].clone());
        }
        None
    }
}

impl NativeLibraryDependencies {
    /// The header directories the dependencies export, in order.
    pub fn include_headers(&self, options: &BundleOptions) -> (result: Vec<String>)
        ensures
            views(result@) == headers_of(self.dependencies@, options.context()),
    {
        let mut paths: Vec<String> = Vec::new();
        let mut i: usize = 0;
        while i < self.dependencies.len()
            invariant
                i <= self.dependencies@.len(),
                views(paths@) == headers_of(self.dependencies@.take(i as int), options.context()),
            decreases self.dependencies@.len() - i,
        {
            let own = self.dependencies[i].native_library_include_headers(options);
            extend_strings(&mut paths, own);
            proof {
                let next = self.dependencies@.take(i + 1);
                assert(next.drop_last() =~= self.dependencies@.take(i as int));
            }
            i = i + 1;
        }
        assert(self.dependencies@.take(i as int) =~= self.dependencies@);
        paths
    }

    /// The library directories the dependencies export, in order.
    pub fn linker_libraries(&self, options: &BundleOptions) -> (result: Vec<String>)
        ensures
            views(result@) == link_directories_of(self.dependencies@, options.context()),
    {
        let mut paths: Vec<String> = Vec::new();
        let mut i: usize = 0;
        while i < self.dependencies.len()
            invariant
                i <= self.dependencies@.len(),
                views(paths@) == link_directories_of(self.dependencies@.take(i as int), options.context()),
            decreases self.dependencies@.len() - i,
        {
            let own = self.dependencies[i].native_library_linker_libraries(options);
            extend_strings(&mut paths, own);
            proof {
                let next = self.dependencies@.take(i + 1);
                assert(next.drop_last() =~= self.dependencies@.take(i as int));
            }
            i = i + 1;
        }
        assert(self.dependencies@.take(i as int) =~= self.dependencies@);
        paths
    }

    /// `-I` and each exported header directory, run together.
    pub fn include_headers_flags(&self, options: &BundleOptions) -> (result: String)
        ensures
            result@ == flags("-I"@, headers_of(self.dependencies@, options.context())),
    {
        flags_of("-I", &self.include_headers(options))
    }

    /// `-L` and each exported library directory, run together.
    pub fn linker_libraries_flags(&self, options: &BundleOptions) -> (result: String)
        ensures
            result@ == flags("-L"@, link_directories_of(self.dependencies@, options.context())),
    {
        flags_of("-L", &self.linker_libraries(options))
    }

    /// The pkg-config directories of the dependencies, in order, given the
    /// directories that exist.
    pub fn pkg_config_directories(&self, options: &BundleOptions, existing: &Vec<String>) -> (result: Vec<String>)
        ensures
            views(result@) == pkg_config_directories_of(self.dependencies@, options.context(), views(existing@)),
    {
        let mut paths: Vec<String> = Vec::new();
        let mut i: usize = 0;
        while i < self.dependencies.len()
            invariant
                i <= self.dependencies@.len(),
                views(paths@) == pkg_config_directories_of(
                    self.dependencies@.take(i as int),
                    options.context(),
                    views(existing@),
                ),
            decreases self.dependencies@.len() - i,
        {
            let found = self.dependencies[i].pkg_config_directory(options, existing);
            let ghost before = paths@;
            match found {
                Some(d) => {
                    paths.push(d);
                },
                None => {},
            }
            proof {
                let next = self.dependencies@.take(i + 1);
                assert(next.drop_last() =~= self.dependencies@.take(i as int));
                assert(next.last() == self.dependencies@[i as int]);
                assert(views(paths@) =~= views(before) + match first_existing(
                    pkg_config_candidates_of(next.last(), options.context()),
                    views(existing@),
                ) {
                    Some(d) => seq![d],
                    None => Seq::<Seq<char>>::empty(),
                });
            }
            i = i + 1;
        }
        assert(self.dependencies@.take(i as int) =~= self.dependencies@);
        paths
    }
}

} // verus!

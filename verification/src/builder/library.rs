//! The libraries a bundle can be built with: CMake projects, Rust crates,
//! OpenSSL, pixman and cairo, with their dependencies, the directories they
//! are built in and the arguments their builds are run with.
use vstd::prelude::*;
use crate::platform::OperatingSystem;
use crate::paths::{joined, join};
use crate::text::{copy_str, concat, concat3, views, join_strings, replace, replace_all};
use crate::text::join as join_texts;
use crate::bindings::parameters::copy_strings;
use super::location::{LibraryLocation, CompiledLibraryName};
use super::options::{BundleOptions, LibraryContext, profile_name};
use super::target::{Target, target_name};

verus! {

/// A pattern for files to delete after a build.
#[derive(Debug)]
pub enum FileNamed {
    /// Files whose names match a wildcard pattern.
    Wildmatch(String),
    /// Files that match any of the patterns.
    AnyNamed(Vec<FileNamed>),
}

/// A library built with CMake.
#[derive(Debug)]
pub struct CMakeLibrary {
    pub name: String,
    pub compiled_name: CompiledLibraryName,
    pub location: LibraryLocation,
    pub defines: Vec<(String, String)>,
    pub dependencies: NativeLibraryDependencies,
    pub files_to_delete: Vec<FileNamed>,
}

/// The pixman library, built from its release archive.
#[derive(Debug)]
pub struct PixmanLibrary {
    pub location: LibraryLocation,
}

/// The OpenSSL library, built from its repository.
#[derive(Debug)]
pub struct OpenSSLLibrary {
    pub location: LibraryLocation,
}

/// The cairo library, built from its snapshot archive together with pixman,
/// freetype, zlib and png.
#[derive(Debug)]
pub struct CairoLibrary {
    pub location: LibraryLocation,
    pub dependencies: NativeLibraryDependencies,
    pub pixman: PixmanLibrary,
    pub zlib: CMakeLibrary,
    pub png: CMakeLibrary,
}

/// A library written in Rust, built with cargo.
#[derive(Debug)]
pub struct RustLibrary {
    pub name: String,
    pub location: LibraryLocation,
    pub features: Vec<String>,
    pub required_executables: Vec<String>,
}

/// A native library that other libraries can depend on.
#[derive(Debug)]
pub enum NativeLibrary {
    CMake(CMakeLibrary),
    Pixman(PixmanLibrary),
    OpenSSL(OpenSSLLibrary),
    Cairo(CairoLibrary),
}

/// The native libraries a library depends on, in order.
#[derive(Debug)]
pub struct NativeLibraryDependencies {
    pub dependencies: Vec<NativeLibrary>,
}

/// A library a bundle can include.
#[derive(Debug)]
pub enum Library {
    CMake(CMakeLibrary),
    Rust(RustLibrary),
    Cairo(CairoLibrary),
    Pixman(PixmanLibrary),
    OpenSSL(OpenSSLLibrary),
}

/// The directory a native library is installed into.
pub open spec fn native_prefix(library: NativeLibrary, c: LibraryContext) -> Seq<char> {
    match library {
        NativeLibrary::CMake(l) => joined(c.target_dir, l.name@),
        NativeLibrary::Pixman(_) => joined(c.target_dir, "pixman"@),
        NativeLibrary::OpenSSL(_) => joined(joined(c.target_dir, "openssl"@), "build"@),
        NativeLibrary::Cairo(_) => cairo_prefix(c),
    }
}

/// Cairo is built in its sources on Windows and in the build directory
/// elsewhere.
pub open spec fn cairo_prefix(c: LibraryContext) -> Seq<char> {
    if c.target == Target::X8664pcWindowsMsvc {
        joined(c.third_party, "cairo"@)
    } else {
        joined(c.target_dir, "cairo"@)
    }
}

/// The install directories of a list of dependencies: for each dependency
/// in order, those of its own dependencies, then its own.
pub open spec fn prefixes_of_all(dependencies: Seq<NativeLibrary>, c: LibraryContext) -> Seq<Seq<char>>
    decreases dependencies,
{
    if dependencies.len() == 0 {
        Seq::empty()
    } else {
        let last = dependencies[dependencies.len() - 1];
        prefixes_of_all(dependencies.subrange(0, dependencies.len() - 1), c) + prefixes_below(last, c)
            + seq![native_prefix(last, c)]
    }
}

/// The install directories of everything a native library depends on.
pub open spec fn prefixes_below(library: NativeLibrary, c: LibraryContext) -> Seq<Seq<char>>
    decreases library,
{
    match library {
        NativeLibrary::CMake(l) => prefixes_of_all(l.dependencies.dependencies@, c),
        NativeLibrary::Cairo(l) => prefixes_of_all(l.dependencies.dependencies@, c),
        _ => Seq::empty(),
    }
}

impl NativeLibrary {
    /// The directory the library is installed into.
    pub fn native_library_prefix(&self, options: &BundleOptions) -> (result: String)
        ensures
            result@ == native_prefix(*self, options.context()),
    {
        match self {
            NativeLibrary::CMake(l) => join(options.target_dir(), l.name.as_str()),
            NativeLibrary::Pixman(_) => join(options.target_dir(), "pixman"),
            NativeLibrary::OpenSSL(_) => join(join(options.target_dir(), "openssl").as_str(), "build"),
            NativeLibrary::Cairo(_) => cairo_library_prefix(options),
        }
    }

    /// The install directories of everything the library depends on.
    pub fn native_library_dependency_prefixes(&self, options: &BundleOptions) -> (result: Vec<String>)
        ensures
            views(result@) == prefixes_below(*self, options.context()),
        decreases self,
    {
        match self {
            NativeLibrary::CMake(l) => l.dependencies.dependency_prefixes(options),
            NativeLibrary::Cairo(l) => l.dependencies.dependency_prefixes(options),
            _ => {
                let result: Vec<String> = Vec::new();
                assert(views(result@) =~= Seq::<Seq<char>>::empty());
                result
            },
        }
    }
}

/// The directory cairo is built in.
pub fn cairo_library_prefix(options: &BundleOptions) -> (result: String)
    ensures
        result@ == cairo_prefix(options.context()),
{
    if options.target().is_windows() {
        join(options.third_party_libraries_directory().as_str(), "cairo")
    } else {
        join(options.target_dir(), "cairo")
    }
}

/// Appends the strings of `tail` to `out`.
fn append_strings(out: &mut Vec<String>, tail: Vec<String>)
    ensures
        views(final(out)@) == views(old(out)@) + views(tail@),
{
    let mut k: usize = 0;
    let ghost start = views(out@);
    while k < tail.len()
        invariant
            k <= tail@.len(),
            views(out@) == start + views(tail@).take(k as int),
        decreases tail@.len() - k,
    {
        let item = tail[k].clone();
        let ghost before = out@;
        out.push(item);
        proof {
            assert(views(tail@)[k as int] == item@);
            assert(views(out@) =~= views(before).push(item@));
            assert(views(tail@).take(k + 1) =~= views(tail@).take(k as int).push(item@));
        }
        k = k + 1;
        assert(views(out@) =~= start + views(tail@).take(k as int));
    }
    assert(views(tail@).take(k as int) =~= views(tail@));
}

impl NativeLibraryDependencies {
    /// No dependencies.
    pub fn new() -> (result: Self)
        ensures
            result.dependencies@ == Seq::<NativeLibrary>::empty(),
    {
        NativeLibraryDependencies { dependencies: Vec::new() }
    }

    /// The same dependencies with one more after them.
    pub fn add(self, dependency: NativeLibrary) -> (result: Self)
        ensures
            result.dependencies@ == self.dependencies@.push(dependency),
    {
        let mut dependencies = self.dependencies;
        dependencies.push(dependency);
        NativeLibraryDependencies { dependencies }
    }

    /// Whether there are no dependencies.
    pub fn is_empty(&self) -> (result: bool)
        ensures
            result == (self.dependencies@.len() == 0),
    {
        self.dependencies.len() == 0
    }

    /// The install directories of the dependencies and of everything they
    /// depend on, each dependency after its own dependencies.
    pub fn dependency_prefixes(&self, options: &BundleOptions) -> (result: Vec<String>)
        ensures
            views(result@) == prefixes_of_all(self.dependencies@, options.context()),
        decreases self,
    {
        let mut paths: Vec<String> = Vec::new();
        let mut i: usize = 0;
        while i < self.dependencies.len()
            invariant
                i <= self.dependencies@.len(),
                views(paths@) == prefixes_of_all(self.dependencies@.subrange(0, i as int), options.context()),
            decreases self.dependencies@.len() - i,
        {
            let dependency = &self.dependencies[i];
            assert(decreases_to!(self => self.dependencies));
            assert(decreases_to!(self.dependencies => self.dependencies@));
            assert(decreases_to!(self.dependencies@ => self.dependencies@[i as int]));
            let below = dependency.native_library_dependency_prefixes(options);
            append_strings(&mut paths, below);
            let own = dependency.native_library_prefix(options);
            paths.push(own);
            proof {
                let next = self.dependencies@.subrange(0, i + 1);
                assert(next.subrange(0, next.len() - 1) =~= self.dependencies@.subrange(0, i as int));
                assert(next[next.len() - 1] == self.dependencies@[i as int]);
            }
            i = i + 1;
            assert(views(paths@) =~= prefixes_of_all(self.dependencies@.subrange(0, i as int), options.context()));
        }
        assert(self.dependencies@.subrange(0, i as int) =~= self.dependencies@);
        paths
    }
}


/// The name of a library.
pub open spec fn library_name_of(library: Library) -> Seq<char> {
    match library {
        Library::CMake(l) => l.name@,
        Library::Rust(l) => l.name@,
        Library::Cairo(_) => "cairo"@,
        Library::Pixman(_) => "pixman"@,
        Library::OpenSSL(_) => "openssl"@,
    }
}

/// Whether a library depends on native libraries.
pub open spec fn library_has_dependencies(library: Library) -> bool {
    match library {
        Library::CMake(l) => l.dependencies.dependencies@.len() > 0,
        Library::Cairo(l) => l.dependencies.dependencies@.len() > 0,
        _ => false,
    }
}

/// The directories a library's compiled files end up in.
pub open spec fn compiled_directories_of(library: Library, c: LibraryContext) -> Seq<Seq<char>> {
    match library {
        Library::CMake(l) => {
            let prefix = joined(c.target_dir, l.name@);
            seq![joined(prefix, "lib"@), joined(prefix, "bin"@)]
        },
        Library::Rust(_) => seq![
            joined(joined(c.target_dir, target_name(c.target)), profile_name(c.release)),
        ],
        Library::Cairo(_) => if c.target == Target::X8664pcWindowsMsvc {
            seq![joined(joined(cairo_prefix(c), "src"@), profile_name(c.release))]
        } else {
            seq![joined(cairo_prefix(c), "lib"@)]
        },
        _ => Seq::empty(),
    }
}

/// The first entry of `entries` that is the library's compiled file.
pub open spec fn first_compiled(
    library: Library,
    os: OperatingSystem,
    entries: Seq<Seq<char>>,
) -> Option<Seq<char>>
    decreases entries.len(),
{
    if entries.len() == 0 {
        None
    } else if library.compiled_library_name_view().matches_spec(os, library_name_of(library), entries[0]) {
        Some(entries[0])
    } else {
        first_compiled(library, os, entries.skip(1))
    }
}

/// The library's compiled file: the first match in the first directory that
/// holds one.
pub open spec fn first_compiled_in(
    library: Library,
    os: OperatingSystem,
    listings: Seq<Seq<Seq<char>>>,
) -> Option<Seq<char>>
    decreases listings.len(),
{
    if listings.len() == 0 {
        None
    } else {
        match first_compiled(library, os, listings[0]) {
            Some(found) => Some(found),
            None => first_compiled_in(library, os, listings.skip(1)),
        }
    }
}

/// The views of listings of paths.
pub open spec fn listing_views(listings: Seq<Vec<String>>) -> Seq<Seq<Seq<char>>> {
    listings.map_values(|l: Vec<String>| views(l@))
}

impl Library {
    /// How the library's compiled file is recognised.
    pub open spec fn compiled_library_name_view(&self) -> CompiledLibraryName {
        match self {
            Library::CMake(l) => l.compiled_name,
            _ => CompiledLibraryName::Default,
        }
    }

    /// The library's name.
    pub open spec fn name_view(&self) -> Seq<char> {
        library_name_of(*self)
    }

    /// The library's name.
    pub fn name(&self) -> (result: &str)
        ensures
            result@ == library_name_of(*self),
    {
        match self {
            Library::CMake(l) => l.name.as_str(),
            Library::Rust(l) => l.name.as_str(),
            Library::Cairo(_) => "cairo",
            Library::Pixman(_) => "pixman",
            Library::OpenSSL(_) => "openssl",
        }
    }

    /// Where the library's sources come from.
    pub fn location(&self) -> (result: &LibraryLocation)
        ensures
            *result == (match self {
                Library::CMake(l) => l.location,
                Library::Rust(l) => l.location,
                Library::Cairo(l) => l.location,
                Library::Pixman(l) => l.location,
                Library::OpenSSL(l) => l.location,
            }),
    {
        match self {
            Library::CMake(l) => &l.location,
            Library::Rust(l) => &l.location,
            Library::Cairo(l) => &l.location,
            Library::Pixman(l) => &l.location,
            Library::OpenSSL(l) => &l.location,
        }
    }

    /// How the library's compiled file is recognised.
    pub fn compiled_library_name(&self) -> (result: CompiledLibraryName)
        ensures
            match self.compiled_library_name_view() {
                CompiledLibraryName::Default => result is Default,
                CompiledLibraryName::Matching(s) => result matches CompiledLibraryName::Matching(r) && r@ == s@,
            },
    {
        match self {
            Library::CMake(l) => match &l.compiled_name {
                CompiledLibraryName::Default => CompiledLibraryName::Default,
                CompiledLibraryName::Matching(s) => CompiledLibraryName::Matching(s.clone()),
            },
            _ => CompiledLibraryName::Default,
        }
    }

    /// The directory the library's sources are kept in: its name in the
    /// third-party directory.
    pub fn source_directory(&self, options: &BundleOptions) -> (result: String)
        ensures
            result@ == joined(options.third_party_view(), library_name_of(*self)),
    {
        join(options.third_party_libraries_directory().as_str(), self.name())
    }

    /// Whether the library depends on native libraries, which must then be
    /// built before it.
    pub fn has_dependencies(&self, options: &BundleOptions) -> (result: bool)
        ensures
            result == library_has_dependencies(*self),
    {
        match self {
            Library::CMake(l) => !l.dependencies.is_empty(),
            Library::Cairo(l) => !l.dependencies.is_empty(),
            _ => false,
        }
    }

    /// The directories the library's compiled files end up in. For pixman
    /// and OpenSSL they are not known.
    pub fn compiled_library_directories(&self, options: &BundleOptions) -> (result: Vec<String>)
        requires
            !(self is Pixman),
            !(self is OpenSSL),
        ensures
            views(result@) == compiled_directories_of(*self, options.context()),
    {
        let result = match self {
            Library::CMake(l) => {
                let prefix = join(options.target_dir(), l.name.as_str());
                vec![join(prefix.as_str(), "lib"), join(prefix.as_str(), "bin")]
            },
            Library::Rust(_) => {
                let with_target = join(options.target_dir(), options.target().name());
                vec![join(with_target.as_str(), options.profile().as_str())]
            },
            Library::Cairo(_) => {
                let prefix = cairo_library_prefix(options);
                if options.target().is_windows() {
                    vec![join(join(prefix.as_str(), "src").as_str(), options.profile().as_str())]
                } else {
                    vec![join(prefix.as_str(), "lib")]
                }
            },
            _ => Vec::new(),
        };
        assert(views(result@) =~= compiled_directories_of(*self, options.context()));
        result
    }

    /// The library's compiled file, given the files of each of its compiled
    /// directories in order: the first match in the first directory that
    /// holds one.
    pub fn compiled_library(&self, os: OperatingSystem, listings: &Vec<Vec<String>>) -> (result: Option<String>)
        ensures
            match first_compiled_in(*self, os, listing_views(listings@)) {
                Some(p) => result matches Some(r) && r@ == p,
                None => result is None,
            },
    {
        let compiled_name = self.compiled_library_name();
        let name = self.name();
        let mut d: usize = 0;
        assert(listing_views(listings@).skip(0) =~= listing_views(listings@));
        while d < listings.len()
            invariant
                d <= listings@.len(),
                name@ == library_name_of(*self),
                match self.compiled_library_name_view() {
                    CompiledLibraryName::Default => compiled_name is Default,
                    CompiledLibraryName::Matching(s) => compiled_name matches CompiledLibraryName::Matching(r) && r@ == s@,
                },
                first_compiled_in(*self, os, listing_views(listings@))
                    == first_compiled_in(*self, os, listing_views(listings@).skip(d as int)),
            decreases listings@.len() - d,
        {
            let listing = &listings[d];
            let ghost rest = listing_views(listings@).skip(d as int);
            assert(rest[0] == views(listing@));
            assert(rest.skip(1) =~= listing_views(listings@).skip(d + 1));
            let mut e: usize = 0;
            assert(views(listing@).skip(0) =~= views(listing@));
            while e < listing.len()
                invariant
                    e <= listing@.len(),
                    d < listings@.len(),
                    *listing == listings@[d as int],
                        name@ == library_name_of(*self),
                    match self.compiled_library_name_view() {
                        CompiledLibraryName::Default => compiled_name is Default,
                        CompiledLibraryName::Matching(s) => compiled_name matches CompiledLibraryName::Matching(r) && r@ == s@,
                    },
                    first_compiled(*self, os, views(listing@))
                        == first_compiled(*self, os, views(listing@).skip(e as int)),
                    rest == listing_views(listings@).skip(d as int),
                    rest.len() > 0,
                    rest[0] == views(listing@),
                    first_compiled_in(*self, os, listing_views(listings@))
                        == first_compiled_in(*self, os, rest),
                decreases listing@.len() - e,
            {
                let entry = &listing[e];
                let ghost tail = views(listing@).skip(e as int);
                assert(tail[0] == entry@);
                assert(tail.skip(1) =~= views(listing@).skip(e + 1));
                proof {
                    lemma_same_matching(compiled_name, self.compiled_library_name_view(), os, name@, entry@);
                }
                if compiled_name.matches(os, name, entry.as_str()) {
                    proof {
                        assert(first_compiled(*self, os, tail) == Some(entry@));
                        assert(first_compiled(*self, os, views(listing@)) == Some(entry@));
                        assert(first_compiled_in(*self, os, rest) == Some(entry@));
                    }
                    return Some(entry.clone());
                }
                e = e + 1;
            }
            assert(views(listing@).skip(e as int) =~= Seq::<Seq<char>>::empty());
            d = d + 1;
        }
        assert(listing_views(listings@).skip(d as int) =~= Seq::<Seq<Seq<char>>>::empty());
        None
    }
}

proof fn lemma_same_matching(
    a: CompiledLibraryName,
    b: CompiledLibraryName,
    os: OperatingSystem,
    name: Seq<char>,
    path: Seq<char>,
)
    requires
        match b {
            CompiledLibraryName::Default => a is Default,
            CompiledLibraryName::Matching(s) => a matches CompiledLibraryName::Matching(r) && r@ == s@,
        },
    ensures
        a.matches_spec(os, name, path) == b.matches_spec(os, name, path),
{
}

} // verus!

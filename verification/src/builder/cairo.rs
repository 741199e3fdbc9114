//! How cairo is built: with its configure script and make on unix, and on
//! Windows with its own makefiles, patched to link statically against the
//! Microsoft toolchain.
use vstd::prelude::*;
use crate::paths::{joined, join};
use crate::text::{copy_str, concat, concat3, views, join_strings, replace, replace_all};
use crate::text::join as join_texts;
use super::options::{BundleOptions, LibraryContext};
use super::library::{CairoLibrary, NativeLibrary, cairo_prefix, cairo_library_prefix};
use super::native::{
    flags, headers_of, pkg_config_directories_of, msvc_include_paths, msvc_lib_paths,
    msvc_include_directories, msvc_lib_directories,
};

verus! {

/// Each path between a prefix and a closing quote.
pub open spec fn quoted_lines(prefix: Seq<char>, paths: Seq<Seq<char>>) -> Seq<Seq<char>> {
    paths.map_values(|p: Seq<char>| prefix + p + "\""@)
}

/// The lines that add the Microsoft include directories to the C flags.
pub open spec fn msvc_include_lines() -> Seq<char> {
    join_texts(quoted_lines("DEFAULT_CFLAGS += -I\""@, msvc_include_paths()), "\n"@)
}

/// The lines that add the Microsoft library directories to the linker flags.
pub open spec fn msvc_lib_lines() -> Seq<char> {
    join_texts(quoted_lines("DEFAULT_LDFLAGS += -LIBPATH:\""@, msvc_lib_paths()), "\n"@)
}

/// The common makefile of cairo's Windows build, changed to use the static
/// runtime, the static zlib and libpng, coreutils for `mkdir` and
/// `dirname`, and the Microsoft include and library directories.
pub open spec fn common_makefile_patched(contents: Seq<char>) -> Seq<char> {
    let c = replace_all(contents, "-MD"@, "-MT"@);
    let c = replace_all(c, "CAIRO_LIBS += $(ZLIB_PATH)/zdll.lib"@, "CAIRO_LIBS += $(ZLIB_PATH)/lib/zlibstatic.lib"@);
    let c = replace_all(c, "ZLIB_CFLAGS += -I$(ZLIB_PATH)"@, "ZLIB_CFLAGS += -I$(ZLIB_PATH)/include"@);
    let c = replace_all(
        c,
        "CAIRO_LIBS +=  $(LIBPNG_PATH)/libpng.lib"@,
        "CAIRO_LIBS +=  $(LIBPNG_PATH)/lib/libpng16_static.lib"@,
    );
    let c = replace_all(c, "LIBPNG_CFLAGS += -I$(LIBPNG_PATH)/"@, "LIBPNG_CFLAGS += -I$(LIBPNG_PATH)/include"@);
    let c = replace_all(c, "@mkdir"@, "@coreutils mkdir"@);
    let c = replace_all(c, "`dirname $<`"@, "\"$(shell coreutils dirname $<)\""@);
    let c = replace_all(
        c,
        "DEFAULT_CFLAGS += -I. -I$(top_srcdir) -I$(top_srcdir)/src"@,
        "DEFAULT_CFLAGS += -I. -I$(top_srcdir) -I$(top_srcdir)/src"@ + "\n"@ + msvc_include_lines(),
    );
    replace_all(
        c,
        "DEFAULT_LDFLAGS = -nologo $(CFG_LDFLAGS)"@,
        "DEFAULT_LDFLAGS = -nologo $(CFG_LDFLAGS)"@ + "\n"@ + msvc_lib_lines(),
    )
}

/// The makefile that generates cairo's feature header, changed to echo with
/// coreutils.
pub open spec fn features_makefile_patched(contents: Seq<char>) -> Seq<char> {
    replace_all(contents, "@echo"@, "@coreutils echo"@)
}

/// Cairo's source makefile without the loop that lists the headers.
pub open spec fn source_makefile_patched(contents: Seq<char>) -> Seq<char> {
    replace_all(contents, "@for x in $(enabled_cairo_headers); do echo \"\tsrc/$$x\"; done"@, ""@)
}

/// The environment cairo's configure script runs in on unix.
pub struct UnixBuildEnvironment {
    /// The directories pkg-config searches.
    pub pkg_config_path: Vec<String>,
    /// The preprocessor flags.
    pub cpp_flags: String,
    /// The libraries to link with.
    pub libs: String,
}

/// The directory cairo's sources are kept in.
pub open spec fn cairo_sources(c: LibraryContext) -> Seq<char> {
    joined(c.third_party, "cairo"@)
}

/// Prefixes each path and closes it with a quote.
fn quote_all(prefix: &str, paths: &Vec<String>) -> (result: Vec<String>)
    ensures
        views(result@) == quoted_lines(prefix@, views(paths@)),
{
    let mut lines: Vec<String> = Vec::new();
    let mut i: usize = 0;
    while i < paths.len()
        invariant
            i <= paths@.len(),
            views(lines@) == quoted_lines(prefix@, views(paths@).take(i as int)),
        decreases paths@.len() - i,
    {
        let line = concat3(prefix, paths[i].as_str(), "\"");
        let ghost before = lines@;
        lines.push(line);
        proof {
            assert(views(lines@) =~= views(before).push(line@));
            assert(quoted_lines(prefix@, views(paths@).take(i + 1)) =~= quoted_lines(
                prefix@,
                views(paths@).take(i as int),
            ).push(prefix@ + paths@[i as int]@ + "\""@));
        }
        i = i + 1;
    }
    assert(views(paths@).take(i as int) =~= views(paths@));
    lines
}

/// Replaces every occurrence of a non-empty pattern.
fn replaced(contents: String, from: &str, to: &str) -> (result: String)
    requires
        from@.len() > 0,
    ensures
        result@ == replace_all(contents@, from@, to@),
{
    replace(contents.as_str(), from, to)
}

impl CairoLibrary {
    /// The arguments of the configure script: the install directory as
    /// prefix and exec prefix, and its `lib` as library directory.
    pub fn configure_arguments(&self, options: &BundleOptions) -> (result: Vec<String>)
        ensures
            views(result@) == seq![
                "--prefix="@ + cairo_prefix(options.context()),
                "--exec-prefix="@ + cairo_prefix(options.context()),
                "--libdir="@ + joined(cairo_prefix(options.context()), "lib"@),
            ],
    {
        let prefix = cairo_library_prefix(options);
        let result = vec![
            concat("--prefix=", prefix.as_str()),
            concat("--exec-prefix=", prefix.as_str()),
            concat("--libdir=", join(prefix.as_str(), "lib").as_str()),
        ];
        assert(views(result@) =~= seq![
            "--prefix="@ + cairo_prefix(options.context()),
            "--exec-prefix="@ + cairo_prefix(options.context()),
            "--libdir="@ + joined(cairo_prefix(options.context()), "lib"@),
        ]);
        result
    }

    /// The configure script in cairo's sources.
    pub fn configure_script(&self, options: &BundleOptions) -> (result: String)
        ensures
            result@ == joined(cairo_sources(options.context()), "configure"@),
    {
        join(join(options.third_party_libraries_directory().as_str(), "cairo").as_str(), "configure")
    }

    /// The environment of the configure script on unix: the pkg-config
    /// directories of the dependencies that exist, pixman's build directory
    /// and those already in the environment; the preprocessor flags of the
    /// environment (or none) followed by a space and `-I` with each header
    /// directory of the dependencies; and `-lbz2`.
    pub fn unix_build_environment(
        &self,
        options: &BundleOptions,
        existing: &Vec<String>,
        pkg_config_from_environment: Vec<String>,
        cpp_flags_from_environment: Option<String>,
    ) -> (result: UnixBuildEnvironment)
        ensures
            views(result.pkg_config_path@) == pkg_config_directories_of(
                self.dependencies.dependencies@,
                options.context(),
                views(existing@),
            ) + seq!["../pixman"@] + views(pkg_config_from_environment@),
            result.cpp_flags@ == (match cpp_flags_from_environment {
                Some(f) => f@,
                None => Seq::<char>::empty(),
            }) + " "@ + flags("-I"@, headers_of(self.dependencies.dependencies@, options.context())),
            result.libs@ == "-lbz2"@,
    {
        let mut paths = self.dependencies.pkg_config_directories(options, existing);
        paths.push(copy_str("../pixman"));
        let ghost before = views(paths@);
        let mut k: usize = 0;
        while k < pkg_config_from_environment.len()
            invariant
                k <= pkg_config_from_environment@.len(),
                views(paths@) == before + views(pkg_config_from_environment@).take(k as int),
            decreases pkg_config_from_environment@.len() - k,
        {
            let item = pkg_config_from_environment[k].clone();
            let ghost previous = paths@;
            paths.push(item);
            proof {
                assert(views(paths@) =~= views(previous).push(item@));
                assert(views(pkg_config_from_environment@).take(k + 1) =~= views(
                    pkg_config_from_environment@,
                ).take(k as int).push(item@));
            }
            k = k + 1;
        }
        assert(views(pkg_config_from_environment@).take(k as int) =~= views(pkg_config_from_environment@));
        let existing_flags = match cpp_flags_from_environment {
            Some(f) => f,
            None => String::new(),
        };
        let cpp_flags = concat3(existing_flags.as_str(), " ", self.dependencies.include_headers_flags(options).as_str());
        UnixBuildEnvironment { pkg_config_path: paths, cpp_flags, libs: copy_str("-lbz2") }
    }

    /// The arguments of `make` that build cairo on Windows: the `cairo`
    /// goal of `Makefile.win32` in its sources, the release configuration
    /// and the install directories of pixman, zlib and libpng.
    pub fn windows_make_arguments(&self, options: &BundleOptions) -> (result: Vec<String>)
        ensures
            views(result@) == seq![
                "cairo"@,
                "-f"@,
                joined(cairo_sources(options.context()), "Makefile.win32"@),
                "CFG=release"@,
                "PIXMAN_PATH="@ + joined(options.context().target_dir, "pixman"@),
                "ZLIB_PATH="@ + joined(options.context().target_dir, self.zlib.name@),
                "LIBPNG_PATH="@ + joined(options.context().target_dir, self.png.name@),
            ],
    {
        let sources = join(options.third_party_libraries_directory().as_str(), "cairo");
        let result = vec![
            copy_str("cairo"),
            copy_str("-f"),
            join(sources.as_str(), "Makefile.win32"),
            copy_str("CFG=release"),
            concat("PIXMAN_PATH=", join(options.target_dir(), "pixman").as_str()),
            concat("ZLIB_PATH=", self.zlib.native_library_prefix(options).as_str()),
            concat("LIBPNG_PATH=", self.png.native_library_prefix(options).as_str()),
        ];
        assert(views(result@) =~= seq![
            "cairo"@,
            "-f"@,
            joined(cairo_sources(options.context()), "Makefile.win32"@),
            "CFG=release"@,
            "PIXMAN_PATH="@ + joined(options.context().target_dir, "pixman"@),
            "ZLIB_PATH="@ + joined(options.context().target_dir, self.zlib.name@),
            "LIBPNG_PATH="@ + joined(options.context().target_dir, self.png.name@),
        ]);
        result
    }

    /// Patches the contents of `build/Makefile.win32.common`.
    pub fn patch_windows_common_makefile(&self, contents: &str) -> (result: String)
        ensures
            result@ == common_makefile_patched(contents@),
    {
        proof {
            reveal_strlit("-MD");
            reveal_strlit("CAIRO_LIBS += $(ZLIB_PATH)/zdll.lib");
            reveal_strlit("ZLIB_CFLAGS += -I$(ZLIB_PATH)");
            reveal_strlit("CAIRO_LIBS +=  $(LIBPNG_PATH)/libpng.lib");
            reveal_strlit("LIBPNG_CFLAGS += -I$(LIBPNG_PATH)/");
            reveal_strlit("@mkdir");
            reveal_strlit("`dirname $<`");
            reveal_strlit("DEFAULT_CFLAGS += -I. -I$(top_srcdir) -I$(top_srcdir)/src");
            reveal_strlit("DEFAULT_LDFLAGS = -nologo $(CFG_LDFLAGS)");
        }
        let c = replace(contents, "-MD", "-MT");
        let c = replaced(c, "CAIRO_LIBS += $(ZLIB_PATH)/zdll.lib", "CAIRO_LIBS += $(ZLIB_PATH)/lib/zlibstatic.lib");
        let c = replaced(c, "ZLIB_CFLAGS += -I$(ZLIB_PATH)", "ZLIB_CFLAGS += -I$(ZLIB_PATH)/include");
        let c = replaced(
            c,
            "CAIRO_LIBS +=  $(LIBPNG_PATH)/libpng.lib",
            "CAIRO_LIBS +=  $(LIBPNG_PATH)/lib/libpng16_static.lib",
        );
        let c = replaced(c, "LIBPNG_CFLAGS += -I$(LIBPNG_PATH)/", "LIBPNG_CFLAGS += -I$(LIBPNG_PATH)/include");
        let c = replaced(c, "@mkdir", "@coreutils mkdir");
        let c = replaced(c, "`dirname $<`", "\"$(shell coreutils dirname $<)\"");
        let include_lines = join_strings(&quote_all("DEFAULT_CFLAGS += -I\"", &msvc_include_directories()), "\n");
        let lib_lines = join_strings(&quote_all("DEFAULT_LDFLAGS += -LIBPATH:\"", &msvc_lib_directories()), "\n");
        let include_replacement = concat3(
            "DEFAULT_CFLAGS += -I. -I$(top_srcdir) -I$(top_srcdir)/src",
            "\n",
            include_lines.as_str(),
        );
        let c = replaced(c, "DEFAULT_CFLAGS += -I. -I$(top_srcdir) -I$(top_srcdir)/src", include_replacement.as_str());
        let lib_replacement = concat3("DEFAULT_LDFLAGS = -nologo $(CFG_LDFLAGS)", "\n", lib_lines.as_str());
        replaced(c, "DEFAULT_LDFLAGS = -nologo $(CFG_LDFLAGS)", lib_replacement.as_str())
    }

    /// Patches the contents of `build/Makefile.win32.features-h`.
    pub fn patch_windows_features_makefile(&self, contents: &str) -> (result: String)
        ensures
            result@ == features_makefile_patched(contents@),
    {
        proof {
            reveal_strlit("@echo");
        }
        replace(contents, "@echo", "@coreutils echo")
    }

    /// Patches the contents of `src/Makefile.win32`.
    pub fn patch_windows_makefile(&self, contents: &str) -> (result: String)
        ensures
            result@ == source_makefile_patched(contents@),
    {
        proof {
            reveal_strlit("@for x in $(enabled_cairo_headers); do echo \"\tsrc/$$x\"; done");
        }
        replace(contents, "@for x in $(enabled_cairo_headers); do echo \"\tsrc/$$x\"; done", "")
    }
}

} // verus!

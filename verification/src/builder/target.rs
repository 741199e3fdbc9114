//! The targets a bundle can be built for, and the third-party libraries it
//! can include, with their command-line names.
use vstd::prelude::*;
use crate::text::{ascii_lower, eq_ignore_ascii_case, str_eq_ignore_ascii_case, copy_str, concat};

verus! {

/// A platform to build and bundle for.
#[derive(Debug, Clone, Copy, PartialEq, Eq, Structural)]
pub enum Target {
    X8664appleDarwin,
    AArch64appleDarwin,
    X8664pcWindowsMsvc,
    X8664UnknownlinuxGNU,
}

/// The name of each target on the command line.
pub open spec fn target_name(target: Target) -> Seq<char> {
    match target {
        Target::X8664appleDarwin => "x86_64-apple-darwin"@,
        Target::AArch64appleDarwin => "aarch64-apple-darwin"@,
        Target::X8664pcWindowsMsvc => "x86_64-pc-windows-msvc"@,
        Target::X8664UnknownlinuxGNU => "x86_64-unknown-linux-gnu"@,
    }
}

/// The first target, in declaration order, whose name equals `s` without
/// regard to ASCII case.
pub open spec fn target_named(s: Seq<char>) -> Option<Target> {
    if eq_ignore_ascii_case(s, target_name(Target::X8664appleDarwin)) {
        Some(Target::X8664appleDarwin)
    } else if eq_ignore_ascii_case(s, target_name(Target::AArch64appleDarwin)) {
        Some(Target::AArch64appleDarwin)
    } else if eq_ignore_ascii_case(s, target_name(Target::X8664pcWindowsMsvc)) {
        Some(Target::X8664pcWindowsMsvc)
    } else if eq_ignore_ascii_case(s, target_name(Target::X8664UnknownlinuxGNU)) {
        Some(Target::X8664UnknownlinuxGNU)
    } else {
        None
    }
}

/// The error text for a name that is no variant.
pub open spec fn invalid_variant(s: Seq<char>) -> Seq<char> {
    "Invalid variant: "@ + s
}

/// The error for a name that is no variant.
pub fn invalid_variant_message(s: &str) -> (result: String)
    ensures
        result@ == invalid_variant(s@),
{
    concat("Invalid variant: ", s)
}

impl Target {
    /// Every target, in declaration order.
    pub fn variants() -> (result: Vec<Target>)
        ensures
            result@ == seq![
                Target::X8664appleDarwin,
                Target::AArch64appleDarwin,
                Target::X8664pcWindowsMsvc,
                Target::X8664UnknownlinuxGNU,
            ],
    {
        let v = vec![
            Target::X8664appleDarwin,
            Target::AArch64appleDarwin,
            Target::X8664pcWindowsMsvc,
            Target::X8664UnknownlinuxGNU,
        ];
        assert(v@ =~= seq![
            Target::X8664appleDarwin,
            Target::AArch64appleDarwin,
            Target::X8664pcWindowsMsvc,
            Target::X8664UnknownlinuxGNU,
        ]);
        v
    }

    /// The target's name on the command line.
    pub fn name(&self) -> (result: &'static str)
        ensures
            result@ == target_name(*self),
    {
        match self {
            Target::X8664appleDarwin => "x86_64-apple-darwin",
            Target::AArch64appleDarwin => "aarch64-apple-darwin",
            Target::X8664pcWindowsMsvc => "x86_64-pc-windows-msvc",
            Target::X8664UnknownlinuxGNU => "x86_64-unknown-linux-gnu",
        }
    }

    /// The target's name on the command line.
    pub fn to_string(&self) -> (result: String)
        ensures
            result@ == target_name(*self),
    {
        copy_str(self.name())
    }

    /// The target with the given name, compared without regard to ASCII case.
    pub fn from_str(s: &str) -> (result: Result<Target, String>)
        ensures
            target_named(s@) matches Some(t) ==> (result matches Ok(r) && r == t),
            target_named(s@) is None ==> (result matches Err(e) && e@ == invalid_variant(s@)),
    {
        if str_eq_ignore_ascii_case(s, "x86_64-apple-darwin") {
            Ok(Target::X8664appleDarwin)
        } else if str_eq_ignore_ascii_case(s, "aarch64-apple-darwin") {
            Ok(Target::AArch64appleDarwin)
        } else if str_eq_ignore_ascii_case(s, "x86_64-pc-windows-msvc") {
            Ok(Target::X8664pcWindowsMsvc)
        } else if str_eq_ignore_ascii_case(s, "x86_64-unknown-linux-gnu") {
            Ok(Target::X8664UnknownlinuxGNU)
        } else {
            Err(invalid_variant_message(s))
        }
    }

    /// Whether the target is a Unix.
    pub fn is_unix(&self) -> (result: bool)
        ensures
            result == (*self != Target::X8664pcWindowsMsvc),
    {
        match self {
            Target::X8664appleDarwin => true,
            Target::AArch64appleDarwin => true,
            Target::X8664pcWindowsMsvc => false,
            Target::X8664UnknownlinuxGNU => true,
        }
    }

    /// Whether the target is Windows.
    pub fn is_windows(&self) -> (result: bool)
        ensures
            result == (*self == Target::X8664pcWindowsMsvc),
    {
        match self {
            Target::X8664appleDarwin => false,
            Target::AArch64appleDarwin => false,
            Target::X8664pcWindowsMsvc => true,
            Target::X8664UnknownlinuxGNU => false,
        }
    }
}

/// A target's name reads back as that target, and a target is Unix exactly
/// when it is not Windows.
pub proof fn lemma_target_name_round_trip(target: Target)
    ensures
        target_named(target_name(target)) == Some(target),
{
    reveal_strlit("x86_64-apple-darwin");
    reveal_strlit("aarch64-apple-darwin");
    reveal_strlit("x86_64-pc-windows-msvc");
    reveal_strlit("x86_64-unknown-linux-gnu");
}


/// A third-party library that a bundle can include.
#[derive(Debug, Clone, Copy, PartialEq, Eq, Structural)]
pub enum ThirdPartyLibrary {
    Git,
    Sdl2,
    Boxer,
    Pixman,
    Freetype,
    Cairo,
    Skia,
    Glutin,
    Gleam,
    Winit,
    Clipboard,
}

/// The name of each third-party library on the command line.
pub open spec fn library_name(library: ThirdPartyLibrary) -> Seq<char> {
    match library {
        ThirdPartyLibrary::Git => "git"@,
        ThirdPartyLibrary::Sdl2 => "sdl2"@,
        ThirdPartyLibrary::Boxer => "boxer"@,
        ThirdPartyLibrary::Pixman => "pixman"@,
        ThirdPartyLibrary::Freetype => "freetype"@,
        ThirdPartyLibrary::Cairo => "cairo"@,
        ThirdPartyLibrary::Skia => "skia"@,
        ThirdPartyLibrary::Glutin => "glutin"@,
        ThirdPartyLibrary::Gleam => "gleam"@,
        ThirdPartyLibrary::Winit => "winit"@,
        ThirdPartyLibrary::Clipboard => "clipboard"@,
    }
}

/// The first third-party library, in declaration order, whose name equals
/// `s` without regard to ASCII case.
pub open spec fn library_named(s: Seq<char>) -> Option<ThirdPartyLibrary> {
    if eq_ignore_ascii_case(s, library_name(ThirdPartyLibrary::Git)) {
        Some(ThirdPartyLibrary::Git)
    } else if eq_ignore_ascii_case(s, library_name(ThirdPartyLibrary::Sdl2)) {
        Some(ThirdPartyLibrary::Sdl2)
    } else if eq_ignore_ascii_case(s, library_name(ThirdPartyLibrary::Boxer)) {
        Some(ThirdPartyLibrary::Boxer)
    } else if eq_ignore_ascii_case(s, library_name(ThirdPartyLibrary::Pixman)) {
        Some(ThirdPartyLibrary::Pixman)
    } else if eq_ignore_ascii_case(s, library_name(ThirdPartyLibrary::Freetype)) {
        Some(ThirdPartyLibrary::Freetype)
    } else if eq_ignore_ascii_case(s, library_name(ThirdPartyLibrary::Cairo)) {
        Some(ThirdPartyLibrary::Cairo)
    } else if eq_ignore_ascii_case(s, library_name(ThirdPartyLibrary::Skia)) {
        Some(ThirdPartyLibrary::Skia)
    } else if eq_ignore_ascii_case(s, library_name(ThirdPartyLibrary::Glutin)) {
        Some(ThirdPartyLibrary::Glutin)
    } else if eq_ignore_ascii_case(s, library_name(ThirdPartyLibrary::Gleam)) {
        Some(ThirdPartyLibrary::Gleam)
    } else if eq_ignore_ascii_case(s, library_name(ThirdPartyLibrary::Winit)) {
        Some(ThirdPartyLibrary::Winit)
    } else if eq_ignore_ascii_case(s, library_name(ThirdPartyLibrary::Clipboard)) {
        Some(ThirdPartyLibrary::Clipboard)
    } else {
        None
    }
}

impl ThirdPartyLibrary {
    /// The library's name on the command line.
    pub fn name(&self) -> (result: &'static str)
        ensures
            result@ == library_name(*self),
    {
        match self {
            ThirdPartyLibrary::Git => "git",
            ThirdPartyLibrary::Sdl2 => "sdl2",
            ThirdPartyLibrary::Boxer => "boxer",
            ThirdPartyLibrary::Pixman => "pixman",
            ThirdPartyLibrary::Freetype => "freetype",
            ThirdPartyLibrary::Cairo => "cairo",
            ThirdPartyLibrary::Skia => "skia",
            ThirdPartyLibrary::Glutin => "glutin",
            ThirdPartyLibrary::Gleam => "gleam",
            ThirdPartyLibrary::Winit => "winit",
            ThirdPartyLibrary::Clipboard => "clipboard",
        }
    }

    /// The library's name on the command line.
    pub fn to_string(&self) -> (result: String)
        ensures
            result@ == library_name(*self),
    {
        copy_str(self.name())
    }

    /// The library with the given name, compared without regard to ASCII
    /// case.
    pub fn from_str(s: &str) -> (result: Result<ThirdPartyLibrary, String>)
        ensures
            library_named(s@) matches Some(l) ==> (result matches Ok(r) && r == l),
            library_named(s@) is None ==> (result matches Err(e) && e@ == invalid_variant(s@)),
    {
        if str_eq_ignore_ascii_case(s, "git") {
            Ok(ThirdPartyLibrary::Git)
        } else if str_eq_ignore_ascii_case(s, "sdl2") {
            Ok(ThirdPartyLibrary::Sdl2)
        } else if str_eq_ignore_ascii_case(s, "boxer") {
            Ok(ThirdPartyLibrary::Boxer)
        } else if str_eq_ignore_ascii_case(s, "pixman") {
            Ok(ThirdPartyLibrary::Pixman)
        } else if str_eq_ignore_ascii_case(s, "freetype") {
            Ok(ThirdPartyLibrary::Freetype)
        } else if str_eq_ignore_ascii_case(s, "cairo") {
            Ok(ThirdPartyLibrary::Cairo)
        } else if str_eq_ignore_ascii_case(s, "skia") {
            Ok(ThirdPartyLibrary::Skia)
        } else if str_eq_ignore_ascii_case(s, "glutin") {
            Ok(ThirdPartyLibrary::Glutin)
        } else if str_eq_ignore_ascii_case(s, "gleam") {
            Ok(ThirdPartyLibrary::Gleam)
        } else if str_eq_ignore_ascii_case(s, "winit") {
            Ok(ThirdPartyLibrary::Winit)
        } else if str_eq_ignore_ascii_case(s, "clipboard") {
            Ok(ThirdPartyLibrary::Clipboard)
        } else {
            Err(invalid_variant_message(s))
        }
    }
}

/// A library's name reads back as that library.
pub proof fn lemma_library_name_round_trip(library: ThirdPartyLibrary)
    ensures
        library_named(library_name(library)) == Some(library),
{
    reveal_strlit("git");
    reveal_strlit("sdl2");
    reveal_strlit("boxer");
    reveal_strlit("pixman");
    reveal_strlit("freetype");
    reveal_strlit("cairo");
    reveal_strlit("skia");
    reveal_strlit("glutin");
    reveal_strlit("gleam");
    reveal_strlit("winit");
    reveal_strlit("clipboard");
    assert(ascii_lower('d') != ascii_lower('k'));
    assert(ascii_lower('b') != ascii_lower('c'));
    assert(ascii_lower('b') != ascii_lower('g'));
    assert(ascii_lower('b') != ascii_lower('w'));
    assert(ascii_lower('c') != ascii_lower('g'));
    assert(ascii_lower('c') != ascii_lower('w'));
    assert(ascii_lower('g') != ascii_lower('w'));
    assert(ascii_lower('p') != ascii_lower('g'));
    match library {
        ThirdPartyLibrary::Skia => {
            assert(library_name(library)[1] == 'k');
            assert(!eq_ignore_ascii_case("skia"@, "sdl2"@)) by {
                assert(ascii_lower("skia"@[1]) != ascii_lower("sdl2"@[1]));
            }
        },
        ThirdPartyLibrary::Cairo => {
            assert(!eq_ignore_ascii_case("cairo"@, "boxer"@)) by {
                assert(ascii_lower("cairo"@[0]) != ascii_lower("boxer"@[0]));
            }
        },
        ThirdPartyLibrary::Glutin => {
            assert(!eq_ignore_ascii_case("glutin"@, "pixman"@)) by {
                assert(ascii_lower("glutin"@[0]) != ascii_lower("pixman"@[0]));
            }
        },
        ThirdPartyLibrary::Gleam => {
            assert(!eq_ignore_ascii_case("gleam"@, "boxer"@)) by {
                assert(ascii_lower("gleam"@[0]) != ascii_lower("boxer"@[0]));
            }
            assert(!eq_ignore_ascii_case("gleam"@, "cairo"@)) by {
                assert(ascii_lower("gleam"@[0]) != ascii_lower("cairo"@[0]));
            }
        },
        ThirdPartyLibrary::Winit => {
            assert(!eq_ignore_ascii_case("winit"@, "boxer"@)) by {
                assert(ascii_lower("winit"@[0]) != ascii_lower("boxer"@[0]));
            }
            assert(!eq_ignore_ascii_case("winit"@, "cairo"@)) by {
                assert(ascii_lower("winit"@[0]) != ascii_lower("cairo"@[0]));
            }
            assert(!eq_ignore_ascii_case("winit"@, "gleam"@)) by {
                assert(ascii_lower("winit"@[0]) != ascii_lower("gleam"@[0]));
            }
        },
        _ => {},
    }
}

} // verus!

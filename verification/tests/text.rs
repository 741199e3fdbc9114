use gtoolkit_vm::paths::{extension, file_name, join, parent};
use gtoolkit_vm::samples::{
    pass_and_return_bool, pass_and_return_i16, pass_and_return_i32, pass_and_return_i8,
    pass_and_return_u16, pass_and_return_u32, pass_and_return_u8,
};
use gtoolkit_vm::text::{i64_to_decimal, join_strings, replace, str_contains, u64_to_decimal};
use gtoolkit_vm::words::{dedup, split_whitespace, trim};

#[test]
fn paths_like_std() {
    assert_eq!(join("a/b", "c"), "a/b/c");
    assert_eq!(join("a/b/", "c"), "a/b/c");
    assert_eq!(join("a", "/c"), "/c");
    assert_eq!(join("", "c"), "c");
    assert_eq!(parent("/a/b/c"), Some("/a/b".to_string()));
    assert_eq!(parent("/a/b/"), Some("/a".to_string()));
    assert_eq!(parent("a"), Some("".to_string()));
    assert_eq!(parent("/a"), Some("/".to_string()));
    assert_eq!(parent("/"), None);
    assert_eq!(parent(""), None);
    assert_eq!(file_name("/a/b.txt"), Some("b.txt".to_string()));
    assert_eq!(file_name("/a/.."), None);
    assert_eq!(extension("/a/b.tar.gz"), Some("gz".to_string()));
    assert_eq!(extension("/a/.bashrc"), None);
    assert_eq!(extension("/a/b"), None);
}

#[test]
fn paths_with_dot_components() {
    assert_eq!(file_name("foo/."), Some("foo".to_string()));
    assert_eq!(file_name("."), None);
    assert_eq!(file_name("/."), None);
    assert_eq!(file_name("./a"), Some("a".to_string()));
    assert_eq!(file_name("a/b/./"), Some("b".to_string()));
    assert_eq!(parent("a/./b"), Some("a".to_string()));
    assert_eq!(parent("foo/."), Some("".to_string()));
    assert_eq!(parent("./a"), Some(".".to_string()));
    assert_eq!(parent("/."), None);
    assert_eq!(extension("a/b.txt/."), Some("txt".to_string()));
}

#[test]
fn text_operations() {
    assert_eq!(replace("a-MD b-MD", "-MD", "-MT"), "a-MT b-MT");
    assert_eq!(replace("aaa", "aa", "b"), "ba");
    assert!(str_contains("libpng16.so", ".so"));
    assert!(!str_contains("libpng16.a", ".so"));
    assert_eq!(join_strings(&vec!["a".to_string(), "b".to_string()], ";"), "a;b");
    assert_eq!(join_strings(&vec![], ";"), "");
    assert_eq!(u64_to_decimal(0), "0");
    assert_eq!(u64_to_decimal(1234), "1234");
    assert_eq!(i64_to_decimal(-128), "-128");
    assert_eq!(i64_to_decimal(i64::MIN), "-9223372036854775808");
}

#[test]
fn white_space() {
    assert_eq!(trim("  a b \t\n"), "a b");
    assert_eq!(trim("\u{3000}x\u{a0}"), "x");
    assert_eq!(trim("   "), "");
    assert_eq!(split_whitespace(" a  b\tc\n"), vec!["a", "b", "c"]);
    assert_eq!(split_whitespace(""), Vec::<String>::new());
    assert_eq!(
        dedup(vec!["a".to_string(), "a".to_string(), "b".to_string(), "a".to_string()]),
        vec!["a", "b", "a"]
    );
}

#[test]
fn values_pass_through() {
    assert!(pass_and_return_bool(true));
    assert_eq!(pass_and_return_i8(-5), -5);
    assert_eq!(pass_and_return_u8(200), 200);
    assert_eq!(pass_and_return_i16(-300), -300);
    assert_eq!(pass_and_return_u16(60000), 60000);
    assert_eq!(pass_and_return_i32(-70000), -70000);
    assert_eq!(pass_and_return_u32(4_000_000_000), 4_000_000_000);
}

#[test]
fn join_then_split_gives_parts_back() {
    for base in ["", "/", "a", "a/", "/a/b//"] {
        let joined = join(base, "name.txt");
        assert_eq!(file_name(&joined), Some("name.txt".to_string()));
    }
    assert_eq!(parent(&join("/a/b//", "x")), Some("/a/b".to_string()));
    assert_eq!(parent(&join("", "x")), Some("".to_string()));
    assert_eq!(parent(&join("/", "x")), Some("/".to_string()));
}

#[test]
fn trimming_twice_is_trimming_once() {
    let once = trim(" \t a b \u{2028}");
    assert_eq!(trim(&once), once);
}

//! The version information of the client: its version, the line that
//! introduces it and the versions of its components.
use vstd::prelude::*;
use crate::text::{copy_str, concat, concat3, views};

verus! {

/// A text, or `unknown` when there is none.
pub open spec fn or_unknown(text: Option<Seq<char>>) -> Seq<char> {
    match text {
        Some(t) => t,
        None => "unknown"@,
    }
}

/// The text of an optional string slice.
pub open spec fn text_of(text: Option<&str>) -> Option<Seq<char>> {
    match text {
        Some(t) => Some(t@),
        None => None,
    }
}

fn known_or_unknown(text: Option<&str>) -> (result: &str)
    ensures
        result@ == or_unknown(text_of(text)),
{
    match text {
        Some(t) => t,
        None => "unknown",
    }
}

/// The version of the app in the form X.Y.Z: the version it was built
/// with, or `0.0.0` when it was built with none.
pub fn app_version(built_version: Option<&str>) -> (result: String)
    ensures
        result@ == app_version_of(built_version),
{
    match built_version {
        Some(v) => copy_str(v),
        None => copy_str("0.0.0"),
    }
}

/// The version of the app: the version it was built with, or `0.0.0`.
pub open spec fn app_version_of(built_version: Option<&str>) -> Seq<char> {
    match built_version {
        Some(v) => v@,
        None => "0.0.0"@,
    }
}

/// The line that introduces the version information: the app's name, its
/// version, its author and when it was built, each `unknown` when not
/// known.
pub fn version_intro(app_name: Option<&str>, app_version: &str, author: Option<&str>, timestamp: Option<&str>) -> (result: String)
    ensures
        result@ == or_unknown(text_of(app_name)) + " "@ + app_version@ + " by "@ + or_unknown(text_of(author))
            + " built on "@ + or_unknown(text_of(timestamp)),
{
    let mut line = concat3(known_or_unknown(app_name), " ", app_version);
    line.append(" by ");
    line.append(known_or_unknown(author));
    line.append(" built on ");
    line.append(known_or_unknown(timestamp));
    line
}

/// The versions of the components: the app with its commit, the app
/// builder's commit, and what the Pharo virtual machine was built from.
pub fn version_components(
    app_version: &str,
    app_commit: Option<&str>,
    builder_commit: Option<&str>,
    built_from: Option<&str>,
) -> (result: Vec<(String, String)>)
    ensures
        result@.len() == 3,
        result@[0].0@ == "App"@,
        result@[0].1@ == app_version@ + " - Commit: "@ + or_unknown(text_of(app_commit)),
        result@[1].0@ == "App Builder"@,
        result@[1].1@ == "Commit: "@ + or_unknown(text_of(builder_commit)),
        result@[2].0@ == "Pharo VM"@,
        result@[2].1@ == or_unknown(text_of(built_from)),
{
    vec![
        (copy_str("App"), concat3(app_version, " - Commit: ", known_or_unknown(app_commit))),
        (copy_str("App Builder"), concat("Commit: ", known_or_unknown(builder_commit))),
        (copy_str("Pharo VM"), copy_str(known_or_unknown(built_from))),
    ]
}

/// Whether the text parses as JSON.
pub uninterp spec fn json_parses(text: Seq<char>) -> bool;

/// The string that the JSON text holds at a path of object keys; `None`
/// where a key is missing, a value on the way is no object, or the value
/// found is no string.
pub uninterp spec fn json_string_at(text: Seq<char>, path: Seq<Seq<char>>) -> Option<Seq<char>>;

/// The text of an optional string.
pub open spec fn opt_text(text: Option<String>) -> Option<Seq<char>> {
    match text {
        Some(t) => Some(t@),
        None => None,
    }
}

/// Parses the text with `json::parse`, takes the value at each key of the
/// path in turn with `JsonValue::remove`, and reads the value found with
/// `JsonValue::as_str`. The contract claims that the parse succeeds exactly
/// on the texts of `json_parses`, and that what is found depends on the
/// text and the path alone; the message of a failed parse is left unsaid.
#[verifier::external_body]
fn json_string_at_path(text: &str, path: &Vec<String>) -> (result: Result<Option<String>, String>)
    ensures
        result is Ok <==> json_parses(text@),
        result matches Ok(found) ==> opt_text(found) == json_string_at(text@, views(path@)),
{
    match json::parse(text) {
        Err(error) => Err(error.to_string()),
        Ok(mut value) => {
            for key in path.iter() {
                value = value.remove(key.as_str());
            }
            Ok(value.as_str().map(str::to_owned))
        },
    }
}

/// The path of object keys made of the given keys.
fn key_path(keys: &[&str]) -> (result: Vec<String>)
    ensures
        views(result@) == keys@.map_values(|k: &str| k@),
{
    let mut result: Vec<String> = Vec::new();
    let mut i: usize = 0;
    while i < keys.len()
        invariant
            i <= keys@.len(),
            views(result@) == keys@.take(i as int).map_values(|k: &str| k@),
        decreases keys@.len() - i,
    {
        assert(keys@.take(i + 1 as int).map_values(|k: &str| k@)
            =~= keys@.take(i as int).map_values(|k: &str| k@).push(keys@[i as int]@));
        let key = copy_str(keys[i]);
        assert(views(result@.push(key)) =~= views(result@).push(key@));
        result.push(key);
        i = i + 1;
    }
    assert(keys@.take(keys@.len() as int) =~= keys@);
    result
}

fn borrowed(text: &Option<String>) -> (result: Option<&str>)
    ensures
        text_of(result) == opt_text(*text),
{
    match text {
        Some(t) => Some(t.as_str()),
        None => None,
    }
}

/// The version information of the client: the app's name, its version
/// (`v` and the version it was built with), its author and when it was
/// built, each read from the app's build information.
pub open spec fn version_text(
    app_name: Option<Seq<char>>,
    app_version: Seq<char>,
    author: Option<Seq<char>>,
    timestamp: Option<Seq<char>>,
) -> Seq<char> {
    or_unknown(app_name) + " "@ + app_version + " by "@ + or_unknown(author) + " built on "@ + or_unknown(timestamp)
}

/// The version information of the client, from the virtual machine's
/// information and the app's build information, both JSON texts; an error
/// when either does not parse.
pub fn fetch_version(virtual_machine_info: &str, app_info: &str, built_version: Option<&str>) -> (result: Result<String, String>)
    ensures
        result is Ok <==> json_parses(virtual_machine_info@) && json_parses(app_info@),
        result matches Ok(text) ==> text@ == version_text(
            json_string_at(app_info@, seq!["app_name"@]),
            "v"@ + app_version_of(built_version),
            json_string_at(app_info@, seq!["builder_flags"@, "author"@]),
            json_string_at(app_info@, seq!["app_build_info"@, "build_timestamp"@]),
        ),
{
    let built_from_path = key_path(&["config", "data", "BUILT_FROM"]);
    match json_string_at_path(virtual_machine_info, &built_from_path) {
        Err(error) => {
            return Err(error);
        },
        Ok(_) => {},
    }
    let name_path = key_path(&["app_name"]);
    let author_path = key_path(&["builder_flags", "author"]);
    let timestamp_path = key_path(&["app_build_info", "build_timestamp"]);
    proof {
        reveal_strlit("app_name");
        reveal_strlit("builder_flags");
        reveal_strlit("author");
        reveal_strlit("app_build_info");
        reveal_strlit("build_timestamp");
        assert(views(name_path@) =~= seq!["app_name"@]);
        assert(views(author_path@) =~= seq!["builder_flags"@, "author"@]);
        assert(views(timestamp_path@) =~= seq!["app_build_info"@, "build_timestamp"@]);
    }
    let app_name = match json_string_at_path(app_info, &name_path) {
        Err(error) => {
            return Err(error);
        },
        Ok(found) => found,
    };
    let author = match json_string_at_path(app_info, &author_path) {
        Err(error) => {
            return Err(error);
        },
        Ok(found) => found,
    };
    let timestamp = match json_string_at_path(app_info, &timestamp_path) {
        Err(error) => {
            return Err(error);
        },
        Ok(found) => found,
    };
    let version = concat("v", app_version(built_version).as_str());
    Ok(version_intro(borrowed(&app_name), version.as_str(), borrowed(&author), borrowed(&timestamp)))
}

} // verus!

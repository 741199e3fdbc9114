//! The templates of the files a bundle carries besides the executables:
//! the `Info.plist` of a macOS app, and the resource file and manifest of
//! a Windows executable, filled in with mustache.
use vstd::prelude::*;
use crate::text::{copy_str, decimal, u64_to_decimal};
use super::options::opt_view;
use super::bundlers::{MacInfo, WindowsInfo};

verus! {

/// The template of the `Info.plist` of a macOS app.
pub const INFO_PLIST: &'static str = r#"
<?xml version="1.0" encoding="UTF-8"?>
<!DOCTYPE plist PUBLIC "-//Apple Computer//DTD PLIST 1.0//EN" "http://www.apple.com/DTDs/PropertyList-1.0.dtd">
<plist version="1.0">
<dict>
  <key>CFBundleDevelopmentRegion</key>
  <string>English</string>
  <key>CFBundleDisplayName</key>
  <string>{{bundle_display_name}}</string>
  <key>CFBundleExecutable</key>
  <string>{{executable_name}}</string>
  <key>CFBundleIdentifier</key>
  <string>{{bundle_identifier}}</string>
  <key>CFBundleInfoDictionaryVersion</key>
  <string>6.0</string>
  <key>CFBundleName</key>
  <string>{{bundle_name}}</string>
  <key>CFBundlePackageType</key>
  <string>APPL</string>
  <key>CFBundleShortVersionString</key>
  <string>{{bundle_version}}</string>
  <key>CFBundleVersion</key>
  <string>{{bundle_version}}</string>
  <key>CSResourcesFileMapped</key>
  <true/>
  <key>LSRequiresCarbon</key>
  <true/>
  <key>NSHighResolutionCapable</key>
  <true/>
  <key>LSEnvironment</key>
	<dict>
	<key>WANTS_INTERACTIVE_SESSION</key>
	<string>true</string>
	</dict>
</dict>
</plist>
"#;

/// The template of the manifest of a Windows executable.
pub const MANIFEST: &'static str = r#"<?xml version="1.0" encoding="UTF-8" standalone="yes"?>
<assembly manifestVersion="1.0" xmlns="urn:schemas-microsoft-com:asm.v1" xmlns:asmv3="urn:schemas-microsoft-com:asm.v3">
    <assemblyIdentity
            version="1.0.0.0"
            processorArchitecture="*"
            name="{{bundle_identifier}}"
            type="win32"
    />
    <description>Rust Manifest Example</description>
    <dependency>
        <dependentAssembly>
            <assemblyIdentity
                    type="win32"
                    name="Microsoft.Windows.Common-Controls"
                    version="6.0.0.0"
                    processorArchitecture="*"
                    publicKeyToken="6595b64144ccf1df"
                    language="*"
            />
        </dependentAssembly>
    </dependency>
    <asmv3:application>
        <asmv3:windowsSettings>
            <dpiAware xmlns="http://schemas.microsoft.com/SMI/2005/WindowsSettings">True/PM</dpiAware>
            <dpiAwareness xmlns="http://schemas.microsoft.com/SMI/2016/WindowsSettings">PerMonitorV2</dpiAwareness>
        </asmv3:windowsSettings>
    </asmv3:application>
</assembly>
"#;

/// The template of the resource file of a Windows executable.
pub const RESOURCE: &'static str = r#"#include "windows.h"

1 RT_MANIFEST "{{executable_name}}.manifest"
{{bundle_icon}}

VS_VERSION_INFO VERSIONINFO
FILEVERSION     {{bundle_major_version}},{{bundle_minor_version}},{{bundle_patch_version}},0
PRODUCTVERSION  {{bundle_major_version}},{{bundle_minor_version}},{{bundle_patch_version}},0
FILEFLAGSMASK   VS_FFI_FILEFLAGSMASK
FILEFLAGS       VS_FF_DEBUG
FILEOS          VOS__WINDOWS32
FILETYPE        VFT_APP
FILESUBTYPE     VFT2_UNKNOWN
BEGIN
    BLOCK "StringFileInfo"
    BEGIN
        BLOCK "040904E4"    // Lang=US English, CharSet=Windows Multilin
        BEGIN
            VALUE "CompanyName", "{{bundle_author}}\0"
            VALUE "FileDescription", "{{bundle_name}}\0"
            VALUE "FileVersion", "{{bundle_major_version}}.{{bundle_minor_version}}.{{bundle_patch_version}}\0"
            VALUE "ProductName", "{{bundle_name}}\0"
            VALUE "ProductVersion", "{{bundle_major_version}}.{{bundle_minor_version}}.{{bundle_patch_version}}\0"
        END
    END
    BLOCK "VarFileInfo"
    BEGIN
        VALUE "Translation", 0x409, 1252
    END
END
"#;

/// What a mustache template gives when each key is replaced by its value;
/// `None` when the template does not compile or does not render.
pub uninterp spec fn rendered_template(template: Seq<char>, values: Seq<(Seq<char>, Seq<char>)>) -> Option<Seq<char>>;

/// The texts of a list of keys and values.
pub open spec fn pairs_view(values: Seq<(String, String)>) -> Seq<(Seq<char>, Seq<char>)> {
    values.map_values(|pair: (String, String)| (pair.0@, pair.1@))
}

/// The templates this library renders. None of them holds a partial tag
/// (`{{>`) or a tag that changes the delimiters (`{{=`), so rendering them
/// reads no file.
pub open spec fn is_bundle_template(template: Seq<char>) -> bool {
    template == INFO_PLIST@ || template == RESOURCE@ || template == MANIFEST@
}

/// Compiles the template with `mustache::compile_str` and renders it with
/// `Template::render_data_to_string`, each key bound to its value by
/// `MapBuilder::insert_str`. A template with a partial tag would make the
/// compiler read a file, so the contract holds for the library's own
/// templates only, which have none; for them it claims only that the
/// result depends on the template and the keys and values alone.
#[verifier::external_body]
fn render_template(template: &str, values: &Vec<(String, String)>) -> (result: Option<String>)
    requires
        is_bundle_template(template@),
    ensures
        opt_view(result) == rendered_template(template@, pairs_view(values@)),
{
    let mut data = mustache::MapBuilder::new();
    for (key, value) in values.iter() {
        data = data.insert_str(key.as_str(), value.as_str());
    }
    match mustache::compile_str(template) {
        Ok(compiled) => compiled.render_data_to_string(&data.build()).ok(),
        Err(_) => None,
    }
}

/// The keys and values of the `Info.plist` of a macOS app.
pub open spec fn mac_info_values(info: MacInfo) -> Seq<(Seq<char>, Seq<char>)> {
    seq![
        ("bundle_name"@, info.bundle_name@),
        ("bundle_display_name"@, info.bundle_display_name@),
        ("executable_name"@, info.executable_name@),
        ("bundle_identifier"@, info.bundle_identifier@),
        ("bundle_version"@, info.bundle_version@),
    ]
}

/// The keys and values of the resource file and the manifest of a Windows
/// executable.
pub open spec fn windows_info_values(info: WindowsInfo) -> Seq<(Seq<char>, Seq<char>)> {
    seq![
        ("bundle_name"@, info.bundle_name@),
        ("bundle_identifier"@, info.bundle_identifier@),
        ("bundle_author"@, info.bundle_author@),
        ("bundle_major_version"@, decimal(info.bundle_major_version as nat)),
        ("bundle_minor_version"@, decimal(info.bundle_minor_version as nat)),
        ("bundle_patch_version"@, decimal(info.bundle_patch_version as nat)),
        ("bundle_icon"@, info.bundle_icon@),
        ("executable_name"@, info.executable_name@),
    ]
}

/// Whether the keys and values bind `key` to `value`.
pub open spec fn binds(values: Seq<(Seq<char>, Seq<char>)>, key: Seq<char>, value: Seq<char>) -> bool {
    exists|i: int| 0 <= i < values.len() && #[trigger] values[i] == (key, value)
}

/// Whether no key occurs twice, so that each key has one value.
pub open spec fn keys_distinct(values: Seq<(Seq<char>, Seq<char>)>) -> bool {
    forall|i: int, j: int| 0 <= i < j < values.len() ==> (#[trigger] values[i]).0 != (#[trigger] values[j]).0
}

/// The `Info.plist` of a macOS app binds each key to the field of the app's
/// information of the same name, and to nothing else.
pub proof fn law_mac_keys_bind_their_own_fields(info: MacInfo)
    ensures
        keys_distinct(mac_info_values(info)),
        binds(mac_info_values(info), "bundle_name"@, info.bundle_name@),
        binds(mac_info_values(info), "bundle_display_name"@, info.bundle_display_name@),
        binds(mac_info_values(info), "executable_name"@, info.executable_name@),
        binds(mac_info_values(info), "bundle_identifier"@, info.bundle_identifier@),
        binds(mac_info_values(info), "bundle_version"@, info.bundle_version@),
{
    let values = mac_info_values(info);
    reveal_strlit("bundle_name");
    reveal_strlit("bundle_display_name");
    reveal_strlit("executable_name");
    reveal_strlit("bundle_identifier");
    reveal_strlit("bundle_version");
    assert(values[0] == ("bundle_name"@, info.bundle_name@));
    assert(values[1] == ("bundle_display_name"@, info.bundle_display_name@));
    assert(values[2] == ("executable_name"@, info.executable_name@));
    assert(values[3] == ("bundle_identifier"@, info.bundle_identifier@));
    assert(values[4] == ("bundle_version"@, info.bundle_version@));
    assert forall|i: int, j: int| 0 <= i < j < values.len() implies (#[trigger] values[i]).0 != (#[trigger] values[j]).0 by {
        assert(values[i].0.len() != values[j].0.len());
    }
}

/// The resource file and the manifest of a Windows executable bind each
/// key to the field of the executable's information of the same name (the
/// version numbers in decimal), and to nothing else.
pub proof fn law_windows_keys_bind_their_own_fields(info: WindowsInfo)
    ensures
        keys_distinct(windows_info_values(info)),
        binds(windows_info_values(info), "bundle_name"@, info.bundle_name@),
        binds(windows_info_values(info), "bundle_identifier"@, info.bundle_identifier@),
        binds(windows_info_values(info), "bundle_author"@, info.bundle_author@),
        binds(windows_info_values(info), "bundle_major_version"@, decimal(info.bundle_major_version as nat)),
        binds(windows_info_values(info), "bundle_minor_version"@, decimal(info.bundle_minor_version as nat)),
        binds(windows_info_values(info), "bundle_patch_version"@, decimal(info.bundle_patch_version as nat)),
        binds(windows_info_values(info), "bundle_icon"@, info.bundle_icon@),
        binds(windows_info_values(info), "executable_name"@, info.executable_name@),
{
    let values = windows_info_values(info);
    reveal_strlit("bundle_name");
    reveal_strlit("bundle_identifier");
    reveal_strlit("bundle_author");
    reveal_strlit("bundle_major_version");
    reveal_strlit("bundle_minor_version");
    reveal_strlit("bundle_patch_version");
    reveal_strlit("bundle_icon");
    reveal_strlit("executable_name");
    assert(values[0] == ("bundle_name"@, info.bundle_name@));
    assert(values[1] == ("bundle_identifier"@, info.bundle_identifier@));
    assert(values[2] == ("bundle_author"@, info.bundle_author@));
    assert(values[3] == ("bundle_major_version"@, decimal(info.bundle_major_version as nat)));
    assert(values[4] == ("bundle_minor_version"@, decimal(info.bundle_minor_version as nat)));
    assert(values[5] == ("bundle_patch_version"@, decimal(info.bundle_patch_version as nat)));
    assert(values[6] == ("bundle_icon"@, info.bundle_icon@));
    assert(values[7] == ("executable_name"@, info.executable_name@));
    assert forall|i: int, j: int| 0 <= i < j < values.len() implies (#[trigger] values[i]).0 != (#[trigger] values[j]).0 by {
        if values[i].0.len() == values[j].0.len() {
            assert(values[i].0[7] != values[j].0[7] || values[i].0[8] != values[j].0[8]);
        }
    }
}

/// The `Info.plist` of a macOS app: its template filled in with the app's
/// information; `None` when it does not render.
pub fn info_plist(info: &MacInfo) -> (result: Option<String>)
    ensures
        opt_view(result) == rendered_template(INFO_PLIST@, mac_info_values(*info)),
{
    let values = vec![
        (copy_str("bundle_name"), info.bundle_name.clone()),
        (copy_str("bundle_display_name"), info.bundle_display_name.clone()),
        (copy_str("executable_name"), info.executable_name.clone()),
        (copy_str("bundle_identifier"), info.bundle_identifier.clone()),
        (copy_str("bundle_version"), info.bundle_version.clone()),
    ];
    assert(pairs_view(values@) =~= mac_info_values(*info));
    render_template(INFO_PLIST, &values)
}

fn windows_values(info: &WindowsInfo) -> (result: Vec<(String, String)>)
    ensures
        pairs_view(result@) == windows_info_values(*info),
{
    let values = vec![
        (copy_str("bundle_name"), info.bundle_name.clone()),
        (copy_str("bundle_identifier"), info.bundle_identifier.clone()),
        (copy_str("bundle_author"), info.bundle_author.clone()),
        (copy_str("bundle_major_version"), u64_to_decimal(info.bundle_major_version as u64)),
        (copy_str("bundle_minor_version"), u64_to_decimal(info.bundle_minor_version as u64)),
        (copy_str("bundle_patch_version"), u64_to_decimal(info.bundle_patch_version as u64)),
        (copy_str("bundle_icon"), info.bundle_icon.clone()),
        (copy_str("executable_name"), info.executable_name.clone()),
    ];
    assert(pairs_view(values@) =~= windows_info_values(*info));
    values
}

/// The resource file of a Windows executable: its template filled in with
/// the executable's information; `None` when it does not render.
pub fn windows_resource(info: &WindowsInfo) -> (result: Option<String>)
    ensures
        opt_view(result) == rendered_template(RESOURCE@, windows_info_values(*info)),
{
    render_template(RESOURCE, &windows_values(info))
}

/// The manifest of a Windows executable: its template filled in with the
/// executable's information; `None` when it does not render.
pub fn windows_manifest(info: &WindowsInfo) -> (result: Option<String>)
    ensures
        opt_view(result) == rendered_template(MANIFEST@, windows_info_values(*info)),
{
    render_template(MANIFEST, &windows_values(info))
}

} // verus!

//! The compute side of xcframework packaging: the iOS build targets and
//! the property-list content of the packaged framework. Invoking the
//! toolchain and copying files stay outside the library.

use vstd::prelude::*;
use vstd::string::StringExecFns;

use crate::env::Platform;
use crate::paths::to_lib_name;
use crate::text::views_of;

verus! {

/// Options of the xcframework packaging step.
pub struct CreateXcframeworkOptions {
    pub project_root: String,
    pub header_path: String,
    pub lib_name: String,
}

/// The iOS members of the toolchain target list.
pub fn get_ios_targets() -> (r: Vec<String>)
    ensures
        views_of(r@) =~= seq![
            "aarch64-apple-ios"@,
            "aarch64-apple-ios-sim"@,
            "x86_64-apple-ios"@,
        ],
{
    let mut v: Vec<String> = Vec::new();
    v.push("aarch64-apple-ios".to_owned());
    v.push("aarch64-apple-ios-sim".to_owned());
    v.push("x86_64-apple-ios".to_owned());
    v
}

/// The Info.plist of a packaged xcframework: the device and simulator
/// slices, each pointing at the library binary and its headers.
pub fn info_plist_content(lib_name: &str, headers_path: &str) -> (r: String)
    ensures
        r@ == "<?xml version=\"1.0\" encoding=\"UTF-8\"?>\n<!DOCTYPE plist PUBLIC \"-//Apple//DTD PLIST 1.0//EN\" \"http://www.apple.com/DTDs/PropertyList-1.0.dtd\">\n<plist version=\"1.0\">\n<dict>\n  <key>AvailableLibraries</key>\n  <array>\n    <dict>\n      <key>BinaryPath</key>\n      <string>"@
            + "lib"@ + lib_name@ + ".a"@ + "</string>\n      <key>HeadersPath</key>\n      <string>"@
            + headers_path@
            + "</string>\n      <key>LibraryIdentifier</key>\n      <string>ios-arm64</string>\n      <key>LibraryPath</key>\n      <string>"@
            + "lib"@ + lib_name@ + ".a"@
            + "</string>\n      <key>SupportedArchitectures</key>\n      <array>\n        <string>arm64</string>\n      </array>\n      <key>SupportedPlatform</key>\n      <string>ios</string>\n    </dict>\n    <dict>\n      <key>BinaryPath</key>\n      <string>"@
            + "lib"@ + lib_name@ + ".a"@ + "</string>\n      <key>HeadersPath</key>\n      <string>"@
            + headers_path@
            + "</string>\n      <key>LibraryIdentifier</key>\n      <string>ios-arm64-simulator</string>\n      <key>LibraryPath</key>\n      <string>"@
            + "lib"@ + lib_name@ + ".a"@
            + "</string>\n      <key>SupportedArchitectures</key>\n      <array>\n        <string>arm64</string>\n      </array>\n      <key>SupportedPlatform</key>\n      <string>ios</string>\n      <key>SupportedPlatformVariant</key>\n      <string>simulator</string>\n    </dict>\n  </array>\n  <key>CFBundlePackageType</key>\n  <string>XFWK</string>\n  <key>XCFrameworkFormatVersion</key>\n  <string>1.0</string>\n</dict>\n</plist>"@,
{
    let lib_string = to_lib_name(&lib_name.to_owned(), Platform::Ios);
    let mut out = "<?xml version=\"1.0\" encoding=\"UTF-8\"?>\n<!DOCTYPE plist PUBLIC \"-//Apple//DTD PLIST 1.0//EN\" \"http://www.apple.com/DTDs/PropertyList-1.0.dtd\">\n<plist version=\"1.0\">\n<dict>\n  <key>AvailableLibraries</key>\n  <array>\n    <dict>\n      <key>BinaryPath</key>\n      <string>"
        .to_owned();
    out.append(lib_string.as_str());
    out.append("</string>\n      <key>HeadersPath</key>\n      <string>");
    out.append(headers_path);
    out.append(
        "</string>\n      <key>LibraryIdentifier</key>\n      <string>ios-arm64</string>\n      <key>LibraryPath</key>\n      <string>",
    );
    out.append(lib_string.as_str());
    out.append(
        "</string>\n      <key>SupportedArchitectures</key>\n      <array>\n        <string>arm64</string>\n      </array>\n      <key>SupportedPlatform</key>\n      <string>ios</string>\n    </dict>\n    <dict>\n      <key>BinaryPath</key>\n      <string>",
    );
    out.append(lib_string.as_str());
    out.append("</string>\n      <key>HeadersPath</key>\n      <string>");
    out.append(headers_path);
    out.append(
        "</string>\n      <key>LibraryIdentifier</key>\n      <string>ios-arm64-simulator</string>\n      <key>LibraryPath</key>\n      <string>",
    );
    out.append(lib_string.as_str());
    out.append(
        "</string>\n      <key>SupportedArchitectures</key>\n      <array>\n        <string>arm64</string>\n      </array>\n      <key>SupportedPlatform</key>\n      <string>ios</string>\n      <key>SupportedPlatformVariant</key>\n      <string>simulator</string>\n    </dict>\n  </array>\n  <key>CFBundlePackageType</key>\n  <string>XFWK</string>\n  <key>XCFrameworkFormatVersion</key>\n  <string>1.0</string>\n</dict>\n</plist>",
    );
    out
}

} // verus!

//! The compute side of project initialization: deriving the template
//! substitution data from a package name, validating the prompted
//! answers, and the configuration files written into a fresh example
//! app. The prompting and file writing themselves stay outside the
//! library.

use vstd::prelude::*;
use vstd::string::StringExecFns;

use crate::text::{
    flat_case, flat_of, kebab_case, kebab_of, pascal_case, pascal_of, snake_case, snake_of,
    spec_dec_digits, trim_of, trimmed, usize_to_string,
};

verus! {

/// Options of the init command.
pub struct InitOptions {
    pub cwd: String,
    pub pkg_name: String,
}

/// What email_address's `EmailAddress::is_valid` accepts: the result
/// depends on the input characters alone.
pub uninterp spec fn email_valid(s: Seq<char>) -> bool;

/// Relies on email_address::EmailAddress::is_valid.
#[verifier::external_body]
pub fn is_valid_email(input: &str) -> (r: bool)
    ensures
        r == email_valid(input@),
{
    email_address::EmailAddress::is_valid(input)
}

/// What url's `Url::parse` accepts: the result depends on the input
/// characters alone.
pub uninterp spec fn url_valid(s: Seq<char>) -> bool;

/// Relies on url::Url::parse: tells a parsable URL from a rejected one.
#[verifier::external_body]
pub fn is_valid_url(input: &str) -> (r: bool)
    ensures
        r == url_valid(input@),
{
    match url::Url::parse(input) {
        Ok(_) => true,
        Err(_) => false,
    }
}

/// Whether a prompted answer carries any non-whitespace content.
pub fn is_required_input(input: &str) -> (r: bool)
    ensures
        r == (trim_of(input@).len() != 0),
{
    let t = trimmed(input);
    let n: usize = vstd::string::StrSliceExecFns::unicode_len(t.as_str());
    n != 0
}

/// One key of the template data, with its substituted value.
pub struct TemplateEntry {
    pub key: String,
    pub value: String,
}

/// Derive the template substitution data for a fresh project: every
/// naming convention of the crate name, the prompted metadata, and the
/// toolkit version, in sorted key order.
pub fn build_template_data(
    pkg_name: &str,
    description: &str,
    author_name: &str,
    author_email: &str,
    repository_url: &str,
    year: usize,
    pkg_version: &str,
) -> (r: Vec<TemplateEntry>)
    ensures
        r@.len() == 14,
        r@[0].key@ == "author_email"@ && r@[0].value@ == author_email@,
        r@[1].key@ == "author_name"@ && r@[1].value@ == author_name@,
        r@[2].key@ == "crate_name"@ && r@[2].value@ == snake_of(pkg_name@),
        r@[3].key@ == "cxx_name"@ && r@[3].value@ == "Cxx"@ + pascal_of(snake_of(pkg_name@))
            + "Module"@,
        r@[4].key@ == "description"@ && r@[4].value@ == description@,
        r@[5].key@ == "flat_name"@ && r@[5].value@ == flat_of(snake_of(pkg_name@)),
        r@[6].key@ == "kebab_name"@ && r@[6].value@ == kebab_of(snake_of(pkg_name@)),
        r@[7].key@ == "objc_provider"@ && r@[7].value@ == pascal_of(snake_of(pkg_name@))
            + "ModuleProvider"@,
        r@[8].key@ == "pascal_name"@ && r@[8].value@ == pascal_of(snake_of(pkg_name@)),
        r@[9].key@ == "pkg_name"@ && r@[9].value@ == pkg_name@,
        r@[10].key@ == "pkg_version"@ && r@[10].value@ == "^"@ + pkg_version@,
        r@[11].key@ == "repository_url"@ && r@[11].value@ == repository_url@,
        r@[12].key@ == "snake_name"@ && r@[12].value@ == snake_of(pkg_name@),
        r@[13].key@ == "year"@ && r@[13].value@ == spec_dec_digits(year as nat),
{
    let crate_name = snake_case(pkg_name);
    let cxx_name = crate::context::cxx_mod_cls_name(crate_name.as_str());
    let objc = crate::context::ObjCProviderName::new(crate_name.as_str());
    let mut versioned = "^".to_owned();
    versioned.append(pkg_version);

    let mut out: Vec<TemplateEntry> = Vec::new();
    out.push(TemplateEntry { key: "author_email".to_owned(), value: author_email.to_owned() });
    out.push(TemplateEntry { key: "author_name".to_owned(), value: author_name.to_owned() });
    out.push(TemplateEntry { key: "crate_name".to_owned(), value: crate_name.clone() });
    out.push(TemplateEntry { key: "cxx_name".to_owned(), value: cxx_name });
    out.push(TemplateEntry { key: "description".to_owned(), value: description.to_owned() });
    out.push(TemplateEntry { key: "flat_name".to_owned(), value: flat_case(crate_name.as_str()) });
    out.push(
        TemplateEntry { key: "kebab_name".to_owned(), value: kebab_case(crate_name.as_str()) },
    );
    out.push(TemplateEntry { key: "objc_provider".to_owned(), value: objc.0 });
    out.push(
        TemplateEntry { key: "pascal_name".to_owned(), value: pascal_case(crate_name.as_str()) },
    );
    out.push(TemplateEntry { key: "pkg_name".to_owned(), value: pkg_name.to_owned() });
    out.push(TemplateEntry { key: "pkg_version".to_owned(), value: versioned });
    out.push(
        TemplateEntry { key: "repository_url".to_owned(), value: repository_url.to_owned() },
    );
    out.push(TemplateEntry { key: "snake_name".to_owned(), value: crate_name });
    out.push(TemplateEntry { key: "year".to_owned(), value: usize_to_string(year) });
    out
}

/// The metro configuration written into a fresh example app.
pub fn metro_config_text() -> (r: String)
    ensures
        r@ == "const { getMetroConfig } = require('@craby/devkit');\nconst { getDefaultConfig, mergeConfig } = require('@react-native/metro-config');\n\n/**\n* Metro configuration\n* https://reactnative.dev/docs/metro\n*\n* @type {import('@react-native/metro-config').MetroConfig}\n*/\nconst config = getMetroConfig(__dirname);\n\nmodule.exports = mergeConfig(getDefaultConfig(__dirname), config);\n"@,
{
    "const { getMetroConfig } = require('@craby/devkit');\nconst { getDefaultConfig, mergeConfig } = require('@react-native/metro-config');\n\n/**\n* Metro configuration\n* https://reactnative.dev/docs/metro\n*\n* @type {import('@react-native/metro-config').MetroConfig}\n*/\nconst config = getMetroConfig(__dirname);\n\nmodule.exports = mergeConfig(getDefaultConfig(__dirname), config);\n".to_owned()
}

/// The react-native configuration written into a fresh example app.
pub fn react_native_config_text() -> (r: String)
    ensures
        r@ == "const path = require('node:path');\nconst { withWorkspaceModule } = require('@craby/devkit');\n\nconst modulePackagePath = path.resolve(__dirname, '..');\nconst config = {};\n\nmodule.exports = withWorkspaceModule(config, modulePackagePath);\n"@,
{
    "const path = require('node:path');\nconst { withWorkspaceModule } = require('@craby/devkit');\n\nconst modulePackagePath = path.resolve(__dirname, '..');\nconst config = {};\n\nmodule.exports = withWorkspaceModule(config, modulePackagePath);\n".to_owned()
}

/// The example app's name for a package: `<Pascal>Example`.
pub fn example_app_name(pkg_name: &str) -> (r: String)
    ensures
        r@ == pascal_of(pkg_name@) + "Example"@,
{
    let mut out = pascal_case(pkg_name);
    out.append("Example");
    out
}

} // verus!

//! Status symbols for terminal output: the check mark and warning mark,
//! styled bold and coloured through owo-colors.

use vstd::prelude::*;
use vstd::string::StringExecFns;

verus! {

/// The outcome a status symbol reports.
pub enum Status {
    Success,
    Warning,
}

/// The bare, unstyled status marks.
pub fn status_ok_mark() -> (r: String)
    ensures
        r@ == "\u{2713}"@,
{
    "\u{2713}".to_owned()
}

pub fn status_warn_mark() -> (r: String)
    ensures
        r@ == "!"@,
{
    "!".to_owned()
}

/// Relies on owo_colors' `bold` and `green` display wrappers: the result
/// is the input bracketed by the bold and green ANSI escape sequences.
#[verifier::external_body]
fn bold_green(s: &str) -> (r: String)
    ensures
        r@ == "\u{1b}[32m\u{1b}[1m"@ + s@ + "\u{1b}[0m\u{1b}[39m"@,
{
    let bolded = owo_colors::OwoColorize::bold(&s);
    let styled = owo_colors::OwoColorize::green(&bolded);
    styled.to_string()
}

/// Relies on owo_colors' `bold` and `yellow` display wrappers: the result
/// is the input bracketed by the bold and yellow ANSI escape sequences.
#[verifier::external_body]
fn bold_yellow(s: &str) -> (r: String)
    ensures
        r@ == "\u{1b}[33m\u{1b}[1m"@ + s@ + "\u{1b}[0m\u{1b}[39m"@,
{
    let bolded = owo_colors::OwoColorize::bold(&s);
    let styled = owo_colors::OwoColorize::yellow(&bolded);
    styled.to_string()
}

/// The styled status symbol: a bold green check mark for success, a bold
/// yellow exclamation mark for a warning.
pub fn sym(status: Status) -> (r: String)
    ensures
        status is Success ==> r@ == "\u{1b}[32m\u{1b}[1m"@ + "\u{2713}"@ + "\u{1b}[0m\u{1b}[39m"@,
        status is Warning ==> r@ == "\u{1b}[33m\u{1b}[1m"@ + "!"@ + "\u{1b}[0m\u{1b}[39m"@,
{
    match status {
        Status::Success => {
            let mark = status_ok_mark();
            bold_green(mark.as_str())
        },
        Status::Warning => {
            let mark = status_warn_mark();
            bold_yellow(mark.as_str())
        },
    }
}

} // verus!

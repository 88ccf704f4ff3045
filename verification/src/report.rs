//! The lines that tell the operator how each request to the controller went.
//!
//! Every line begins with `ABB[name]: `, where `name` is the request. The
//! functions here build the lines; printing them is left to the caller.

use vstd::prelude::*;

verus! {

/// What `{:?}` prints for a string slice: the text between double quotes, with
/// the characters that cannot stand there escaped.
pub uninterp spec fn debug_text(text: Seq<char>) -> Seq<char>;

/// Formats `text` with `{:?}`, through the `Debug` impl that std has for `str`.
/// Trusted: the result is what that impl writes, which depends on the text
/// alone.
#[verifier::external_body]
fn debug_quoted(text: &str) -> (quoted: String)
    ensures
        quoted@ == debug_text(text@),
{
    format!("{:?}", text)
}

/// The beginning of every line about the request `name`.
pub open spec fn label(name: Seq<char>) -> Seq<char> {
    "ABB["@ + name + "]: "@
}

/// The line for a request that succeeded and returned nothing.
pub open spec fn success_line(name: Seq<char>) -> Seq<char> {
    label(name) + "success"@
}

/// The line for a request that succeeded and returned something, `shown` being
/// what it returned as it is to be printed.
pub open spec fn message_line(name: Seq<char>, shown: Seq<char>) -> Seq<char> {
    label(name) + "success. Message: "@ + shown
}

/// The line for a request that failed, `error` being the failure as it is to be
/// printed.
pub open spec fn failure_line(name: Seq<char>, error: Seq<char>) -> Seq<char> {
    label(name) + error
}

/// The message for a connection that could not be made, `shown_host` being the
/// host as it is to be printed.
pub open spec fn connect_failure_line(shown_host: Seq<char>, error: Seq<char>) -> Seq<char> {
    "failed to connect to "@ + shown_host + ": "@ + error
}

fn labelled(name: &str) -> (line: String)
    ensures
        line@ == label(name@),
{
    String::from_str("ABB[").concat(name).concat("]: ")
}

/// The line for the request `name` that succeeded with a message, which is
/// printed as `shown` has it.
pub fn report_message(name: &str, shown: &str) -> (line: String)
    ensures
        line@ == message_line(name@, shown@),
{
    labelled(name).concat("success. Message: ").concat(shown)
}

/// The line for the request `name` that failed with `error`.
pub fn report_failure(name: &str, error: &str) -> (line: String)
    ensures
        line@ == failure_line(name@, error@),
{
    labelled(name).concat(error)
}

/// The line for the request `name` that returns nothing: `success`, or the
/// error.
pub fn parse_result(name: &str, result: Result<(), String>) -> (line: String)
    ensures
        line@ == match result {
            Ok(_) => success_line(name@),
            Err(error) => failure_line(name@, error@),
        },
{
    match result {
        Ok(_) => labelled(name).concat("success"),
        Err(error) => report_failure(name, error.as_str()),
    }
}

/// The line for the request `name` that returns a text: the text between
/// quotes, as `{:?}` prints it, or the error.
pub fn parse_result_text(name: &str, result: Result<String, String>) -> (line: String)
    ensures
        line@ == match result {
            Ok(message) => message_line(name@, debug_text(message@)),
            Err(error) => failure_line(name@, error@),
        },
{
    match result {
        Ok(message) => {
            let shown = debug_quoted(message.as_str());
            report_message(name, shown.as_str())
        },
        Err(error) => report_failure(name, error.as_str()),
    }
}

/// The line for the request `name` that returns the controller's signals,
/// `Ok` holding the list as it is to be printed, or the error.
pub fn parse_result_signals(name: &str, result: Result<String, String>) -> (line: String)
    ensures
        line@ == match result {
            Ok(shown) => message_line(name@, shown@),
            Err(error) => failure_line(name@, error@),
        },
{
    match result {
        Ok(shown) => report_message(name, shown.as_str()),
        Err(error) => report_failure(name, error.as_str()),
    }
}

/// The message for a connection to `shown_host` that could not be made, the
/// host being printed as `shown_host` has it.
pub fn report_connect_failure(shown_host: &str, error: &str) -> (message: String)
    ensures
        message@ == connect_failure_line(shown_host@, error@),
{
    String::from_str("failed to connect to ").concat(shown_host).concat(": ").concat(error)
}

/// The message for a connection to `host` that could not be made: the host
/// between quotes, as `{:?}` prints it, then the error.
pub fn connect_failure(host: &str, error: &str) -> (message: String)
    ensures
        message@ == connect_failure_line(debug_text(host@), error@),
{
    let shown = debug_quoted(host);
    report_connect_failure(shown.as_str(), error)
}

} // verus!

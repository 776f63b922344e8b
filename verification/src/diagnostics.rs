//! Rendering of the messages that the driver hands to the diagnostic sink.

use vstd::prelude::*;
use crate::driver;

verus! {

/// What the sink does with one message: the line to print and the value to
/// hand back to the driver.
pub struct Diagnostic {
    pub line: String,
    pub signal: u32,
}

/// The printed form of a message: the severity and category labels in square
/// brackets behind the fixed tag, then a space and the message.
pub open spec fn diagnostic_line(
    severity: Seq<char>,
    category: Seq<char>,
    message: Seq<char>,
) -> Seq<char> {
    "[Debug]["@ + severity + "]["@ + category + "] "@ + message
}

/// The label of a set of severities: the driver binding's name for it, in
/// lower case.
pub open spec fn severity_label(severity: u32) -> Seq<char> {
    driver::lowercase_text(driver::severity_debug_text(severity))
}

/// The label of a set of categories: the driver binding's name for it, in
/// lower case.
pub open spec fn category_label(category: u32) -> Seq<char> {
    driver::lowercase_text(driver::category_debug_text(category))
}

/// The label of a single message severity.
pub open spec fn severity_word(severity: u32) -> Option<Seq<char>> {
    if severity == 0x1 {
        Some("verbose"@)
    } else if severity == 0x10 {
        Some("info"@)
    } else if severity == 0x100 {
        Some("warning"@)
    } else if severity == 0x1000 {
        Some("error"@)
    } else {
        None
    }
}

/// The label of a single message category.
pub open spec fn category_word(category: u32) -> Option<Seq<char>> {
    if category == 0x1 {
        Some("general"@)
    } else if category == 0x2 {
        Some("validation"@)
    } else if category == 0x4 {
        Some("performance"@)
    } else {
        None
    }
}

/// The names of the single severities in lower case are their labels.
proof fn lemma_severity_words(severity: u32)
    ensures
        match driver::severity_name(severity) {
            Some(name) => driver::all_ascii(name) && severity_word(severity) == Some(
                driver::ascii_lowercase(name),
            ),
            None => severity_word(severity) is None,
        },
{
    reveal_strlit("VERBOSE");
    reveal_strlit("INFO");
    reveal_strlit("WARNING");
    reveal_strlit("ERROR");
    reveal_strlit("verbose");
    reveal_strlit("info");
    reveal_strlit("warning");
    reveal_strlit("error");
    if let Some(name) = driver::severity_name(severity) {
        assert(severity_word(severity).unwrap() =~= driver::ascii_lowercase(name));
    }
}

/// The names of the single categories in lower case are their labels.
proof fn lemma_category_words(category: u32)
    ensures
        match driver::category_name(category) {
            Some(name) => driver::all_ascii(name) && category_word(category) == Some(
                driver::ascii_lowercase(name),
            ),
            None => category_word(category) is None,
        },
{
    reveal_strlit("GENERAL");
    reveal_strlit("VALIDATION");
    reveal_strlit("PERFORMANCE");
    reveal_strlit("general");
    reveal_strlit("validation");
    reveal_strlit("performance");
    if let Some(name) = driver::category_name(category) {
        assert(category_word(category).unwrap() =~= driver::ascii_lowercase(name));
    }
}

/// The label of a set of severities, as it stands in a diagnostic line. A
/// single severity is labelled `verbose`, `info`, `warning` or `error`.
pub fn label_severity(severity: u32) -> (label: String)
    ensures
        label@ == severity_label(severity),
        severity_word(severity) matches Some(word) ==> label@ == word,
{
    let name = driver::severity_debug(severity);
    proof {
        lemma_severity_words(severity);
    }
    driver::lowercase(name.as_str())
}

/// The label of a set of categories, as it stands in a diagnostic line. A
/// single category is labelled `general`, `validation` or `performance`.
pub fn label_category(category: u32) -> (label: String)
    ensures
        label@ == category_label(category),
        category_word(category) matches Some(word) ==> label@ == word,
{
    let name = driver::category_debug(category);
    proof {
        lemma_category_words(category);
    }
    driver::lowercase(name.as_str())
}

/// Puts a diagnostic line together from its labels and the message text.
pub fn format_diagnostic(severity: &str, category: &str, message: &str) -> (line: String)
    ensures
        line@ == diagnostic_line(severity@, category@, message@),
{
    let mut line = String::new();
    driver::push_str(&mut line, "[Debug][");
    driver::push_str(&mut line, severity);
    driver::push_str(&mut line, "][");
    driver::push_str(&mut line, category);
    driver::push_str(&mut line, "] ");
    driver::push_str(&mut line, message);
    assert(line@ =~= diagnostic_line(severity@, category@, message@));
    line
}

/// The diagnostic sink. Renders a message of the given raw severity and
/// category flags, and always answers with the value that lets the driver
/// call that raised the message go on. `message` is the text to print for
/// the driver's message, quoted and escaped by the caller as it sees fit.
pub fn handle_diagnostic(severity: u32, category: u32, message: &str) -> (out: Diagnostic)
    ensures
        out.signal == driver::CONTINUE,
        out.line@ == diagnostic_line(severity_label(severity), category_label(category), message@),
        severity_word(severity) is Some && category_word(category) is Some ==> out.line@
            == diagnostic_line(
            severity_word(severity).unwrap(),
            category_word(category).unwrap(),
            message@,
        ),
{
    let severity_text = label_severity(severity);
    let category_text = label_category(category);
    let line = format_diagnostic(severity_text.as_str(), category_text.as_str(), message);
    Diagnostic { line, signal: driver::continue_signal() }
}

} // verus!

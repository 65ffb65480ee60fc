//! The standard-library formatting that messages rely on, and the I/O error
//! type that some failures carry as their cause.

use std::fmt::Write;

use vstd::prelude::*;

verus! {

/// `std::fmt::Error`, the failure a formatter reports.
#[verifier::external_type_specification]
#[verifier::external_body]
pub struct ExFmtError(std::fmt::Error);

/// `std::io::Error`, carried as the underlying cause of I/O failures.
/// Values of it are opaque here: they are only stored and rendered.
#[verifier::external_type_specification]
#[verifier::external_body]
pub struct ExIoError(std::io::Error);

/// The text that `format!("{:?}", c)` produces for the character `c`: the
/// character between single quotes, with quotes, backslashes, control and
/// other non-printable characters escaped (a double quote stays as it is).
pub uninterp spec fn char_debug(c: char) -> Seq<char>;

/// Renders `c` with the standard `Debug` formatting of `char`.
/// The contract claims that the result is a fixed function of `c`, named
/// `char_debug`, and that a printable ASCII character other than the single
/// quote and the backslash appears as itself between single quotes; the
/// escaping rules for the other characters are not restated.
#[verifier::external_body]
pub(crate) fn char_debug_text(c: char) -> (s: String)
    ensures
        s@ == char_debug(c),
        ' ' <= c <= '~' && c != '\'' && c != '\\' ==> s@ == seq!['\'', c, '\''],
{
    format!("{:?}", c)
}

/// Renders an I/O error with its standard `Display` formatting, or returns
/// the formatter's error when that formatting fails (which an error built
/// from a custom payload can do). The contract claims that a text it returns
/// is the one `ToString::to_string` gives for `e` (vstd's
/// `to_string_from_display_ensures`): both write the `Display` output into a
/// fresh `String`. Nothing more is claimed of the text or of when it fails:
/// for errors that come from the operating system the text is the platform's
/// own description of the error code, which differs between systems, and an
/// error built from a custom payload renders through that payload's own
/// formatter.
#[verifier::external_body]
pub(crate) fn io_error_text(e: &std::io::Error) -> (r: Result<String, std::fmt::Error>)
    ensures
        r matches Ok(s) ==> vstd::string::to_string_from_display_ensures::<std::io::Error>(e, s),
{
    let mut s = String::new();
    write!(s, "{}", e)?;
    Ok(s)
}

} // verus!

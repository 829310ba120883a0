//! The I/O errors this crate produces itself.
use vstd::prelude::*;

verus! {

/// The kinds of I/O error this crate produces.
#[derive(Copy, Clone, Debug, PartialEq, Eq, Structural)]
pub enum IoErrorKind {
    /// An argument was not acceptable
    InvalidInput,
    /// Something needed is not enabled
    PermissionDenied,
    /// The other end went away
    UnexpectedEof,
    /// The operation would have to wait
    WouldBlock,
}

/// `std::io::Error::new`: an error of the kind `kind` that carries `message`.
#[verifier::external_body]
pub(crate) fn io_error(kind: IoErrorKind, message: String) -> std::io::Error {
    let kind = match kind {
        IoErrorKind::InvalidInput => std::io::ErrorKind::InvalidInput,
        IoErrorKind::PermissionDenied => std::io::ErrorKind::PermissionDenied,
        IoErrorKind::UnexpectedEof => std::io::ErrorKind::UnexpectedEof,
        IoErrorKind::WouldBlock => std::io::ErrorKind::WouldBlock,
    };
    std::io::Error::new(kind, message)
}

} // verus!

verus! {

/// The decimal digits of `n`, most significant first, without leading zeros.
pub open spec fn decimal(n: nat) -> Seq<char>
    decreases n,
{
    if n < 10 {
        seq![digit_char(n)]
    } else {
        decimal(n / 10).push(digit_char(n % 10))
    }
}

/// The character of the digit `d`.
pub open spec fn digit_char(d: nat) -> char {
    (48 + d) as char
}

/// `Display` of `usize`: its decimal digits, as the standard library documents.
#[verifier::external_body]
pub(crate) fn usize_text(n: usize) -> (r: String)
    ensures
        r@ == decimal(n as nat),
{
    format!("{}", n)
}

/// `Display` of `std::io::Error`. The text can come from the operating system, so nothing
/// is promised of it.
#[verifier::external_body]
pub(crate) fn io_error_text(e: &std::io::Error) -> String {
    format!("{}", e)
}

/// `Display` of `std::str::Utf8Error`. Nothing is promised of the text.
#[verifier::external_body]
pub(crate) fn utf8_error_text(e: &std::str::Utf8Error) -> String {
    format!("{}", e)
}

/// What `str::escape_debug` gives for the characters `s`.
pub uninterp spec fn debug_escaped(s: Seq<char>) -> Seq<char>;

/// `str::escape_debug`: `s` with quotes, backslashes, control and unprintable characters
/// escaped as in Rust's `Debug` output.
#[verifier::external_body]
pub(crate) fn escape_debug_text(s: &str) -> (r: String)
    ensures
        r@ == debug_escaped(s@),
{
    s.escape_debug().to_string()
}

} // verus!

//! The errors of the library and how they read.

use vstd::prelude::*;
use vstd::string::*;

verus! {

/// What can go wrong while the backlight is driven.
#[derive(Debug)]
pub enum Error {
    /// A system call or a file operation failed; the text describes it.
    Problem(String),
    /// The controller refused a feature report; the number is the errno code.
    ErrNo(i32),
    /// No raw-HID node identifies itself as the keyboard.
    HidrawDeviceNotFound,
}

/// An [`Error`] as a mathematical value.
pub enum ErrorView {
    Problem(Seq<char>),
    ErrNo(i32),
    HidrawDeviceNotFound,
}

impl View for Error {
    type V = ErrorView;

    open spec fn view(&self) -> ErrorView {
        match self {
            Error::Problem(text) => ErrorView::Problem(text@),
            Error::ErrNo(code) => ErrorView::ErrNo(*code),
            Error::HidrawDeviceNotFound => ErrorView::HidrawDeviceNotFound,
        }
    }
}

/// The line that nix prints for the errno with the given code: the errno's
/// name, a colon, and its description, both from nix's tables for the system
/// that the library is built for. An unknown code reads as nix's
/// `UnknownErrno`.
pub uninterp spec fn errno_text(code: i32) -> Seq<char>;

impl ErrorView {
    /// The one-line description of the error.
    pub open spec fn message(self) -> Seq<char> {
        match self {
            ErrorView::Problem(text) => "Problem: "@ + text,
            ErrorView::ErrNo(code) => "Errno: "@ + errno_text(code),
            ErrorView::HidrawDeviceNotFound => "Hidraw device not found"@,
        }
    }
}

/// Formats an errno code with nix: `Errno::from_raw` turns the code into nix's
/// errno and its `Display` impl writes the line. The contract only gives that
/// line its name, [`errno_text`]; it is a fixed table lookup in nix and
/// depends on nothing but the code.
#[verifier::external_body]
fn errno_line(code: i32) -> (line: String)
    ensures
        line@ == errno_text(code),
{
    format!("{}", nix::errno::Errno::from_raw(code))
}

impl Error {
    /// The one-line description of the error, as it is shown to the user.
    pub fn message(&self) -> (text: String)
        ensures
            text@ == self@.message(),
    {
        match self {
            Error::Problem(detail) => String::from_str("Problem: ").concat(detail.as_str()),
            Error::ErrNo(code) => {
                let line = errno_line(*code);
                String::from_str("Errno: ").concat(line.as_str())
            },
            Error::HidrawDeviceNotFound => String::from_str("Hidraw device not found"),
        }
    }
}

} // verus!

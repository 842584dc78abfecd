//! The closed error taxonomy of the card driver and the translation between
//! the driver's integer status codes and [`CardError`].

use vstd::prelude::*;
use vstd::set_lib::{lemma_int_range, set_int_range};

verus! {

/// Every outcome a card operation can report.
///
/// `Ready` is the driver's success status. `Encoding` is never produced by
/// the driver: it is raised when a record cannot be encoded into, or decoded
/// from, a sector buffer.
#[derive(Clone, Copy, Debug, PartialEq, Eq, Structural)]
pub enum CardError {
    Ready,
    Busy,
    WrongDevice,
    NoCard,
    NoFile,
    IoError,
    Broken,
    Exist,
    NoEnt,
    InsSpace,
    NoPerm,
    Limit,
    NameTooLong,
    Encoding,
    Canceled,
    FatalError,
}

/// A caller-side contract violation, found without consulting the device.
#[derive(Clone, Copy, Debug, PartialEq, Eq, Structural)]
pub enum PreconditionError {
    /// The file name is longer than the card's directory allows.
    NameTooLong,
    /// The buffer does not start on a transfer-aligned address.
    Misaligned,
    /// The buffer length is not the multiple that the operation asks for, or
    /// exceeds what one transfer can express.
    BadLength,
}

/// Why an operation issued no driver call.
#[derive(Clone, Copy, Debug, PartialEq, Eq, Structural)]
pub enum Error {
    /// A failure of the card taxonomy, raised by the library itself.
    Card(CardError),
    /// A caller-side contract violation.
    Precondition(PreconditionError),
}

/// The status codes that the driver documents: `0` down to `-14`, and `-128`.
pub open spec fn is_known_status(code: int) -> bool {
    -14 <= code <= 0 || code == -128
}

/// The error that a status code stands for; `None` for a code outside the
/// documented set.
pub open spec fn status_error(code: int) -> Option<CardError> {
    if code == 0 {
        Some(CardError::Ready)
    } else if code == -1 {
        Some(CardError::Busy)
    } else if code == -2 {
        Some(CardError::WrongDevice)
    } else if code == -3 {
        Some(CardError::NoCard)
    } else if code == -4 {
        Some(CardError::NoFile)
    } else if code == -5 {
        Some(CardError::IoError)
    } else if code == -6 {
        Some(CardError::Broken)
    } else if code == -7 {
        Some(CardError::Exist)
    } else if code == -8 {
        Some(CardError::NoEnt)
    } else if code == -9 {
        Some(CardError::InsSpace)
    } else if code == -10 {
        Some(CardError::NoPerm)
    } else if code == -11 {
        Some(CardError::Limit)
    } else if code == -12 {
        Some(CardError::NameTooLong)
    } else if code == -13 {
        Some(CardError::Encoding)
    } else if code == -14 {
        Some(CardError::Canceled)
    } else if code == -128 {
        Some(CardError::FatalError)
    } else {
        None
    }
}

impl CardError {
    /// The status code of this error.
    pub open spec fn spec_code(self) -> int {
        match self {
            CardError::Ready => 0,
            CardError::Busy => -1,
            CardError::WrongDevice => -2,
            CardError::NoCard => -3,
            CardError::NoFile => -4,
            CardError::IoError => -5,
            CardError::Broken => -6,
            CardError::Exist => -7,
            CardError::NoEnt => -8,
            CardError::InsSpace => -9,
            CardError::NoPerm => -10,
            CardError::Limit => -11,
            CardError::NameTooLong => -12,
            CardError::Encoding => -13,
            CardError::Canceled => -14,
            CardError::FatalError => -128,
        }
    }

    /// Translates a status code of the documented set.
    ///
    /// The driver never emits another code; [`CardError::from_status`] is the
    /// total form for codes of unknown origin.
    pub fn from(code: i32) -> (error: CardError)
        requires
            is_known_status(code as int),
        ensures
            status_error(code as int) == Some(error),
            error.spec_code() == code,
    {
        match code {
            0 => CardError::Ready,
            -1 => CardError::Busy,
            -2 => CardError::WrongDevice,
            -3 => CardError::NoCard,
            -4 => CardError::NoFile,
            -5 => CardError::IoError,
            -6 => CardError::Broken,
            -7 => CardError::Exist,
            -8 => CardError::NoEnt,
            -9 => CardError::InsSpace,
            -10 => CardError::NoPerm,
            -11 => CardError::Limit,
            -12 => CardError::NameTooLong,
            -13 => CardError::Encoding,
            -14 => CardError::Canceled,
            _ => CardError::FatalError,
        }
    }

    /// Translates any integer: `Some` exactly for the documented codes.
    pub fn from_status(code: i32) -> (error: Option<CardError>)
        ensures
            error == status_error(code as int),
            error is Some <==> is_known_status(code as int),
    {
        if (-14 <= code && code <= 0) || code == -128 {
            Some(CardError::from(code))
        } else {
            None
        }
    }

    /// The status code that translates to this error.
    pub fn code(&self) -> (code: i32)
        ensures
            code == self.spec_code(),
            is_known_status(code as int),
            status_error(code as int) == Some(*self),
    {
        match self {
            CardError::Ready => 0,
            CardError::Busy => -1,
            CardError::WrongDevice => -2,
            CardError::NoCard => -3,
            CardError::NoFile => -4,
            CardError::IoError => -5,
            CardError::Broken => -6,
            CardError::Exist => -7,
            CardError::NoEnt => -8,
            CardError::InsSpace => -9,
            CardError::NoPerm => -10,
            CardError::Limit => -11,
            CardError::NameTooLong => -12,
            CardError::Encoding => -13,
            CardError::Canceled => -14,
            CardError::FatalError => -128,
        }
    }

    /// Whether this is the success status.
    pub fn is_ready(&self) -> (ready: bool)
        ensures
            ready == (*self == CardError::Ready),
            ready == (self.spec_code() == 0),
    {
        match self {
            CardError::Ready => true,
            _ => false,
        }
    }
}

/// Translation is total on the documented codes and nowhere else.
pub proof fn translation_is_total(code: int)
    ensures
        status_error(code) is Some <==> is_known_status(code),
{
}

/// Translating a code and taking the code of the result gives the code back.
pub proof fn code_inverts_translation(code: int)
    requires
        is_known_status(code),
    ensures
        status_error(code)->Some_0.spec_code() == code,
{
}

/// Every error is the translation of its own code, so every error is
/// reached by exactly one documented code.
pub proof fn translation_inverts_code(error: CardError)
    ensures
        is_known_status(error.spec_code()),
        status_error(error.spec_code()) == Some(error),
        forall|code: int| status_error(code) == Some(error) ==> code == error.spec_code(),
{
}

/// The documented status codes, as a set.
pub open spec fn known_statuses() -> Set<int> {
    Set::new(|code: int| is_known_status(code))
}

/// There are sixteen documented status codes.
pub proof fn sixteen_statuses_are_known()
    ensures
        known_statuses().finite(),
        known_statuses().len() == 16,
{
    lemma_int_range(-14, 1);
    assert(known_statuses() =~= set_int_range(-14, 1).insert(-128));
}

/// No two documented codes translate to the same error.
pub proof fn translation_is_injective(a: int, b: int)
    requires
        is_known_status(a),
        is_known_status(b),
        status_error(a) == status_error(b),
    ensures
        a == b,
{
}

} // verus!

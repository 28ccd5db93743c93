//! The firmware call layer of the RISC-V Supervisor Binary Interface (SBI).
//!
//! A call is one `ecall` instruction: the extension id travels in `a7`, the
//! function id in `a6`, three arguments in `a0` to `a2`, and the firmware
//! answers with a status in `a0` and a value in `a1`. This module builds the
//! register image of a call and decodes the answer; the instruction itself is
//! issued by the embedding code.

use vstd::prelude::*;
use vstd::std_specs::convert::FromSpecImpl;

verus! {

/// Extension id of the legacy console output call.
pub const LEGACY_CONSOLE_PUTCHAR: usize = 0x01;

/// Extension id of the legacy shutdown call.
pub const LEGACY_SHUTDOWN: usize = 0x08;

/// The error type which is returned from SBI.
#[derive(Debug, Copy, Clone, PartialEq, Eq, Structural)]
pub enum SbiError {
    Success,
    Failed,
    NotSupported,
    InvalidParam,
    Denied,
    InvalidAddress,
    AlreadyAvailable,
}

/// [`SbiError`], with the acronym in capitals.
pub type SBIError = SbiError;

/// The type returned by SBI functions.
pub type SbiResult<T = ()> = Result<T, SbiError>;

/// [`SbiResult`], with the acronym in capitals.
pub type SBIResult<T = ()> = Result<T, SbiError>;

/// The status that the firmware writes to `a0` for each error kind.
pub open spec fn status_of(error: SbiError) -> int {
    match error {
        SbiError::Success => 0,
        SbiError::Failed => -1,
        SbiError::NotSupported => -2,
        SbiError::InvalidParam => -3,
        SbiError::Denied => -4,
        SbiError::InvalidAddress => -5,
        SbiError::AlreadyAvailable => -6,
    }
}

/// Whether the firmware interface defines `status`.
pub open spec fn is_defined_status(status: int) -> bool {
    -6 <= status <= 0
}

impl SbiError {
    /// The status code of this error kind.
    pub fn status(self) -> (code: isize)
        ensures
            code == status_of(self),
    {
        match self {
            SbiError::Success => 0,
            SbiError::Failed => -1,
            SbiError::NotSupported => -2,
            SbiError::InvalidParam => -3,
            SbiError::Denied => -4,
            SbiError::InvalidAddress => -5,
            SbiError::AlreadyAvailable => -6,
        }
    }

    /// Decodes a status code. A code that the interface does not define is
    /// not coerced to any kind: it comes back as it is, as the error.
    pub fn from_status(status: isize) -> (kind: Result<SbiError, UnknownStatus>)
        ensures
            kind.is_ok() <==> is_defined_status(status as int),
            kind.is_ok() ==> status_of(kind.unwrap()) == status,
            kind.is_err() ==> kind.unwrap_err() == UnknownStatus(status),
    {
        match status {
            0 => Ok(SbiError::Success),
            -1 => Ok(SbiError::Failed),
            -2 => Ok(SbiError::NotSupported),
            -3 => Ok(SbiError::InvalidParam),
            -4 => Ok(SbiError::Denied),
            -5 => Ok(SbiError::InvalidAddress),
            -6 => Ok(SbiError::AlreadyAvailable),
            _ => Err(UnknownStatus(status)),
        }
    }
}

/// A status that the firmware interface does not define, as it was read
/// from `a0`.
#[derive(Debug, Copy, Clone, PartialEq, Eq, Structural)]
pub struct UnknownStatus(pub isize);

/// What the firmware hands back: an error kind and a value, which has a
/// meaning only where the kind is `Success`.
#[derive(Debug, Copy, Clone, PartialEq, Eq, Structural)]
pub struct SbiReturn {
    pub error: SbiError,
    pub value: usize,
}

/// [`SbiReturn`], with the acronym in capitals.
pub type SBIReturn = SbiReturn;

/// The typed result that a pair of error kind and value stands for.
pub open spec fn result_of(ret: SbiReturn) -> SbiResult<usize> {
    if ret.error == SbiError::Success {
        Ok(ret.value)
    } else {
        Err(ret.error)
    }
}

impl SbiReturn {
    /// Decodes the two registers that the firmware wrote. The value is
    /// passed through untouched; an undefined status is handed back as the
    /// error.
    pub fn decode(status: isize, value: usize) -> (ret: Result<SbiReturn, UnknownStatus>)
        ensures
            ret.is_ok() <==> is_defined_status(status as int),
            ret.is_ok() ==> status_of(ret.unwrap().error) == status && ret.unwrap().value == value,
            ret.is_err() ==> ret.unwrap_err() == UnknownStatus(status),
    {
        match SbiError::from_status(status) {
            Ok(error) => Ok(SbiReturn { error, value }),
            Err(unknown) => Err(unknown),
        }
    }

    /// The bare value of a call that succeeded. For call sites to which a
    /// failure is fatal: they establish success before they ask.
    pub fn unwrap(self) -> (value: usize)
        requires
            self.error == SbiError::Success,
        ensures
            value == self.value,
            result_of(self) == Ok::<usize, SbiError>(value),
    {
        self.value
    }

    /// The typed result: `Ok` with the value on success, else the error.
    pub fn into_result(self) -> (res: SbiResult<usize>)
        ensures
            res == result_of(self),
    {
        match self.error {
            SbiError::Success => Ok(self.value),
            err => Err(err),
        }
    }
}

impl FromSpecImpl<SbiReturn> for Result<usize, SbiError> {
    open spec fn obeys_from_spec() -> bool {
        true
    }

    open spec fn from_spec(ret: SbiReturn) -> Self {
        result_of(ret)
    }
}

impl From<SbiReturn> for Result<usize, SbiError> {
    fn from(ret: SbiReturn) -> (res: Self) {
        ret.into_result()
    }
}

/// The registers of one firmware call, as they stand when `ecall` is issued.
#[derive(Debug, Copy, Clone, PartialEq, Eq, Structural)]
pub struct Ecall {
    /// First argument.
    pub a0: usize,
    /// Second argument.
    pub a1: usize,
    /// Third argument.
    pub a2: usize,
    /// Function id.
    pub a6: usize,
    /// Extension id.
    pub a7: usize,
}

/// Places a request in the registers of the calling convention.
pub fn sbi_call(ext_id: usize, func_id: usize, arg0: usize, arg1: usize, arg2: usize) -> (call:
    Ecall)
    ensures
        call == (Ecall { a0: arg0, a1: arg1, a2: arg2, a6: func_id, a7: ext_id }),
{
    Ecall { a0: arg0, a1: arg1, a2: arg2, a6: func_id, a7: ext_id }
}

/// The call that writes one byte to the debug console.
pub fn console_putchar(ch: usize) -> (call: Ecall)
    ensures
        call == (Ecall { a0: ch, a1: 0, a2: 0, a6: 0, a7: LEGACY_CONSOLE_PUTCHAR }),
{
    sbi_call(LEGACY_CONSOLE_PUTCHAR, 0, ch, 0, 0)
}

/// The call that powers the machine down. The firmware does not return
/// from it.
pub fn shutdown() -> (call: Ecall)
    ensures
        call == (Ecall { a0: 0, a1: 0, a2: 0, a6: 0, a7: LEGACY_SHUTDOWN }),
{
    sbi_call(LEGACY_SHUTDOWN, 0, 0, 0, 0)
}

/// Every defined status has exactly one error kind, and decoding a kind's
/// own status gives that kind back.
pub proof fn lemma_status_bijection(error: SbiError, other: SbiError)
    ensures
        is_defined_status(status_of(error)),
        status_of(error) == status_of(other) ==> error == other,
        status_of(error) == 0 <==> error == SbiError::Success,
{
}

/// A pair decodes to `Ok` exactly when its status is zero, and then with
/// the value that came with it; any other kind is handed on as the error.
pub proof fn lemma_result_of_status(ret: SbiReturn)
    ensures
        status_of(ret.error) == 0 ==> result_of(ret) == Ok::<usize, SbiError>(ret.value),
        status_of(ret.error) != 0 ==> result_of(ret) == Err::<usize, SbiError>(ret.error),
{
}

} // verus!

use opensbi_rt::sbi::{
    console_putchar, sbi_call, shutdown, Ecall, SBIError, SbiError, SbiResult, SbiReturn,
    UnknownStatus, LEGACY_CONSOLE_PUTCHAR, LEGACY_SHUTDOWN,
};

const KINDS: [(isize, SbiError); 7] = [
    (0, SbiError::Success),
    (-1, SbiError::Failed),
    (-2, SbiError::NotSupported),
    (-3, SbiError::InvalidParam),
    (-4, SbiError::Denied),
    (-5, SbiError::InvalidAddress),
    (-6, SbiError::AlreadyAvailable),
];

#[test]
fn status_zero_is_success_with_the_value() {
    let ret = SbiReturn::decode(0, 1234).unwrap();
    assert_eq!(ret.error, SbiError::Success);
    assert_eq!(ret.value, 1234);
    assert_eq!(ret.into_result(), Ok(1234));
    assert_eq!(ret.unwrap(), 1234);
}

#[test]
fn each_defined_status_decodes_to_its_kind() {
    for (status, kind) in KINDS {
        assert_eq!(SbiError::from_status(status), Ok(kind));
        assert_eq!(kind.status(), status);
    }
}

#[test]
fn each_failure_status_is_an_error_result() {
    for (status, kind) in KINDS {
        let ret = SbiReturn::decode(status, 77).unwrap();
        assert_eq!(ret.value, 77);
        if status == 0 {
            assert_eq!(ret.into_result(), Ok(77));
        } else {
            assert_eq!(ret.into_result(), Err(kind));
        }
    }
}

#[test]
fn undefined_status_is_not_coerced() {
    for status in [1isize, 2, -7, -8, 100, isize::MAX, isize::MIN] {
        assert_eq!(SbiError::from_status(status), Err(UnknownStatus(status)));
        assert_eq!(SbiReturn::decode(status, 5), Err(UnknownStatus(status)));
    }
}

#[test]
fn from_gives_the_typed_result() {
    let ok: SbiResult<usize> = SbiReturn { error: SbiError::Success, value: 9 }.into();
    assert_eq!(ok, Ok(9));
    let denied: SbiResult<usize> = SbiReturn { error: SbiError::Denied, value: 9 }.into();
    assert_eq!(denied, Err(SbiError::Denied));
    let capitals: SBIError = SbiError::Failed;
    assert_eq!(capitals, SbiError::Failed);
}

#[test]
fn value_is_passed_through_untouched() {
    for value in [0usize, 1, usize::MAX, usize::MAX / 2 + 1] {
        assert_eq!(SbiReturn::decode(0, value).unwrap().unwrap(), value);
    }
}

#[test]
fn call_places_arguments_in_their_registers() {
    let call = sbi_call(0x10, 3, 11, 22, 33);
    assert_eq!(call, Ecall { a0: 11, a1: 22, a2: 33, a6: 3, a7: 0x10 });
}

#[test]
fn console_putchar_is_one_call_with_the_byte() {
    let call = console_putchar(0x41);
    assert_eq!(LEGACY_CONSOLE_PUTCHAR, 1);
    assert_eq!(call, Ecall { a0: 0x41, a1: 0, a2: 0, a6: 0, a7: 1 });
    // the firmware answers with success: the call is done, nothing is retried
    let mut issued: Vec<Ecall> = Vec::new();
    issued.push(call);
    let answer = SbiReturn::decode(0, 0).unwrap();
    assert_eq!(answer.into_result(), Ok(0));
    assert_eq!(issued.len(), 1);
    assert_eq!(issued[0].a0, 0x41);
}

#[test]
fn shutdown_is_the_legacy_call() {
    assert_eq!(LEGACY_SHUTDOWN, 8);
    assert_eq!(shutdown(), Ecall { a0: 0, a1: 0, a2: 0, a6: 0, a7: 8 });
}

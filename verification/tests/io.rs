use opensbi_rt::io::Stdout;
use opensbi_rt::sbi::Ecall;

fn putchar(byte: usize) -> Ecall {
    Ecall { a0: byte, a1: 0, a2: 0, a6: 0, a7: 1 }
}

#[test]
fn write_str_of_one_letter_is_one_call() {
    assert_eq!(Stdout.write_str("A"), vec![putchar(0x41)]);
}

#[test]
fn write_str_keeps_the_order() {
    assert_eq!(
        Stdout.write_str("Hi\n"),
        vec![putchar(0x48), putchar(0x69), putchar(0x0a)]
    );
}

#[test]
fn write_str_of_nothing_is_no_call() {
    assert_eq!(Stdout.write_str(""), Vec::<Ecall>::new());
}

#[test]
fn write_str_sends_the_low_byte_of_a_wide_character() {
    // U+00E9 and U+20AC: one call each, with the low eight bits
    assert_eq!(
        Stdout.write_str("\u{e9}\u{20ac}"),
        vec![putchar(0xe9), putchar(0xac)]
    );
}

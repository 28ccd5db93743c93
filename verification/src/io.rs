//! IO operations to the debug console.
//!
//! The console takes one byte per firmware call. Text is cut into such
//! calls here; issuing them, and formatting, is left to the embedding code.

use crate::sbi::{console_putchar, Ecall, LEGACY_CONSOLE_PUTCHAR};
use vstd::prelude::*;

verus! {

/// The debug console.
#[derive(Debug, Copy, Clone)]
pub struct Stdout;

/// The byte that the console is sent for a character: the low eight bits
/// of its code point.
pub open spec fn console_byte(c: char) -> u8 {
    (c as u32 % 256) as u8
}

/// The firmware call that prints a character.
pub open spec fn console_call(c: char) -> Ecall {
    Ecall { a0: console_byte(c) as usize, a1: 0, a2: 0, a6: 0, a7: LEGACY_CONSOLE_PUTCHAR }
}

/// The firmware calls that print a text: one for each character, in order.
pub open spec fn console_calls(text: Seq<char>) -> Seq<Ecall> {
    Seq::new(text.len(), |i: int| console_call(text[i]))
}

impl Stdout {
    /// Cuts `s` into the firmware calls that print it.
    pub fn write_str(&self, s: &str) -> (calls: Vec<Ecall>)
        ensures
            calls@ == console_calls(s@),
    {
        let n = s.unicode_len();
        let mut calls: Vec<Ecall> = Vec::new();
        let mut i: usize = 0;
        while i < n
            invariant
                n == s@.len(),
                i <= n,
                calls@.len() == i,
                forall|j: int| 0 <= j < i ==> calls@[j] == console_call(s@[j]),
            decreases n - i,
        {
            let c = s.get_char(i);
            let byte = (c as u32 % 256) as u8;
            calls.push(console_putchar(byte as usize));
            i += 1;
        }
        calls
    }
}

} // verus!

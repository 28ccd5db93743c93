//! The rules of the `entry` attribute, which marks the function that the
//! runtime calls once a hart has passed the boot barrier.
//!
//! The attribute accepts one shape of function only,
//! `fn main(hartid: usize, dtb: usize)`, and exports it under the name that
//! the runtime links against, behind an identifier that no user code can name.
//! The token handling belongs to the procedural macro; what it reads off the
//! tokens is held here as plain data, and the decision is made on that.

use rand::rngs::SmallRng;
use rand::{Rng, SeedableRng};
use vstd::prelude::*;

verus! {

/// One segment of a type path, such as `usize` or `Vec<u8>`.
#[derive(Debug, Clone)]
pub struct PathSegment {
    /// The identifier of the segment.
    pub ident: String,
    /// Whether generic arguments follow the identifier.
    pub has_arguments: bool,
}

/// The shape of a type, as far as the attribute looks at it.
#[derive(Debug, Clone)]
pub enum TypeShape {
    /// A path, segment by segment.
    Path(Vec<PathSegment>),
    /// A tuple with this many elements.
    Tuple(usize),
    /// Anything else.
    Other,
}

/// One parameter of the function.
#[derive(Debug, Clone)]
pub enum Param {
    /// `self` in any form.
    Receiver,
    /// A pattern with its type.
    Typed(TypeShape),
}

/// What the function returns.
#[derive(Debug, Clone)]
pub enum Output {
    /// No return type is written.
    Default,
    /// A return type is written.
    Type(TypeShape),
}

/// The signature of the function under the attribute.
#[derive(Debug, Clone)]
pub struct Signature {
    /// Declared `const`.
    pub is_const: bool,
    /// No visibility is written.
    pub inherited_visibility: bool,
    /// An ABI is written.
    pub has_abi: bool,
    /// The parameters, in order.
    pub inputs: Vec<Param>,
    /// The number of generic parameters.
    pub generic_params: usize,
    /// A `where` clause is written.
    pub has_where_clause: bool,
    /// The parameter list ends in `...`.
    pub is_variadic: bool,
    /// The return type.
    pub output: Output,
}

/// Why the attribute refuses a function.
#[derive(Debug, Copy, Clone, PartialEq, Eq, Structural)]
pub enum EntryError {
    /// The function does not have the one accepted signature.
    InvalidSignature,
    /// The attribute was given arguments.
    UnexpectedArguments,
}

/// The length of a generated identifier.
pub const IDENT_LEN: usize = 16;

/// Whether `ty` is the bare path `usize`.
pub open spec fn is_usize(ty: TypeShape) -> bool {
    match ty {
        TypeShape::Path(segments) => segments@.len() == 1 && segments@[0].ident@ == "usize"@
            && !segments@[0].has_arguments,
        _ => false,
    }
}

/// Whether `param` is a typed parameter of type `usize`.
pub open spec fn is_usize_param(param: Param) -> bool {
    match param {
        Param::Typed(ty) => is_usize(ty),
        Param::Receiver => false,
    }
}

/// Whether `output` stands for the unit type.
pub open spec fn is_unit_output(output: Output) -> bool {
    match output {
        Output::Default => true,
        Output::Type(TypeShape::Tuple(n)) => n == 0,
        Output::Type(_) => false,
    }
}

/// The one accepted signature: private, not `const`, no ABI, no generics,
/// not variadic, two `usize` parameters, unit result.
pub open spec fn is_entry_signature(f: Signature) -> bool {
    &&& !f.is_const
    &&& f.inherited_visibility
    &&& !f.has_abi
    &&& f.inputs@.len() == 2
    &&& is_usize_param(f.inputs@[0])
    &&& is_usize_param(f.inputs@[1])
    &&& f.generic_params == 0
    &&& !f.has_where_clause
    &&& !f.is_variadic
    &&& is_unit_output(f.output)
}

/// What the attribute decides: the signature is looked at first, the
/// attribute's own arguments second.
pub open spec fn entry_verdict(args_empty: bool, f: Signature) -> Result<(), EntryError> {
    if !is_entry_signature(f) {
        Err(EntryError::InvalidSignature)
    } else if !args_empty {
        Err(EntryError::UnexpectedArguments)
    } else {
        Ok(())
    }
}

impl EntryError {
    /// The text of the compile error.
    pub fn message(&self) -> (text: &'static str)
        ensures
            *self == EntryError::InvalidSignature ==> text@
                == "`#[opensbi_rt::entry]` function must have signature `fn main(hartid: usize, dtb: usize)`"@,
            *self == EntryError::UnexpectedArguments ==> text@
                == "This attribute accepts no arguments"@,
    {
        match self {
            EntryError::InvalidSignature => {
                "`#[opensbi_rt::entry]` function must have signature `fn main(hartid: usize, dtb: usize)`"
            },
            EntryError::UnexpectedArguments => "This attribute accepts no arguments",
        }
    }
}

impl TypeShape {
    /// Whether this is the bare path `usize`.
    pub fn is_usize(&self) -> (yes: bool)
        ensures
            yes == is_usize(*self),
    {
        match self {
            TypeShape::Path(segments) => {
                if segments.len() != 1 {
                    return false;
                }
                let name = "usize".to_owned();
                segments[0].ident == name && !segments[0].has_arguments
            },
            _ => false,
        }
    }
}

impl Param {
    /// Whether this is a typed parameter of type `usize`.
    pub fn is_usize(&self) -> (yes: bool)
        ensures
            yes == is_usize_param(*self),
    {
        match self {
            Param::Typed(ty) => ty.is_usize(),
            Param::Receiver => false,
        }
    }
}

impl Output {
    /// Whether this stands for the unit type.
    pub fn is_unit(&self) -> (yes: bool)
        ensures
            yes == is_unit_output(*self),
    {
        match self {
            Output::Default => true,
            Output::Type(TypeShape::Tuple(n)) => *n == 0,
            Output::Type(_) => false,
        }
    }
}

impl Signature {
    /// Whether this is the one accepted signature.
    pub fn is_entry(&self) -> (yes: bool)
        ensures
            yes == is_entry_signature(*self),
    {
        let valid_input_types = if self.inputs.len() == 2 {
            let first = self.inputs[0].is_usize();
            let second = self.inputs[1].is_usize();
            first && second
        } else {
            false
        };
        !self.is_const && self.inherited_visibility && !self.has_abi && valid_input_types
            && self.generic_params == 0 && !self.has_where_clause && !self.is_variadic
            && self.output.is_unit()
    }
}

/// Checks a use of the attribute: `args_empty` says whether the attribute
/// stands without arguments, `f` is the function below it.
pub fn check_entry(args_empty: bool, f: &Signature) -> (verdict: Result<(), EntryError>)
    ensures
        verdict == entry_verdict(args_empty, *f),
{
    if !f.is_entry() {
        return Err(EntryError::InvalidSignature);
    }
    if !args_empty {
        return Err(EntryError::UnexpectedArguments);
    }
    Ok(())
}

/// Byte `i` of `word`, counted from the least significant.
pub open spec fn seed_byte(word: u64, i: int) -> u8 {
    ((word >> ((8 * i) as u64)) & 0xff) as u8
}

/// The seed of the generator behind an identifier: the seconds of the clock
/// in the low eight bytes and the count of earlier expansions in the high
/// eight, each with its least significant byte first.
pub open spec fn is_ident_seed(seed: Seq<u8>, secs: u64, count: u64) -> bool {
    &&& seed.len() == 16
    &&& forall|i: int| 0 <= i < 8 ==> seed[i] == seed_byte(secs, i)
    &&& forall|i: int| 0 <= i < 8 ==> seed[8 + i] == seed_byte(count, i)
}

/// Whether `c` is one of the letters `a` to `y`.
pub open spec fn is_ident_letter(c: char) -> bool {
    'a' <= c <= 'y'
}

/// Whether `c` is a decimal digit.
pub open spec fn is_ident_digit(c: char) -> bool {
    '0' <= c <= '9'
}

/// The character that one draw gives: a letter counted from `a`, or a digit
/// counted from `0`. The first character of an identifier is always a
/// letter.
pub open spec fn ident_char_of(first: bool, letter: bool, byte: u8) -> char {
    if first || letter {
        ((97 + byte % 25) as u8) as char
    } else {
        ((48 + byte % 10) as u8) as char
    }
}

/// A generated identifier: sixteen characters, letters `a` to `y` and
/// digits, the first one a letter.
pub open spec fn is_generated_ident(name: Seq<char>) -> bool {
    &&& name.len() == IDENT_LEN
    &&& is_ident_letter(name[0])
    &&& forall|i: int|
        0 <= i < name.len() ==> is_ident_letter(#[trigger] name[i]) || is_ident_digit(name[i])
}

#[verifier::external_type_specification]
#[verifier::external_body]
pub struct ExSmallRng(SmallRng);

/// `SmallRng::from_seed` of `rand`. Nothing is claimed of the generator:
/// which algorithm stands behind it depends on the machine's word size.
#[verifier::external_body]
fn seeded_rng(seed: [u8; 16]) -> (rng: SmallRng) {
    SmallRng::from_seed(seed)
}

/// `Rng::gen::<bool>` of `rand`, on a `SmallRng`. Nothing is claimed of the
/// outcome.
#[verifier::external_body]
fn draw_bool(rng: &mut SmallRng) -> (bit: bool) {
    rng.gen::<bool>()
}

/// `Rng::gen::<u8>` of `rand`, on a `SmallRng`. Nothing is claimed of the
/// outcome.
#[verifier::external_body]
fn draw_byte(rng: &mut SmallRng) -> (byte: u8) {
    rng.gen::<u8>()
}

/// `String::from_iter` of std, on a vector of characters: the string holds
/// them in the same order.
#[verifier::external_body]
fn string_of_chars(chars: Vec<char>) -> (s: String)
    ensures
        s@ == chars@,
{
    String::from_iter(chars)
}

/// Builds the seed from the clock's seconds and the expansion count.
pub fn ident_seed(secs: u64, count: u64) -> (seed: [u8; 16])
    ensures
        is_ident_seed(seed@, secs, count),
{
    let mut seed: [u8; 16] = [0; 16];
    let mut i: usize = 0;
    while i < 8
        invariant
            i <= 8,
            forall|j: int| 0 <= j < i ==> seed@[j] == seed_byte(secs, j),
            forall|j: int| 0 <= j < i ==> seed@[8 + j] == seed_byte(count, j),
        decreases 8 - i,
    {
        let shift: u64 = 8 * (i as u64);
        let low: u64 = (secs >> shift) & 0xff;
        let high: u64 = (count >> shift) & 0xff;
        assert(low <= 0xff && high <= 0xff) by (bit_vector)
            requires
                low == (secs >> shift) & 0xff,
                high == (count >> shift) & 0xff,
        ;
        seed[i] = low as u8;
        seed[i + 8] = high as u8;
        i += 1;
    }
    seed
}

/// Turns one draw into a character of the identifier.
pub fn ident_char(first: bool, letter: bool, byte: u8) -> (c: char)
    ensures
        c == ident_char_of(first, letter, byte),
        is_ident_letter(c) || is_ident_digit(c),
        first ==> is_ident_letter(c),
{
    if first || letter {
        (97u8 + byte % 25) as char
    } else {
        (48u8 + byte % 10) as char
    }
}

/// Creates an identifier that user code cannot name, from the seconds of the
/// clock and the number of expansions made before this one.
pub fn random_ident(secs: u64, count: u64) -> (name: String)
    ensures
        is_generated_ident(name@),
{
    let seed = ident_seed(secs, count);
    let mut rng = seeded_rng(seed);
    let mut chars: Vec<char> = Vec::new();
    let mut i: usize = 0;
    while i < IDENT_LEN
        invariant
            i <= IDENT_LEN,
            chars@.len() == i,
            i > 0 ==> is_ident_letter(chars@[0]),
            forall|j: int|
                0 <= j < i ==> is_ident_letter(#[trigger] chars@[j]) || is_ident_digit(chars@[j]),
        decreases IDENT_LEN - i,
    {
        let letter = if i == 0 {
            true
        } else {
            draw_bool(&mut rng)
        };
        let byte = draw_byte(&mut rng);
        chars.push(ident_char(i == 0, letter, byte));
        i += 1;
    }
    string_of_chars(chars)
}

/// What the attribute makes of a function that it accepts.
#[derive(Debug, Clone)]
pub struct Expansion {
    /// The symbol under which the function is exported.
    pub export_name: &'static str,
    /// The identifier that the function is declared with.
    pub ident: String,
}

/// Applies the attribute: refuses what `check_entry` refuses, and else
/// exports the function as `main` behind a generated identifier.
pub fn entry(args_empty: bool, f: &Signature, secs: u64, count: u64) -> (expansion: Result<
    Expansion,
    EntryError,
>)
    ensures
        expansion.is_ok() <==> entry_verdict(args_empty, *f).is_ok(),
        expansion.is_err() ==> entry_verdict(args_empty, *f) == Err::<(), EntryError>(
            expansion.unwrap_err(),
        ),
        expansion.is_ok() ==> expansion.unwrap().export_name@ == "main"@ && is_generated_ident(
            expansion.unwrap().ident@,
        ),
{
    match check_entry(args_empty, f) {
        Err(e) => Err(e),
        Ok(()) => Ok(Expansion { export_name: "main", ident: random_ident(secs, count) }),
    }
}


} // verus!

use opensbi_rt::entry::{
    check_entry, entry, ident_char, ident_seed, random_ident, EntryError, Output, Param,
    PathSegment, Signature, TypeShape, IDENT_LEN,
};

fn path(names: &[&str]) -> TypeShape {
    TypeShape::Path(
        names.iter().map(|n| PathSegment { ident: n.to_string(), has_arguments: false }).collect(),
    )
}

fn usize_param() -> Param {
    Param::Typed(path(&["usize"]))
}

fn main_signature() -> Signature {
    Signature {
        is_const: false,
        inherited_visibility: true,
        has_abi: false,
        inputs: vec![usize_param(), usize_param()],
        generic_params: 0,
        has_where_clause: false,
        is_variadic: false,
        output: Output::Default,
    }
}

fn refused(f: &Signature) {
    assert_eq!(check_entry(true, f), Err(EntryError::InvalidSignature));
    assert_eq!(check_entry(false, f), Err(EntryError::InvalidSignature));
}

#[test]
fn main_with_two_usize_is_accepted() {
    assert_eq!(check_entry(true, &main_signature()), Ok(()));
    assert!(main_signature().is_entry());
}

#[test]
fn unit_return_type_is_accepted() {
    let mut f = main_signature();
    f.output = Output::Type(TypeShape::Tuple(0));
    assert_eq!(check_entry(true, &f), Ok(()));
}

#[test]
fn other_return_types_are_refused() {
    let mut f = main_signature();
    f.output = Output::Type(TypeShape::Tuple(1));
    refused(&f);
    f.output = Output::Type(path(&["usize"]));
    refused(&f);
    f.output = Output::Type(TypeShape::Other);
    refused(&f);
}

#[test]
fn wrong_number_of_parameters_is_refused() {
    let mut f = main_signature();
    f.inputs = vec![];
    refused(&f);
    f.inputs = vec![usize_param()];
    refused(&f);
    f.inputs = vec![usize_param(), usize_param(), usize_param()];
    refused(&f);
}

#[test]
fn parameter_that_is_not_usize_is_refused() {
    let others: Vec<Param> = vec![
        Param::Receiver,
        Param::Typed(path(&["u64"])),
        Param::Typed(path(&["isize"])),
        Param::Typed(path(&["core", "usize"])),
        Param::Typed(path(&[])),
        Param::Typed(TypeShape::Path(vec![PathSegment {
            ident: "usize".to_string(),
            has_arguments: true,
        }])),
        Param::Typed(TypeShape::Tuple(0)),
        Param::Typed(TypeShape::Other),
    ];
    for other in others {
        assert!(!other.is_usize());
        let mut f = main_signature();
        f.inputs = vec![other.clone(), usize_param()];
        refused(&f);
        f.inputs = vec![usize_param(), other];
        refused(&f);
    }
}

#[test]
fn qualifiers_are_refused() {
    let mut f = main_signature();
    f.is_const = true;
    refused(&f);
    let mut f = main_signature();
    f.inherited_visibility = false;
    refused(&f);
    let mut f = main_signature();
    f.has_abi = true;
    refused(&f);
    let mut f = main_signature();
    f.generic_params = 1;
    refused(&f);
    let mut f = main_signature();
    f.has_where_clause = true;
    refused(&f);
    let mut f = main_signature();
    f.is_variadic = true;
    refused(&f);
}

#[test]
fn attribute_arguments_are_refused() {
    assert_eq!(check_entry(false, &main_signature()), Err(EntryError::UnexpectedArguments));
    assert_eq!(
        entry(false, &main_signature(), 1, 2).unwrap_err(),
        EntryError::UnexpectedArguments
    );
}

#[test]
fn error_messages() {
    assert_eq!(
        EntryError::InvalidSignature.message(),
        "`#[opensbi_rt::entry]` function must have signature `fn main(hartid: usize, dtb: usize)`"
    );
    assert_eq!(EntryError::UnexpectedArguments.message(), "This attribute accepts no arguments");
}

#[test]
fn seed_is_seconds_then_count_low_byte_first() {
    assert_eq!(
        ident_seed(0x0102_0304_0506_0708, 0x1112_1314_1516_1718),
        [
            0x08, 0x07, 0x06, 0x05, 0x04, 0x03, 0x02, 0x01, 0x18, 0x17, 0x16, 0x15, 0x14, 0x13,
            0x12, 0x11
        ]
    );
    assert_eq!(ident_seed(0, 0), [0u8; 16]);
    assert_eq!(
        ident_seed(u64::MAX, 1),
        [255, 255, 255, 255, 255, 255, 255, 255, 1, 0, 0, 0, 0, 0, 0, 0]
    );
}

#[test]
fn draw_becomes_letter_or_digit() {
    assert_eq!(ident_char(false, true, 0), 'a');
    assert_eq!(ident_char(false, true, 24), 'y');
    assert_eq!(ident_char(false, true, 25), 'a');
    assert_eq!(ident_char(false, true, 255), 'f');
    assert_eq!(ident_char(false, false, 0), '0');
    assert_eq!(ident_char(false, false, 9), '9');
    assert_eq!(ident_char(false, false, 10), '0');
    assert_eq!(ident_char(false, false, 255), '5');
    assert_eq!(ident_char(true, false, 3), 'd');
    assert_eq!(ident_char(true, true, 3), 'd');
}

fn assert_generated(name: &str) {
    let chars: Vec<char> = name.chars().collect();
    assert_eq!(chars.len(), IDENT_LEN);
    assert!(('a'..='y').contains(&chars[0]));
    for c in chars {
        assert!(('a'..='y').contains(&c) || c.is_ascii_digit());
    }
}

#[test]
fn random_ident_is_sixteen_letters_and_digits() {
    for secs in [0u64, 1, 1_600_000_000, u64::MAX] {
        for count in [0u64, 1, 2, 1000] {
            assert_generated(&random_ident(secs, count));
        }
    }
}

#[test]
fn random_ident_depends_on_the_seed() {
    let names: Vec<String> = (0u64..8).map(|count| random_ident(1_600_000_000, count)).collect();
    assert_eq!(names[0], random_ident(1_600_000_000, 0));
    let mut distinct = names.clone();
    distinct.sort();
    distinct.dedup();
    assert!(distinct.len() > 1);
}

#[test]
fn entry_exports_main_behind_a_generated_name() {
    let expansion = entry(true, &main_signature(), 1_600_000_000, 3).unwrap();
    assert_eq!(expansion.export_name, "main");
    assert_generated(&expansion.ident);
}

#[test]
fn entry_refuses_a_bad_signature_first() {
    let mut f = main_signature();
    f.is_const = true;
    assert_eq!(entry(false, &f, 0, 0).unwrap_err(), EntryError::InvalidSignature);
    assert_eq!(entry(true, &f, 0, 0).unwrap_err(), EntryError::InvalidSignature);
}

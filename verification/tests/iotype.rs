use rbrew::iotype::literal::is_literal;
use rbrew::iotype::{
    iotype2, tokenize, Accessor, AccessorModule, IoField, IoTypeError, IoTypeItem, Primitive,
    SyntaxError, Token,
};

const VI: &str = "pub type VI: 0xcc002000, 0x100 {
    vtr: mut u16 = 0x00,
    dcr: mut u16 = 0x02,
    htro: mut u32 = 0x04,
    htr1: mut u32 = 0x08,
    vto: mut u32 = 0x0c,
    vte: mut u32 = 0x10,
    bbei: mut u32 = 0x14,
    bboi: mut u32 = 0x18,
    tfbl: mut u32 = 0x1c,
    tfbr: mut u32 = 0x20,
    bfbl: mut u32 = 0x24,
    bfbr: mut u32 = 0x28,
    dpv: const u16 = 0x2c,
    dph: const u16 = 0x2e,
    di0: mut u32 = 0x30,
    di1: mut u32 = 0x34,
    di2: mut u32 = 0x38,
    di3: mut u32 = 0x3c,
    dl0: mut u32 = 0x40,
    dl1: mut u32 = 0x44,
    hsw: mut u16 = 0x48,
    hsr: mut u16 = 0x4a,
    fct0: mut u32 = 0x4c,
    fct1: mut u32 = 0x50,
}";

fn syntax(text: &str) -> SyntaxError {
    match iotype2(text) {
        Err(IoTypeError::Syntax(error)) => error,
        other => panic!("expected a syntax error, got {:?}", other),
    }
}

fn field(ident: &str, writable: bool, primitive: Primitive, offset: u64) -> IoField {
    IoField { ident: ident.to_string(), writable, primitive, offset }
}

/// A block of ordinary memory that stands in for the registers.
struct Memory {
    base: u64,
    bytes: Vec<u8>,
}

impl Memory {
    fn write(&mut self, accessor: &Accessor, value: u64) {
        assert!(accessor.writable);
        let at = (accessor.address - self.base) as usize;
        let width = accessor.primitive.align() as usize;
        self.bytes[at..at + width].copy_from_slice(&value.to_be_bytes()[8 - width..]);
    }

    fn read(&self, accessor: &Accessor) -> u64 {
        let at = (accessor.address - self.base) as usize;
        let width = accessor.primitive.align() as usize;
        let mut value = [0u8; 8];
        value[8 - width..].copy_from_slice(&self.bytes[at..at + width]);
        u64::from_be_bytes(value)
    }
}

#[test]
fn pointer_is_base_plus_offset() {
    let module = iotype2("type T: 0x1000, 0x10 { f: mut u32 = 0x04 }").unwrap();
    assert_eq!(module.base, 0x1000);
    assert_eq!(module.len, 0x10);
    assert_eq!(module.accessors.len(), 1);
    assert_eq!(module.accessors[0].address, 0x1004);
    assert_eq!(module.accessors[0].primitive, Primitive::U32);
    assert!(module.accessors[0].writable);
}

#[test]
fn written_value_is_read_back() {
    let module = iotype2("type T: 0x1000, 0x10 { f: mut u32 = 0x04 }").unwrap();
    let mut memory = Memory { base: module.base, bytes: vec![0; module.len as usize] };
    memory.write(&module.accessors[0], 0xCAFEBABE);
    assert_eq!(memory.read(&module.accessors[0]), 0xCAFEBABE);
    assert_eq!(memory.bytes[4..8].to_vec(), vec![0xCA, 0xFE, 0xBA, 0xBE]);
}

#[test]
fn misaligned_register_is_refused() {
    assert_eq!(
        iotype2("type T: 0x1000, 0x10 { f: mut u32 = 0x02 }"),
        Err(IoTypeError::Alignment { ident: "f".to_string(), offset: 0x02 })
    );
}

#[test]
fn misaligned_base_is_refused() {
    assert_eq!(
        iotype2("type T: 0x1001, 0x10 { a: const u8 = 0x0, f: mut u16 = 0x02 }"),
        Err(IoTypeError::Alignment { ident: "f".to_string(), offset: 0x02 })
    );
    assert!(iotype2("type T: 0x1001, 0x10 { a: const u8 = 0x0, f: mut u16 = 0x03 }").is_ok());
}

#[test]
fn first_misaligned_register_is_named() {
    assert_eq!(
        iotype2("type T: 0, 64 { a: mut u64 = 8, b: mut u64 = 12, c: mut u16 = 1 }"),
        Err(IoTypeError::Alignment { ident: "b".to_string(), offset: 12 })
    );
}

#[test]
fn alignment_goes_by_the_width() {
    for (width, bytes) in [("u8", 1u64), ("u16", 2), ("u32", 4), ("u64", 8)] {
        for offset in 0..16u64 {
            let text = format!("type T: 0x8000, 0x20 {{ r: mut {} = {} }}", width, offset);
            assert_eq!(iotype2(&text).is_ok(), offset % bytes == 0, "{}", text);
        }
    }
}

#[test]
fn register_outside_the_block_is_refused() {
    assert_eq!(
        iotype2("type T: 0x1000, 0x10 { a: mut u32 = 0x0c, b: mut u32 = 0x10 }"),
        Err(IoTypeError::Range { ident: "b".to_string(), offset: 0x10 })
    );
    assert!(iotype2("type T: 0x1000, 0x10 { a: mut u32 = 0x0c }").is_ok());
}

#[test]
fn address_beyond_64_bits_is_refused() {
    assert_eq!(
        iotype2("type T: 0xffff_ffff_ffff_fff8, 0x10 { a: mut u32 = 0x4, b: mut u64 = 0x8 }"),
        Err(IoTypeError::Range { ident: "b".to_string(), offset: 0x8 })
    );
}

#[test]
fn misalignment_comes_before_range() {
    assert_eq!(
        iotype2("type T: 0x1000, 0x10 { a: mut u32 = 0x20, b: mut u32 = 0x02 }"),
        Err(IoTypeError::Alignment { ident: "b".to_string(), offset: 0x02 })
    );
}

#[test]
fn video_interface_compiles() {
    let module = iotype2(VI).unwrap();
    assert!(module.public);
    assert_eq!(module.ident, "VI");
    assert_eq!(module.base, 0xcc002000);
    assert_eq!(module.len, 0x100);
    assert_eq!(module.accessors.len(), 24);
    assert_eq!(
        module.accessors[0],
        Accessor {
            ident: "vtr".to_string(),
            writable: true,
            primitive: Primitive::U16,
            address: 0xcc002000,
        }
    );
    assert_eq!(
        module.accessors[12],
        Accessor {
            ident: "dpv".to_string(),
            writable: false,
            primitive: Primitive::U16,
            address: 0xcc00202c,
        }
    );
    assert_eq!(module.accessors[23].ident, "fct1");
    assert_eq!(module.accessors[23].address, 0xcc002050);
    for accessor in &module.accessors {
        assert_eq!(accessor.address % accessor.primitive.align(), 0);
        assert!(module.base <= accessor.address && accessor.address < module.base + module.len);
    }
}

#[test]
fn operations_are_named_after_the_register() {
    let module = iotype2("type T: 0, 4 { ctl: mut u8 = 1, stat: const u8 = 2 }").unwrap();
    assert_eq!(module.accessors[0].ptr_name(), "ctl_ptr");
    assert_eq!(module.accessors[0].read_name(), "ctl_read");
    assert_eq!(module.accessors[0].write_name(), Some("ctl_write".to_string()));
    assert_eq!(module.accessors[1].ptr_name(), "stat_ptr");
    assert_eq!(module.accessors[1].read_name(), "stat_read");
    assert_eq!(module.accessors[1].write_name(), None);
}

#[test]
fn empty_body_compiles_to_no_accessors() {
    let module = iotype2("type Empty: 0x10, 0x0 {}").unwrap();
    assert_eq!(
        module,
        AccessorModule {
            public: false,
            ident: "Empty".to_string(),
            base: 0x10,
            len: 0,
            accessors: vec![],
        }
    );
}

#[test]
fn comma_after_the_last_register_is_optional() {
    let with = iotype2("type T: 0, 8 { a: mut u32 = 0, b: const u32 = 4, }").unwrap();
    let without = iotype2("type T: 0, 8 { a: mut u32 = 0, b: const u32 = 4 }").unwrap();
    assert_eq!(with, without);
    assert_eq!(with.accessors.len(), 2);
}

#[test]
fn blanks_mean_nothing() {
    let tight = iotype2("type T:0,8{a:mut u32=0,b:const u32=4}").unwrap();
    let loose = iotype2("\n type\tT :\r\n 0 , 8 {\n a : mut u32 = 0 ,\n b : const u32 = 4\n }\n").unwrap();
    assert_eq!(tight, loose);
}

#[test]
fn numbers_are_integer_literals_of_rust() {
    let module = iotype2("type T: 0b1000_0000, 0o100 { a: mut u8 = 0x1F, b: mut u8 = 1_0u32 }")
        .unwrap();
    assert_eq!(module.base, 128);
    assert_eq!(module.len, 64);
    assert_eq!(module.accessors[0].address, 128 + 31);
    assert_eq!(module.accessors[1].address, 128 + 10);
    let module = iotype2("type T: 18446744073709551615, 1 { a: mut u8 = 0 }").unwrap();
    assert_eq!(module.base, u64::MAX);
}

#[test]
fn malformed_number_is_a_syntax_error() {
    assert_eq!(syntax("type T: 0xZZ, 4 {}"), SyntaxError::MalformedNumber);
    assert_eq!(syntax("type T: 0, 4 { a: mut u8 = 0b12 }"), SyntaxError::MalformedNumber);
    assert_eq!(syntax("type T: 18446744073709551616, 4 {}"), SyntaxError::MalformedNumber);
    assert_eq!(syntax("type T: 0x1_0000_0000_0000_0000, 4 {}"), SyntaxError::MalformedNumber);
    assert_eq!(syntax("type T: 0x, 4 {}"), SyntaxError::MalformedNumber);
    assert_eq!(syntax("type T: 1e5, 4 {}"), SyntaxError::MalformedNumber);
}

#[test]
fn missing_mutability_is_a_syntax_error() {
    assert_eq!(syntax("type T: 0, 4 { a: u32 = 0 }"), SyntaxError::MissingMutability);
    assert_eq!(syntax("type T: 0, 4 { a: pub u32 = 0 }"), SyntaxError::MissingMutability);
    assert_eq!(syntax("type T: 0, 4 { a: }"), SyntaxError::MissingMutability);
}

#[test]
fn unknown_width_is_a_syntax_error() {
    assert_eq!(syntax("type T: 0, 4 { a: mut u24 = 0 }"), SyntaxError::UnknownWidth);
    assert_eq!(syntax("type T: 0, 4 { a: mut i32 = 0 }"), SyntaxError::UnknownWidth);
    assert_eq!(syntax("type T: 0, 4 { a: mut 32 = 0 }"), SyntaxError::UnknownWidth);
    assert_eq!(syntax("type T: 0, 4 { a: const = 0 }"), SyntaxError::UnknownWidth);
}

#[test]
fn each_syntax_error_has_its_input() {
    assert_eq!(syntax("type T: 0, 4 { a: mut u8 @ 0 }"), SyntaxError::InvalidCharacter);
    assert_eq!(syntax("type T\u{e9}: 0, 4 {}"), SyntaxError::InvalidCharacter);
    assert_eq!(syntax(""), SyntaxError::ExpectedType);
    assert_eq!(syntax("pub T: 0, 4 {}"), SyntaxError::ExpectedType);
    assert_eq!(syntax("type : 0, 4 {}"), SyntaxError::ExpectedName);
    assert_eq!(syntax("type type: 0, 4 {}"), SyntaxError::ExpectedName);
    assert_eq!(syntax("type T: 0, 4 { 7: mut u8 = 0 }"), SyntaxError::ExpectedName);
    assert_eq!(syntax("type T: 0, 4 { , }"), SyntaxError::ExpectedName);
    assert_eq!(syntax("type T 0, 4 {}"), SyntaxError::ExpectedColon);
    assert_eq!(syntax("type T: 0, 4 { a mut u8 = 0 }"), SyntaxError::ExpectedColon);
    assert_eq!(syntax("type T: x, 4 {}"), SyntaxError::ExpectedNumber);
    assert_eq!(syntax("type T: 0, {}"), SyntaxError::ExpectedNumber);
    assert_eq!(syntax("type T: 0, 4 { a: mut u8 = b }"), SyntaxError::ExpectedNumber);
    assert_eq!(syntax("type T: 0 4 {}"), SyntaxError::ExpectedComma);
    assert_eq!(
        syntax("type T: 0, 4 { a: mut u8 = 0 b: mut u8 = 1 }"),
        SyntaxError::ExpectedComma
    );
    assert_eq!(syntax("type T: 0, 4 { a: mut u8 = 0"), SyntaxError::ExpectedComma);
    assert_eq!(syntax("type T: 0, 4 { a: mut u8 0 }"), SyntaxError::ExpectedEquals);
    assert_eq!(syntax("type T: 0, 4"), SyntaxError::ExpectedOpenBrace);
    assert_eq!(syntax("type T: 0, 4 {"), SyntaxError::ExpectedCloseBrace);
    assert_eq!(syntax("type T: 0, 4 { a: mut u8 = 0,"), SyntaxError::ExpectedCloseBrace);
    assert_eq!(syntax("type T: 0, 4 {} }"), SyntaxError::TrailingInput);
    assert_eq!(syntax("type T: 0, 4 { a: mut u8 = 0 } type"), SyntaxError::TrailingInput);
}

#[test]
fn first_error_wins() {
    assert_eq!(syntax("type T: 0xZZ, 4 { a: mut u8 @ 0 }"), SyntaxError::MalformedNumber);
    assert_eq!(syntax("type T: 0, 4 { a: mut u8 @ 0xZZ }"), SyntaxError::InvalidCharacter);
    assert_eq!(syntax("T: 0, 4 { a: mut u8 = 0xZZ }"), SyntaxError::MalformedNumber);
    assert_eq!(syntax("type T: 0, 4 { a: u24 = 1 "), SyntaxError::MissingMutability);
}

#[test]
fn text_is_cut_into_tokens() {
    assert_eq!(
        tokenize("pub type VI: 0x10, 4 { a_1: mut u16 = 2, b: const u8=0}"),
        Ok(vec![
            Token::Pub,
            Token::Type,
            Token::Ident("VI".to_string()),
            Token::Colon,
            Token::Number(16),
            Token::Comma,
            Token::Number(4),
            Token::OpenBrace,
            Token::Ident("a_1".to_string()),
            Token::Colon,
            Token::Mut,
            Token::Ident("u16".to_string()),
            Token::Equals,
            Token::Number(2),
            Token::Comma,
            Token::Ident("b".to_string()),
            Token::Colon,
            Token::Const,
            Token::Ident("u8".to_string()),
            Token::Equals,
            Token::Number(0),
            Token::CloseBrace,
        ])
    );
    assert_eq!(tokenize(""), Ok(vec![]));
    assert_eq!(tokenize(" \t\r\n"), Ok(vec![]));
    assert_eq!(
        tokenize("mutable _x types"),
        Ok(vec![
            Token::Ident("mutable".to_string()),
            Token::Ident("_x".to_string()),
            Token::Ident("types".to_string()),
        ])
    );
    assert_eq!(tokenize("a;b"), Err(SyntaxError::InvalidCharacter));
    assert_eq!(tokenize("12ab"), Err(SyntaxError::MalformedNumber));
    assert_eq!(tokenize("1x_"), Err(SyntaxError::MalformedNumber));
    assert_eq!(tokenize("08"), Ok(vec![Token::Number(8)]));
    assert_eq!(tokenize("0o8"), Err(SyntaxError::MalformedNumber));
}

#[test]
fn tokens_are_read_as_a_description() {
    let tokens = tokenize("pub type P: 0x20, 0x8 { a: mut u64 = 0, }").unwrap();
    assert_eq!(
        IoTypeItem::parse(&tokens),
        Ok(IoTypeItem {
            public: true,
            ident: "P".to_string(),
            base_adr: 0x20,
            len: 0x8,
            body: vec![field("a", true, Primitive::U64, 0)],
        })
    );
    assert_eq!(
        IoField::parse(&tokens, 8),
        Ok(field("a", true, Primitive::U64, 0))
    );
    assert_eq!(IoField::parse(&tokens, 9), Err(SyntaxError::ExpectedName));
    assert_eq!(IoField::parse(&tokens, 100), Err(SyntaxError::ExpectedName));
    assert_eq!(IoField::parse(&tokens, usize::MAX), Err(SyntaxError::ExpectedName));
}

#[test]
fn description_is_compiled() {
    let item = IoTypeItem {
        public: false,
        ident: "T".to_string(),
        base_adr: 0x1000,
        len: 0x10,
        body: vec![
            field("f", true, Primitive::U32, 0x04),
            field("g", false, Primitive::U8, 0x0f),
        ],
    };
    let module = item.compile().unwrap();
    assert_eq!(module.accessors.len(), 2);
    assert_eq!(module.accessors[0].address, 0x1004);
    assert_eq!(module.accessors[1].address, 0x100f);
    assert_eq!(module.accessors[1].ident, "g");
    assert!(!module.accessors[1].writable);
    assert!(field("f", true, Primitive::U32, 0x04).is_aligned(0x1000));
    assert!(!field("f", true, Primitive::U32, 0x04).is_aligned(0x1001));
    assert!(field("f", true, Primitive::U64, 8).is_aligned(u64::MAX - 7));
    assert_eq!(field("f", true, Primitive::U32, 0x04).address_in(0x1000, 0x10), Some(0x1004));
    assert_eq!(field("f", true, Primitive::U32, 0x10).address_in(0x1000, 0x10), None);
    assert_eq!(field("f", true, Primitive::U8, 1).address_in(u64::MAX, 0x10), None);
}

#[test]
fn widths_have_their_alignment_and_name() {
    assert_eq!(Primitive::U8.align(), 1);
    assert_eq!(Primitive::U16.align(), 2);
    assert_eq!(Primitive::U32.align(), 4);
    assert_eq!(Primitive::U64.align(), 8);
    assert_eq!(Primitive::U8.as_ty(), "u8");
    assert_eq!(Primitive::U16.as_ty(), "u16");
    assert_eq!(Primitive::U32.as_ty(), "u32");
    assert_eq!(Primitive::U64.as_ty(), "u64");
    for primitive in [Primitive::U8, Primitive::U16, Primitive::U32, Primitive::U64] {
        assert_eq!(Primitive::from_name(primitive.as_ty()), Some(primitive));
    }
    assert_eq!(Primitive::from_name("u128"), None);
    assert_eq!(Primitive::from_name(""), None);
}

#[test]
fn odd_numbers_do_not_stop_the_cutting() {
    for text in ["0", "00", "0_", "0x_", "0b", "0o", "1_", "9e", "9e9", "0xe", "0e0", "1f32"] {
        let _ = tokenize(text);
    }
    assert_eq!(tokenize("0xe"), Ok(vec![Token::Number(14)]));
    assert_eq!(tokenize("0_"), Ok(vec![Token::Number(0)]));
    assert_eq!(tokenize("0x_"), Err(SyntaxError::MalformedNumber));
    assert_eq!(tokenize("0b"), Err(SyntaxError::MalformedNumber));
    assert_eq!(tokenize("9e9"), Err(SyntaxError::MalformedNumber));
    assert_eq!(tokenize("1f32"), Err(SyntaxError::MalformedNumber));
    let long = "9".repeat(5000);
    assert_eq!(tokenize(&long), Err(SyntaxError::MalformedNumber));
    let zeros = "0".repeat(5000) + "7";
    assert_eq!(tokenize(&zeros), Ok(vec![Token::Number(7)]));
}

#[test]
fn integer_literals_have_their_value() {
    let worth: [(&str, u64); 30] = [
        ("0", 0),
        ("7", 7),
        ("08", 8),
        ("1_000", 1000),
        ("1___", 1),
        ("4096u64", 4096),
        ("300u8", 300),
        ("12i8", 12),
        ("5usize", 5),
        ("5isize", 5),
        ("1_u128", 1),
        ("9i128", 9),
        ("3u16", 3),
        ("3i16", 3),
        ("3u32", 3),
        ("3i32", 3),
        ("3i64", 3),
        ("0x10", 16),
        ("0xcafe_BABE", 0xcafe_babe),
        ("0x_1", 1),
        ("0xe8", 0xe8),
        ("0x1f32", 0x1f32),
        ("0xFFusize", 255),
        ("0xfi8", 15),
        ("0o17", 15),
        ("0o_7_7u8", 63),
        ("0b101", 5),
        ("0b_1i128", 1),
        ("0xffff_ffff_ffff_ffff", u64::MAX),
        ("18446744073709551615u8", u64::MAX),
    ];
    for (text, value) in worth {
        assert!(is_literal(text), "{}", text);
        assert_eq!(tokenize(text), Ok(vec![Token::Number(value)]), "{}", text);
    }
}

#[test]
fn words_that_are_no_integer_literals_are_no_numbers() {
    let none = [
        "0x", "0o", "0b", "0x_", "0b__", "0b2", "0b12", "0o8", "0o78", "0xg", "0X10", "0B1", "1a",
        "1e5", "9e", "0b1e5", "1f32", "1f64", "1u", "1u7", "1U8", "1u8u8", "1_u", "12ab", "0xu8",
        "1i", "0bu8",
    ];
    for text in none {
        assert!(!is_literal(text), "{}", text);
        assert_eq!(tokenize(text), Err(SyntaxError::MalformedNumber), "{}", text);
    }
    for text in ["18446744073709551616", "0x1_0000_0000_0000_0000", "0o2000000000000000000000"] {
        assert!(is_literal(text), "{}", text);
        assert_eq!(tokenize(text), Err(SyntaxError::MalformedNumber), "{}", text);
    }
}

#[test]
fn words_that_rust_keeps_are_no_names() {
    let kept = [
        "_", "abstract", "as", "async", "await", "become", "box", "break", "continue", "crate",
        "do", "dyn", "else", "enum", "extern", "false", "final", "fn", "for", "if", "impl", "in",
        "let", "loop", "macro", "match", "mod", "move", "override", "priv", "ref", "return",
        "Self", "self", "static", "struct", "super", "trait", "true", "try", "typeof", "unsafe",
        "unsized", "use", "virtual", "where", "while", "yield",
    ];
    assert_eq!(kept.len(), 48);
    for word in kept {
        assert_eq!(tokenize(word), Ok(vec![Token::Reserved]), "{}", word);
        let text = format!("type T: 0, 4 {{ {}: mut u8 = 0 }}", word);
        assert_eq!(syntax(&text), SyntaxError::ExpectedName, "{}", text);
        let text = format!("type {}: 0, 4 {{}}", word);
        assert_eq!(syntax(&text), SyntaxError::ExpectedName, "{}", text);
        let text = format!("type T: 0, 4 {{ a: mut {} = 0 }}", word);
        assert_eq!(syntax(&text), SyntaxError::UnknownWidth, "{}", text);
        let text = format!("type T: 0, 4 {{ a: {} u8 = 0 }}", word);
        assert_eq!(syntax(&text), SyntaxError::MissingMutability, "{}", text);
    }
    for word in ["pub", "type", "mut", "const"] {
        let text = format!("type T: 0, 4 {{ {}: mut u8 = 0 }}", word);
        assert_eq!(syntax(&text), SyntaxError::ExpectedName, "{}", text);
    }
    for word in ["__", "_a", "r", "gen", "union", "Fn", "selfish", "u8", "i32", "usize", "raw"] {
        assert_eq!(tokenize(word), Ok(vec![Token::Ident(word.to_string())]), "{}", word);
        let text = format!("type T: 0, 4 {{ {}: mut u8 = 0 }}", word);
        assert!(iotype2(&text).is_ok(), "{}", text);
    }
}

use spirv_front::decoration::Decoration;
use spirv_front::error::{Error, Instruction, ModuleState};
use spirv_front::ir::{Binding, ConstantInner, Expression, ScalarKind, Storage, Token, VectorSize};
use spirv_front::state::{lookup, Parser};
use spirv_front::types::{map_storage_class, map_vector_size};
use spirv_front::values::{
    join_words, low_word_of_signed, low_word_of_unsigned, to_signed_32, to_signed_64, widen,
};
use spirv_front::words::{
    BuiltIn, Capability, Dim, ExecutionModel, FunctionControl, Op, StorageClass,
};
use std::collections::HashMap;

#[test]
fn expect_exact_count() {
    let inst = Instruction { op: Op::TypeInt, wc: 4 };
    assert_eq!(inst.expect(4), Ok(()));
    assert_eq!(inst.expect(3), Err(Error::InvalidOperandCount(Op::TypeInt, 4)));
    assert_eq!(inst.expect(5), Err(Error::InvalidOperandCount(Op::TypeInt, 4)));
}

#[test]
fn expect_at_least_count() {
    let inst = Instruction { op: Op::Name, wc: 4 };
    assert_eq!(inst.expect_at_least(4), Ok(()));
    assert_eq!(inst.expect_at_least(0), Ok(()));
    assert_eq!(inst.expect_at_least(5), Err(Error::InvalidOperandCount(Op::Name, 4)));
}

#[test]
fn vector_sizes() {
    assert_eq!(map_vector_size(2), Ok(VectorSize::Bi));
    assert_eq!(map_vector_size(3), Ok(VectorSize::Tri));
    assert_eq!(map_vector_size(4), Ok(VectorSize::Quad));
    assert_eq!(map_vector_size(0), Err(Error::InvalidVectorSize(0)));
    assert_eq!(map_vector_size(1), Err(Error::InvalidVectorSize(1)));
    assert_eq!(map_vector_size(5), Err(Error::InvalidVectorSize(5)));
}

#[test]
fn storage_classes() {
    assert_eq!(map_storage_class(0), Ok(StorageClass::UniformConstant));
    assert_eq!(map_storage_class(1), Ok(StorageClass::Input));
    assert_eq!(map_storage_class(2), Ok(StorageClass::Uniform));
    assert_eq!(map_storage_class(3), Ok(StorageClass::Output));
    assert_eq!(map_storage_class(6), Ok(StorageClass::Private));
    assert_eq!(map_storage_class(7), Ok(StorageClass::Function));
    assert_eq!(map_storage_class(9), Ok(StorageClass::PushConstant));
    assert_eq!(map_storage_class(12), Ok(StorageClass::StorageBuffer));
    assert_eq!(map_storage_class(13), Err(Error::UnsupportedStorageClass(13)));
    assert_eq!(map_storage_class(u32::MAX), Err(Error::UnsupportedStorageClass(u32::MAX)));
}

#[test]
fn dense_enumerations() {
    assert_eq!(ExecutionModel::from_word(0), Some(ExecutionModel::Vertex));
    assert_eq!(ExecutionModel::from_word(4), Some(ExecutionModel::Fragment));
    assert_eq!(ExecutionModel::from_word(5), Some(ExecutionModel::GLCompute));
    assert_eq!(ExecutionModel::from_word(6), Some(ExecutionModel::Kernel));
    assert_eq!(ExecutionModel::from_word(7), None);
    assert_eq!(Dim::from_word(0), Some(Dim::Dim1D));
    assert_eq!(Dim::from_word(3), Some(Dim::DimCube));
    assert_eq!(Dim::from_word(6), Some(Dim::DimSubpassData));
    assert_eq!(Dim::from_word(7), None);
}

#[test]
fn function_control_bits() {
    assert_eq!(FunctionControl::from_bits(0), Some(FunctionControl { bits: 0 }));
    assert_eq!(FunctionControl::from_bits(15), Some(FunctionControl { bits: 15 }));
    assert_eq!(FunctionControl::from_bits(16), None);
    assert_eq!(FunctionControl::from_bits(0x8000_0001), None);
}

#[test]
fn opcodes_round_trip() {
    for code in 0..=u16::MAX {
        let op = Op::from_code(code);
        assert_eq!(op.to_code(), code);
    }
    assert_eq!(Op::from_code(17), Op::Capability);
    assert_eq!(Op::from_code(65), Op::AccessChain);
    assert_eq!(Op::from_code(248), Op::Label);
    assert_eq!(Op::from_code(253), Op::Return);
    assert_eq!(Op::from_code(20), Op::Other(20));
    assert_eq!(Op::MatrixTimesVector.to_code(), 145);
}

#[test]
fn capabilities_round_trip() {
    for code in 0..6000u32 {
        assert_eq!(Capability::from_code(code).to_code(), code);
    }
    assert_eq!(Capability::from_code(1), Capability::Shader);
    assert_eq!(Capability::from_code(6), Capability::Kernel);
    assert_eq!(Capability::from_code(7), Capability::Other(7));
}

#[test]
fn phases_are_ordered() {
    let phases = [
        ModuleState::Empty,
        ModuleState::Capability,
        ModuleState::Extension,
        ModuleState::ExtInstImport,
        ModuleState::MemoryModel,
        ModuleState::EntryPoint,
        ModuleState::ExecutionMode,
        ModuleState::Source,
        ModuleState::Name,
        ModuleState::ModuleProcessed,
        ModuleState::Annotation,
        ModuleState::Type,
        ModuleState::Function,
    ];
    for (i, phase) in phases.iter().enumerate() {
        assert_eq!(phase.index() as usize, i);
    }
    for pair in phases.windows(2) {
        assert!(pair[0] < pair[1]);
    }
}

#[test]
fn switch_never_goes_back() {
    let mut parser = Parser::new(vec![]);
    assert_eq!(parser.state(), ModuleState::Empty);
    assert_eq!(parser.switch(ModuleState::Name, Op::Name), Ok(()));
    assert_eq!(parser.state(), ModuleState::Name);
    assert_eq!(parser.switch(ModuleState::Name, Op::MemberName), Ok(()));
    assert_eq!(
        parser.switch(ModuleState::Source, Op::Source),
        Err(Error::UnsupportedInstruction(ModuleState::Name, Op::Source))
    );
    assert_eq!(parser.state(), ModuleState::Name);
    assert_eq!(parser.switch(ModuleState::Function, Op::Function), Ok(()));
    assert_eq!(
        parser.switch(ModuleState::Type, Op::TypeVoid),
        Err(Error::UnsupportedInstruction(ModuleState::Function, Op::TypeVoid))
    );
}

#[test]
fn words_come_in_order() {
    let mut parser = Parser::new(vec![5, 6]);
    assert_eq!(parser.remaining(), 2);
    assert_eq!(parser.next(), Ok(5));
    assert_eq!(parser.next(), Ok(6));
    assert_eq!(parser.remaining(), 0);
    assert_eq!(parser.next(), Err(Error::IncompleteData));
    assert_eq!(parser.next(), Err(Error::IncompleteData));
}

#[test]
fn instruction_headers() {
    let mut parser = Parser::new(vec![0x0004_0015, 0xFFFF_0000 | 5633, 0x0000_0015, 0x0001_1602]);
    assert_eq!(parser.next_inst(), Ok(Instruction { op: Op::TypeInt, wc: 4 }));
    assert_eq!(parser.next_inst(), Ok(Instruction { op: Op::Other(5633), wc: 0xFFFF }));
    assert_eq!(parser.next_inst(), Err(Error::InvalidWordCount));
    assert_eq!(parser.next_inst(), Err(Error::UnknownInstruction(5634)));
    assert_eq!(parser.next_inst(), Err(Error::IncompleteData));
}

#[test]
fn strings_end_at_the_first_zero_byte() {
    // "abcd" "ef\0x" and one word more
    let mut parser = Parser::new(vec![0x6463_6261, 0x7800_6665, 9]);
    assert_eq!(parser.next_string(3), Ok(("abcdef".to_string(), 1)));
    assert_eq!(parser.next(), Ok(9));
    // the end in the first byte of a word
    let mut parser = Parser::new(vec![0x6463_6261, 0xFFFF_FF00]);
    assert_eq!(parser.next_string(2), Ok(("abcd".to_string(), 0)));
    let mut parser = Parser::new(vec![0]);
    assert_eq!(parser.next_string(9), Ok((String::new(), 8)));
    // the end in the last byte
    let mut parser = Parser::new(vec![0x0063_6261]);
    assert_eq!(parser.next_string(1), Ok(("abc".to_string(), 0)));
}

#[test]
fn strings_are_utf8() {
    // e with acute accent, the euro sign, and a musical symbol of four bytes
    let text = "\u{e9}\u{20ac}\u{1d11e}!";
    let mut bytes = text.as_bytes().to_vec();
    bytes.push(0);
    while bytes.len() % 4 != 0 {
        bytes.push(0);
    }
    let words: Vec<u32> =
        bytes.chunks(4).map(|c| u32::from_le_bytes([c[0], c[1], c[2], c[3]])).collect();
    let count = words.len() as u16;
    let mut parser = Parser::new(words);
    let (read, left) = parser.next_string(count).unwrap();
    assert_eq!(read, text);
    assert_eq!(read.chars().count(), 4);
    assert_eq!(left, 0);
}

#[test]
fn strings_that_are_none() {
    assert_eq!(Parser::new(vec![0x6463_6261]).next_string(0), Err(Error::BadString));
    assert_eq!(Parser::new(vec![0x6463_6261, 0]).next_string(1), Err(Error::BadString));
    assert_eq!(Parser::new(vec![0x6463_6261]).next_string(2), Err(Error::IncompleteData));
    assert_eq!(Parser::new(vec![]).next_string(1), Err(Error::IncompleteData));
    assert_eq!(Parser::new(vec![0x0000_00ff]).next_string(1), Err(Error::BadString));
    // an overlong encoding and a surrogate
    assert_eq!(Parser::new(vec![0x0000_80c0]).next_string(1), Err(Error::BadString));
    assert_eq!(Parser::new(vec![0x0080_a0ed]).next_string(1), Err(Error::BadString));
}

#[test]
fn decorations_read_one_by_one() {
    let mut dec = Decoration::default();
    let inst = Instruction { op: Op::Decorate, wc: 4 };
    let mut parser = Parser::new(vec![30, 5, 34, 1, 33, 2, 11, 3]);
    assert_eq!(parser.next_decoration(inst, 2, &mut dec), Ok(()));
    assert_eq!(dec.location, Some(5));
    assert_eq!(dec.get_binding(), Some(Binding::Location(5)));
    assert_eq!(parser.next_decoration(inst, 2, &mut dec), Ok(()));
    assert_eq!(parser.next_decoration(inst, 2, &mut dec), Ok(()));
    assert_eq!(parser.next_decoration(inst, 2, &mut dec), Ok(()));
    assert_eq!(
        dec,
        Decoration {
            name: None,
            built_in: Some(BuiltIn { word: 3 }),
            location: Some(5),
            desc_set: Some(1),
            desc_index: Some(2),
        }
    );
    assert_eq!(dec.get_binding(), None);
    assert_eq!(parser.remaining(), 0);
    // with three words before the decoration the instruction has five
    let mut parser = Parser::new(vec![30, 5]);
    assert_eq!(
        parser.next_decoration(inst, 3, &mut dec),
        Err(Error::InvalidOperandCount(Op::Decorate, 4))
    );
    // a decoration that is not acted on is passed over with its operands
    let long = Instruction { op: Op::Decorate, wc: 6 };
    let mut parser = Parser::new(vec![44, 1, 2, 3, 4]);
    let before = Decoration::default();
    let mut dec = Decoration::default();
    assert_eq!(parser.next_decoration(long, 2, &mut dec), Ok(()));
    assert_eq!(dec, before);
    assert_eq!(parser.next(), Ok(4));
    let mut parser = Parser::new(vec![44, 1, 2]);
    assert_eq!(parser.next_decoration(long, 2, &mut dec), Err(Error::IncompleteData));
}

#[test]
fn bindings_of_decorations() {
    let none = Decoration::default();
    assert_eq!(none.get_binding(), None);
    let built_in =
        Decoration { built_in: Some(BuiltIn { word: 15 }), ..Decoration::default() };
    assert_eq!(built_in.get_binding(), Some(Binding::BuiltIn(BuiltIn { word: 15 })));
    let location = Decoration {
        name: Some("n".to_string()),
        location: Some(4),
        ..Decoration::default()
    };
    assert_eq!(location.get_binding(), Some(Binding::Location(4)));
    let descriptor =
        Decoration { desc_set: Some(1), desc_index: Some(2), ..Decoration::default() };
    assert_eq!(descriptor.get_binding(), Some(Binding::Descriptor { set: 1, binding: 2 }));
    let set_alone = Decoration { desc_set: Some(1), ..Decoration::default() };
    assert_eq!(set_alone.get_binding(), None);
    let index_alone = Decoration { desc_index: Some(1), ..Decoration::default() };
    assert_eq!(index_alone.get_binding(), None);
    let two = Decoration {
        built_in: Some(BuiltIn { word: 0 }),
        location: Some(0),
        ..Decoration::default()
    };
    assert_eq!(two.get_binding(), None);
    let location_and_set =
        Decoration { location: Some(0), desc_set: Some(0), ..Decoration::default() };
    assert_eq!(location_and_set.get_binding(), None);
}

#[test]
fn lookup_in_a_table() {
    let mut table: HashMap<u32, u8> = HashMap::new();
    assert_eq!(lookup(&table, 3), Err(Error::InvalidId(3)));
    table.insert(3, 7);
    table.insert(4, 8);
    assert_eq!(lookup(&table, 3), Ok(&7));
    assert_eq!(lookup(&table, 4), Ok(&8));
    table.insert(3, 9);
    assert_eq!(lookup(&table, 3), Ok(&9));
    assert_eq!(lookup(&table, 5), Err(Error::InvalidId(5)));
}

#[test]
fn storage_appends_and_hands_out_handles() {
    let mut store: Storage<Expression> = Storage::new();
    assert_eq!(store.len(), 0);
    let a = store.append(Expression::Constant(Token::new(4)));
    let b = store.append(Expression::Load { pointer: a });
    assert_eq!(a, Token::new(0));
    assert_eq!(b.index, 1);
    assert_eq!(store.len(), 2);
    assert_eq!(*store.get(a), Expression::Constant(Token::new(4)));
    assert_eq!(*store.get(b), Expression::Load { pointer: Token::new(0) });
    let copy = b;
    assert_eq!(copy.clone(), b);
}

#[test]
fn two_words_make_one_value() {
    assert_eq!(join_words(0x89ab_cdef, 0x0123_4567), 0x0123_4567_89ab_cdef);
    assert_eq!(join_words(u32::MAX, 0), 0xFFFF_FFFF);
    assert_eq!(join_words(0, u32::MAX), 0xFFFF_FFFF_0000_0000);
    assert_eq!(join_words(u32::MAX, u32::MAX), u64::MAX);
}

#[test]
fn signed_values() {
    assert_eq!(to_signed_32(0), 0);
    assert_eq!(to_signed_32(5), 5);
    assert_eq!(to_signed_32(0x7FFF_FFFF), i32::MAX as i64);
    assert_eq!(to_signed_32(0x8000_0000), i32::MIN as i64);
    assert_eq!(to_signed_32(0xFFFF_FFFF), -1);
    assert_eq!(to_signed_32(0xFFFF_FFD6), -42);
    assert_eq!(to_signed_64(0), 0);
    assert_eq!(to_signed_64(0x7FFF_FFFF_FFFF_FFFF), i64::MAX);
    assert_eq!(to_signed_64(0x8000_0000_0000_0000), i64::MIN);
    assert_eq!(to_signed_64(u64::MAX), -1);
    for bits in [1u64, 0x1234_5678_9abc_def0, 0xfedc_ba98_7654_3210, 0x8000_0000_0000_0001] {
        assert_eq!(to_signed_64(bits), bits as i64);
    }
    for bits in [1u32, 0x1234_5678, 0xfedc_ba98, 0x8000_0001] {
        assert_eq!(to_signed_32(bits), bits as i32 as i64);
    }
}

#[test]
fn low_words() {
    assert_eq!(low_word_of_unsigned(0x0123_4567_89ab_cdef), 0x89ab_cdef);
    assert_eq!(low_word_of_unsigned(7), 7);
    assert_eq!(low_word_of_signed(7), 7);
    assert_eq!(low_word_of_signed(-1), 0xFFFF_FFFF);
    assert_eq!(low_word_of_signed(-42), 0xFFFF_FFD6);
    assert_eq!(low_word_of_signed(i64::MIN), 0);
    assert_eq!(low_word_of_signed(i64::MAX), 0xFFFF_FFFF);
    for value in [0i64, 1, -2, 0x1_0000_0000, -0x1_0000_0001, 0x1234_5678_9abc_def0] {
        assert_eq!(low_word_of_signed(value), value as u32);
    }
}

#[test]
fn widening_is_exact() {
    assert_eq!(widen(0), 0);
    assert_eq!(widen(0x8000_0000), 0x8000_0000_0000_0000);
    assert_eq!(widen(0x3f80_0000), 0x3ff0_0000_0000_0000);
    assert_eq!(widen(0x3fc0_0000), 0x3ff8_0000_0000_0000);
    assert_eq!(widen(0xc020_0000), 0xc004_0000_0000_0000);
    assert_eq!(widen(0x7f80_0000), 0x7ff0_0000_0000_0000);
    assert_eq!(widen(0xff80_0000), 0xfff0_0000_0000_0000);
    // the smallest subnormal, 2^-149, and the largest
    assert_eq!(widen(1), 0x36a0_0000_0000_0000);
    assert_eq!(widen(0x007f_ffff), 0x380f_ffff_c000_0000);
    assert_eq!(widen(0x0080_0000), 0x3810_0000_0000_0000);
    assert_eq!(widen(0x7f7f_ffff), 0x47ef_ffff_e000_0000);
    // a NaN stays one and comes out quiet
    assert_eq!(widen(0x7fc0_0000), 0x7ff8_0000_0000_0000);
    assert_eq!(widen(0x7f80_0001), 0x7ff8_0000_2000_0000);
}

#[test]
fn widening_agrees_with_the_machine() {
    let mut bits: u32 = 0;
    loop {
        let single = f32::from_bits(bits);
        let wide = f64::from_bits(widen(bits));
        if single.is_nan() {
            assert!(wide.is_nan());
            assert_eq!(wide.is_sign_negative(), single.is_sign_negative());
        } else {
            assert_eq!(widen(bits), (single as f64).to_bits());
            assert_eq!(wide as f32, single);
        }
        match bits.checked_add(65_521) {
            Some(next) => bits = next,
            None => break,
        }
    }
    for bits in 0..0x1000u32 {
        assert_eq!(widen(bits), (f32::from_bits(bits) as f64).to_bits());
        let top = 0x0080_0000 - 1 - bits;
        assert_eq!(widen(top), (f32::from_bits(top) as f64).to_bits());
        let negative = 0x8000_0000 | (bits << 11);
        assert_eq!(widen(negative), (f32::from_bits(negative) as f64).to_bits());
    }
    for value in [1.0f32, -1.0, 0.1, 3.1415927, f32::MAX, f32::MIN, f32::MIN_POSITIVE, f32::EPSILON]
    {
        assert_eq!(f64::from_bits(widen(value.to_bits())), value as f64);
    }
}

#[test]
fn literals_by_kind_and_width() {
    let inst = Instruction { op: Op::Constant, wc: 4 };
    let read = |words: Vec<u32>, kind, width| Parser::new(words).next_literal(inst, kind, width);
    assert_eq!(read(vec![0xFFFF_FFFF], ScalarKind::Uint, 32), Ok(ConstantInner::Uint(0xFFFF_FFFF)));
    assert_eq!(read(vec![0xFFFF_FFFF], ScalarKind::Sint, 32), Ok(ConstantInner::Sint(-1)));
    assert_eq!(read(vec![5], ScalarKind::Sint, 32), Ok(ConstantInner::Sint(5)));
    assert_eq!(
        read(vec![0x4048_f5c3], ScalarKind::Float, 32),
        Ok(ConstantInner::Float((3.14f32 as f64).to_bits()))
    );
    assert_eq!(
        read(vec![2, 1], ScalarKind::Uint, 64),
        Ok(ConstantInner::Uint(0x1_0000_0002))
    );
    assert_eq!(
        read(vec![0xFFFF_FFFE, 0xFFFF_FFFF], ScalarKind::Sint, 64),
        Ok(ConstantInner::Sint(-2))
    );
    assert_eq!(
        read(vec![0x5444_2d18, 0x4009_21fb], ScalarKind::Float, 64),
        Ok(ConstantInner::Float(std::f64::consts::PI.to_bits()))
    );
    assert_eq!(read(vec![1], ScalarKind::Uint, 64), Err(Error::IncompleteData));
    assert_eq!(read(vec![], ScalarKind::Uint, 8), Err(Error::IncompleteData));
    assert_eq!(read(vec![1], ScalarKind::Sint, 31), Err(Error::InvalidTypeWidth(31)));
    assert_eq!(read(vec![1], ScalarKind::Float, 16), Err(Error::InvalidTypeWidth(16)));
    let five = Instruction { op: Op::SpecConstant, wc: 5 };
    assert_eq!(
        Parser::new(vec![1, 2]).next_literal(five, ScalarKind::Uint, 33),
        Err(Error::InvalidOperandCount(Op::SpecConstant, 5))
    );
}

#[test]
fn a_header_that_is_none_is_read_all_the_same() {
    let mut parser = Parser::new(vec![17, 0x0001_FFFF, 9]);
    assert_eq!(parser.next_inst(), Err(Error::InvalidWordCount));
    assert_eq!(parser.remaining(), 2);
    assert_eq!(parser.next_inst(), Err(Error::UnknownInstruction(0xFFFF)));
    assert_eq!(parser.remaining(), 1);
    assert_eq!(parser.next(), Ok(9));
    // where no word is left, nothing changes
    assert_eq!(parser.switch(ModuleState::Name, Op::Name), Ok(()));
    assert_eq!(parser.next_inst(), Err(Error::IncompleteData));
    assert_eq!(parser.remaining(), 0);
    assert_eq!(parser.state(), ModuleState::Name);
    assert_eq!(parser.next_inst(), Err(Error::IncompleteData));
}

#[test]
fn a_string_reads_no_word_beyond_its_count() {
    // the one word that the string may span holds no zero byte
    let mut parser = Parser::new(vec![0x4141_4141, 0x0000_0000]);
    assert_eq!(parser.next_string(1), Err(Error::BadString));
    assert_eq!(parser.remaining(), 1);
    assert_eq!(parser.next(), Ok(0));
    // a string of no words reads none
    let mut parser = Parser::new(vec![0x4141_4141, 0]);
    assert_eq!(parser.next_string(0), Err(Error::BadString));
    assert_eq!(parser.remaining(), 2);
    // the words end before the count does
    let mut parser = Parser::new(vec![0x4141_4141, 0x4242_4242]);
    assert_eq!(parser.next_string(5), Err(Error::IncompleteData));
    assert_eq!(parser.remaining(), 0);
    // bytes that are no text are read up to their end
    let mut parser = Parser::new(vec![0x4141_4141, 0x0000_00ff, 7]);
    assert_eq!(parser.next_string(3), Err(Error::BadString));
    assert_eq!(parser.next(), Ok(7));
}

#[test]
fn a_failed_decoration_leaves_the_record() {
    let kept = || Decoration {
        name: Some("n".to_string()),
        built_in: None,
        location: Some(1),
        desc_set: None,
        desc_index: None,
    };
    let inst = Instruction { op: Op::Decorate, wc: 4 };
    // a decoration beyond the last known one: its word is read, no other
    let mut dec = kept();
    let mut parser = Parser::new(vec![5301, 8, 9]);
    assert_eq!(parser.next_decoration(inst, 2, &mut dec), Err(Error::InvalidDecoration(5301)));
    assert_eq!(dec, kept());
    assert_eq!(parser.remaining(), 2);
    // a location in an instruction of the wrong length
    for wc in [3u16, 5] {
        let wrong = Instruction { op: Op::Decorate, wc };
        let mut parser = Parser::new(vec![30, 8, 9]);
        assert_eq!(
            parser.next_decoration(wrong, 2, &mut dec),
            Err(Error::InvalidOperandCount(Op::Decorate, wc))
        );
        assert_eq!(dec, kept());
        assert_eq!(parser.remaining(), 2);
    }
    // the operand is missing
    let mut parser = Parser::new(vec![34]);
    assert_eq!(parser.next_decoration(inst, 2, &mut dec), Err(Error::IncompleteData));
    assert_eq!(dec, kept());
    assert_eq!(parser.remaining(), 0);
    // no word at all
    let mut parser = Parser::new(vec![]);
    assert_eq!(parser.next_decoration(inst, 2, &mut dec), Err(Error::IncompleteData));
    assert_eq!(dec, kept());
}

#[test]
fn a_failed_literal_reads_one_word() {
    let inst = Instruction { op: Op::Constant, wc: 5 };
    let mut parser = Parser::new(vec![1, 2, 3]);
    assert_eq!(
        parser.next_literal(inst, ScalarKind::Uint, 64),
        Err(Error::InvalidOperandCount(Op::Constant, 5))
    );
    assert_eq!(parser.remaining(), 2);
    assert_eq!(parser.next_literal(inst, ScalarKind::Sint, 8), Err(Error::InvalidTypeWidth(8)));
    assert_eq!(parser.remaining(), 1);
}

use spirv_front::error::{Error, ModuleState};
use spirv_front::ir::{Module, Token};
use spirv_front::parse::parse_u8_slice;
use spirv_front::state::Parser;
use spirv_front::words::{Capability, Op, StorageClass};

const MAGIC: u32 = 0x0723_0203;

fn op(op: u32, operands: &[u32]) -> Vec<u32> {
    let mut words = vec![((operands.len() as u32 + 1) << 16) | op];
    words.extend_from_slice(operands);
    words
}

fn named(code: u32, before: &[u32], s: &str, after: &[u32]) -> Vec<u32> {
    let mut bytes = s.as_bytes().to_vec();
    bytes.push(0);
    while bytes.len() % 4 != 0 {
        bytes.push(0);
    }
    let mut operands = before.to_vec();
    operands.extend(bytes.chunks(4).map(|c| u32::from_le_bytes([c[0], c[1], c[2], c[3]])));
    operands.extend_from_slice(after);
    op(code, &operands)
}

fn run(parts: &[Vec<u32>]) -> Result<Module, Error> {
    let mut words = vec![MAGIC, 0x0001_0000, 0, 0, 0];
    for part in parts {
        words.extend_from_slice(part);
    }
    Parser::new(words).parse()
}

fn fails(parts: &[Vec<u32>]) -> Error {
    run(parts).unwrap_err()
}

/// A function of no parameters around the given instructions of one block.
/// Ids: 1 uint, 2 float, 3 vec4 of float, 4 struct { float, vec4 }, 5 pointer to 4,
/// 6 pointer to float, 7 the struct variable, 8 the float variable, 9 constant 1 of uint,
/// 10 constant 7 of uint, 11 constant 1.5 of float, 12 pointer to uint, 13 a uint variable,
/// 14 void, 15 the function's type.
fn in_function(body: &[Vec<u32>]) -> Vec<Vec<u32>> {
    let mut parts = vec![
        op(71, &[7, 30, 0]),
        op(71, &[8, 30, 1]),
        op(71, &[13, 30, 2]),
        op(21, &[1, 32, 0]),
        op(22, &[2, 32]),
        op(23, &[3, 2, 4]),
        op(30, &[4, 2, 3]),
        op(32, &[5, 6, 4]),
        op(32, &[6, 6, 2]),
        op(59, &[5, 7, 6]),
        op(59, &[6, 8, 6]),
        op(43, &[1, 9, 1]),
        op(43, &[1, 10, 7]),
        op(43, &[2, 11, 0x3fc0_0000]),
        op(32, &[12, 6, 1]),
        op(59, &[12, 13, 6]),
        op(19, &[14]),
        op(33, &[15, 14]),
        op(54, &[14, 20, 0, 15]),
        op(248, &[21]),
    ];
    parts.extend_from_slice(body);
    parts.push(op(253, &[]));
    parts.push(op(56, &[]));
    parts
}

#[test]
fn invalid_header() {
    assert_eq!(Parser::new(vec![0x0723_0204, 0, 0, 0, 0]).parse(), Err(Error::InvalidHeader));
    // the magic number is looked at before the rest is asked for
    assert_eq!(Parser::new(vec![7]).parse(), Err(Error::InvalidHeader));
}

#[test]
fn incomplete_data() {
    assert_eq!(Parser::new(vec![]).parse(), Err(Error::IncompleteData));
    assert_eq!(Parser::new(vec![MAGIC, 0, 0, 0]).parse(), Err(Error::IncompleteData));
    assert_eq!(fails(&[vec![(2 << 16) | 17]]), Error::IncompleteData);
    assert_eq!(fails(&[vec![(4 << 16) | 21, 1, 32]]), Error::IncompleteData);
    assert_eq!(parse_u8_slice(&[3, 2, 0x23, 7, 0]), Err(Error::IncompleteData));
    assert_eq!(parse_u8_slice(&[3, 2, 0x23]), Err(Error::IncompleteData));
    // a function must reach its end
    assert_eq!(
        fails(&[op(19, &[1]), op(33, &[2, 1]), op(54, &[1, 3, 0, 2]), op(248, &[4])]),
        Error::IncompleteData
    );
}

#[test]
fn word_count_zero() {
    assert_eq!(fails(&[vec![17]]), Error::InvalidWordCount);
    assert_eq!(fails(&[op(17, &[1]), vec![0x0000_FFFF]]), Error::InvalidWordCount);
}

#[test]
fn opcode_beyond_the_table() {
    assert_eq!(fails(&[vec![(1 << 16) | 5634]]), Error::UnknownInstruction(5634));
    assert_eq!(fails(&[vec![(9 << 16) | 0xFFFF]]), Error::UnknownInstruction(0xFFFF));
    // the last known code is known, but nothing is done for it
    assert_eq!(
        fails(&[vec![(1 << 16) | 5633]]),
        Error::UnsupportedInstruction(ModuleState::Empty, Op::Other(5633))
    );
}

#[test]
fn unknown_capability() {
    assert_eq!(fails(&[op(17, &[5347])]), Error::UnknownCapability(5347));
    assert_eq!(
        fails(&[op(17, &[5346])]),
        Error::UnsupportedCapability(Capability::Other(5346))
    );
    assert_eq!(fails(&[op(17, &[0])]), Error::UnsupportedCapability(Capability::Matrix));
}

#[test]
fn phase_regression() {
    assert_eq!(
        fails(&[op(14, &[0, 1]), op(17, &[1])]),
        Error::UnsupportedInstruction(ModuleState::MemoryModel, Op::Capability)
    );
    assert_eq!(
        fails(&[
            op(19, &[1]),
            op(33, &[2, 1]),
            op(54, &[1, 3, 0, 2]),
            op(56, &[]),
            op(17, &[1]),
        ]),
        Error::UnsupportedInstruction(ModuleState::Function, Op::Capability)
    );
    assert_eq!(
        fails(&[op(19, &[1]), op(71, &[1, 30, 0])]),
        Error::UnsupportedInstruction(ModuleState::Type, Op::Decorate)
    );
    // the same phase again is no regression
    assert!(run(&[op(17, &[1]), op(17, &[1]), op(14, &[0, 1]), op(14, &[0, 1])]).is_ok());
}

#[test]
fn unsupported_instruction() {
    // OpNop is known and not handled
    assert_eq!(
        fails(&[op(0, &[])]),
        Error::UnsupportedInstruction(ModuleState::Empty, Op::Other(0))
    );
    // a label outside a function, a type inside a block
    assert_eq!(
        fails(&[op(19, &[1]), op(248, &[2])]),
        Error::UnsupportedInstruction(ModuleState::Type, Op::Label)
    );
    assert_eq!(
        fails(&in_function(&[op(19, &[40])])),
        Error::UnsupportedInstruction(ModuleState::Function, Op::TypeVoid)
    );
    // between the blocks of a function only labels may stand
    assert_eq!(
        fails(&[op(19, &[1]), op(33, &[2, 1]), op(54, &[1, 3, 0, 2]), op(253, &[])]),
        Error::UnsupportedInstruction(ModuleState::Function, Op::Return)
    );
}

#[test]
fn unsupported_extension() {
    assert_eq!(
        fails(&[named(10, &[], "SPV_KHR_storage_buffer_storage_class", &[])]),
        Error::UnsupportedExtension("SPV_KHR_storage_buffer_storage_class".to_string())
    );
}

#[test]
fn extension_without_nul() {
    // the text fills its two words to the end
    assert_eq!(
        fails(&[op(10, &[0x6161_6161, 0x6262_6262]), op(14, &[0, 0])]),
        Error::BadString
    );
    // where the words end first, that is what is reported
    assert_eq!(fails(&[vec![(3 << 16) | 10, 0x6161_6161]]), Error::IncompleteData);
}

#[test]
fn non_utf8_string() {
    assert_eq!(fails(&[op(10, &[0x0000_80ff])]), Error::BadString);
    assert_eq!(fails(&[op(5, &[1, 0x00c3_28c3])]), Error::BadString);
    // a lone continuation byte behind valid text
    assert_eq!(fails(&[op(5, &[1, 0x8061_6161, 0])]), Error::BadString);
}

#[test]
fn invalid_operand() {
    assert_eq!(fails(&[named(5, &[1], "abc", &[0])]), Error::InvalidOperand);
    assert_eq!(fails(&[named(6, &[1, 0], "abc", &[9])]), Error::InvalidOperand);
    assert_eq!(fails(&[named(11, &[1], "GLSL.std.450", &[0])]), Error::InvalidOperand);
    assert_eq!(fails(&[named(10, &[], "x", &[0, 0])]), Error::InvalidOperand);
}

#[test]
fn invalid_operand_count() {
    assert_eq!(fails(&[op(17, &[1, 1])]), Error::InvalidOperandCount(Op::Capability, 3));
    assert_eq!(fails(&[op(17, &[])]), Error::InvalidOperandCount(Op::Capability, 1));
    assert_eq!(fails(&[op(14, &[0])]), Error::InvalidOperandCount(Op::MemoryModel, 2));
    assert_eq!(fails(&[op(15, &[0, 1])]), Error::InvalidOperandCount(Op::EntryPoint, 3));
    assert_eq!(fails(&[op(16, &[1])]), Error::InvalidOperandCount(Op::ExecutionMode, 2));
    assert_eq!(fails(&[op(4, &[])]), Error::InvalidOperandCount(Op::SourceExtension, 1));
    assert_eq!(fails(&[op(5, &[1])]), Error::InvalidOperandCount(Op::Name, 2));
    assert_eq!(fails(&[op(71, &[1])]), Error::InvalidOperandCount(Op::Decorate, 2));
    // a decoration that is acted on has one operand exactly
    assert_eq!(fails(&[op(71, &[1, 30])]), Error::InvalidOperandCount(Op::Decorate, 3));
    assert_eq!(fails(&[op(71, &[1, 30, 0, 0])]), Error::InvalidOperandCount(Op::Decorate, 5));
    assert_eq!(
        fails(&[op(72, &[1, 0, 11])]),
        Error::InvalidOperandCount(Op::MemberDecorate, 4)
    );
    assert_eq!(fails(&[op(19, &[])]), Error::InvalidOperandCount(Op::TypeVoid, 1));
    assert_eq!(fails(&[op(21, &[1, 32])]), Error::InvalidOperandCount(Op::TypeInt, 3));
    assert_eq!(fails(&[op(25, &[1; 7])]), Error::InvalidOperandCount(Op::TypeImage, 8));
    assert_eq!(
        fails(&[op(22, &[1, 32]), op(25, &[4, 1, 0, 0, 0, 0, 0, 0, 0, 0])]),
        Error::InvalidOperandCount(Op::TypeImage, 11)
    );
    assert_eq!(
        fails(&in_function(&[op(253, &[0])])),
        Error::InvalidOperandCount(Op::Return, 2)
    );
    assert_eq!(
        fails(&in_function(&[op(65, &[6, 40])])),
        Error::InvalidOperandCount(Op::AccessChain, 3)
    );
    assert_eq!(
        fails(&in_function(&[op(142, &[3, 40, 7])])),
        Error::InvalidOperandCount(Op::VectorTimesScalar, 4)
    );
}

#[test]
fn wide_constant_word_count() {
    let wide = [op(21, &[1, 64, 0])];
    // the literal has two words, the instruction says four in all
    let mut parts = wide.to_vec();
    parts.push(vec![(4 << 16) | 43, 1, 2, 0x89ab_cdef, 0x0123_4567]);
    let module = run(&parts).unwrap();
    assert_eq!(
        module.constants.get(Token::new(0)).inner,
        spirv_front::ir::ConstantInner::Uint(0x0123_4567_89ab_cdef)
    );
    let mut five = wide.to_vec();
    five.push(op(43, &[1, 2, 0x89ab_cdef, 0x0123_4567]));
    assert_eq!(run(&five), Err(Error::InvalidOperandCount(Op::Constant, 5)));
    let mut three = wide.to_vec();
    three.push(vec![(3 << 16) | 43, 1, 2, 5, 6]);
    assert_eq!(run(&three), Err(Error::InvalidOperandCount(Op::Constant, 3)));
}

#[test]
fn narrow_signed_or_float_constant() {
    assert_eq!(fails(&[op(21, &[1, 16, 1]), op(43, &[1, 2, 5])]), Error::InvalidTypeWidth(16));
    assert_eq!(fails(&[op(22, &[1, 31]), op(43, &[1, 2, 5])]), Error::InvalidTypeWidth(31));
    // an unsigned constant may be narrow
    let module = run(&[op(21, &[1, 8, 0]), op(43, &[1, 2, 0x1ff])]).unwrap();
    assert_eq!(
        module.constants.get(Token::new(0)).inner,
        spirv_front::ir::ConstantInner::Uint(0x1ff)
    );
}

#[test]
fn invalid_type_width() {
    assert_eq!(fails(&[op(21, &[1, 256, 0])]), Error::InvalidTypeWidth(256));
    assert_eq!(fails(&[op(22, &[1, 0x1_0020])]), Error::InvalidTypeWidth(0x1_0020));
    assert!(run(&[op(21, &[1, 255, 0])]).is_ok());
}

#[test]
fn invalid_sign() {
    assert_eq!(fails(&[op(21, &[1, 32, 2])]), Error::InvalidSign(2));
    // the sign is looked at before the width
    assert_eq!(fails(&[op(21, &[1, 999, 7])]), Error::InvalidSign(7));
}

#[test]
fn invalid_inner_type() {
    assert_eq!(
        fails(&[op(22, &[1, 32]), op(23, &[2, 1, 2]), op(23, &[3, 2, 2])]),
        Error::InvalidInnerType(2)
    );
    assert_eq!(fails(&[op(22, &[1, 32]), op(24, &[2, 1, 2])]), Error::InvalidInnerType(1));
}

#[test]
fn invalid_vector_size() {
    assert_eq!(fails(&[op(22, &[1, 32]), op(23, &[2, 1, 5])]), Error::InvalidVectorSize(5));
    assert_eq!(fails(&[op(22, &[1, 32]), op(23, &[2, 1, 1])]), Error::InvalidVectorSize(1));
    assert_eq!(
        fails(&[op(22, &[1, 32]), op(23, &[2, 1, 2]), op(24, &[3, 2, 0])]),
        Error::InvalidVectorSize(0)
    );
}

#[test]
fn invalid_id() {
    assert_eq!(fails(&[op(23, &[2, 1, 2])]), Error::InvalidId(1));
    assert_eq!(fails(&[op(32, &[2, 1, 9])]), Error::InvalidId(9));
    assert_eq!(fails(&[op(28, &[2, 8, 4])]), Error::InvalidId(8));
    assert_eq!(fails(&[op(30, &[2, 3])]), Error::InvalidId(3));
    assert_eq!(fails(&[op(27, &[2, 3])]), Error::InvalidId(3));
    assert_eq!(fails(&[op(43, &[4, 2, 0])]), Error::InvalidId(4));
    assert_eq!(fails(&[op(59, &[4, 2, 0])]), Error::InvalidId(4));
    assert_eq!(fails(&[op(54, &[1, 2, 0, 3])]), Error::InvalidId(3));
    // the result's type of a function is void or a type
    assert_eq!(fails(&[op(33, &[2, 1]), op(54, &[1, 3, 0, 2])]), Error::InvalidId(1));
    assert_eq!(fails(&in_function(&[op(61, &[2, 40, 99])])), Error::InvalidId(99));
    assert_eq!(fails(&in_function(&[op(62, &[8, 98])])), Error::InvalidId(98));
    assert_eq!(fails(&in_function(&[op(65, &[6, 40, 7, 97])])), Error::InvalidId(97));
    assert_eq!(fails(&in_function(&[op(80, &[3, 40, 11, 96])])), Error::InvalidId(96));
    assert_eq!(fails(&in_function(&[op(80, &[95, 40, 11])])), Error::InvalidId(95));
    assert_eq!(fails(&in_function(&[op(86, &[1, 40, 7, 94])])), Error::InvalidId(94));
    assert_eq!(fails(&in_function(&[op(87, &[3, 40, 93, 11])])), Error::InvalidId(93));
    assert_eq!(fails(&in_function(&[op(142, &[92, 40, 7, 11])])), Error::InvalidId(92));
    // an entry point names a function and variables of the module
    assert_eq!(fails(&[named(15, &[0, 5], "main", &[])]), Error::InvalidId(5));
    assert_eq!(
        fails(&[
            named(15, &[0, 3], "main", &[77]),
            op(19, &[1]),
            op(33, &[2, 1]),
            op(54, &[1, 3, 0, 2]),
            op(56, &[]),
        ]),
        Error::InvalidId(77)
    );
}

#[test]
fn invalid_decoration() {
    assert_eq!(fails(&[op(71, &[1, 5301])]), Error::InvalidDecoration(5301));
    assert_eq!(fails(&[op(72, &[1, 0, 0xFFFF_FFFF])]), Error::InvalidDecoration(0xFFFF_FFFF));
    assert!(run(&[op(71, &[1, 5300])]).is_ok());
}

#[test]
fn unsupported_enumerators() {
    assert_eq!(
        fails(&[named(15, &[7, 1], "main", &[])]),
        Error::UnsupportedExecutionModel(7)
    );
    assert_eq!(
        fails(&[op(22, &[1, 32]), op(32, &[2, 13, 1])]),
        Error::UnsupportedStorageClass(13)
    );
    assert!(run(&[op(22, &[1, 32]), op(32, &[2, 12, 1])]).is_ok());
    assert_eq!(
        fails(&[
            op(71, &[3, 30, 0]),
            op(22, &[1, 32]),
            op(32, &[2, 1, 1]),
            op(59, &[2, 3, 99]),
        ]),
        Error::UnsupportedStorageClass(99)
    );
    assert_eq!(
        fails(&[op(22, &[1, 32]), op(25, &[4, 1, 7, 0, 0, 0, 0, 0])]),
        Error::UnsupportedDim(7)
    );
    assert_eq!(
        fails(&[op(19, &[1]), op(33, &[2, 1]), op(54, &[1, 3, 16, 2])]),
        Error::UnsupportedFunctionControl(16)
    );
}

#[test]
fn wrong_function_signature() {
    assert_eq!(
        fails(&[op(19, &[1]), op(22, &[4, 32]), op(33, &[2, 1]), op(54, &[4, 3, 0, 2])]),
        Error::WrongFunctionResultType(4)
    );
    let typed = [op(22, &[1, 32]), op(21, &[2, 32, 0]), op(33, &[3, 1, 1, 2])];
    let mut wrong = typed.to_vec();
    wrong.extend([op(54, &[1, 4, 0, 3]), op(55, &[1, 5]), op(55, &[1, 6])]);
    assert_eq!(run(&wrong), Err(Error::WrongFunctionParameterType(1)));
    let mut missing = typed.to_vec();
    missing.extend([op(54, &[1, 4, 0, 3]), op(55, &[1, 5]), op(248, &[6])]);
    assert_eq!(run(&missing), Err(Error::InvalidParameter(Op::Label)));
    let mut long = typed.to_vec();
    long.extend([op(54, &[1, 4, 0, 3]), op(55, &[1, 5, 0])]);
    assert_eq!(run(&long), Err(Error::InvalidParameter(Op::FunctionParameter)));
}

#[test]
fn invalid_variable_class() {
    assert_eq!(
        fails(&[
            named(15, &[0, 5], "main", &[3]),
            op(71, &[3, 30, 0]),
            op(22, &[1, 32]),
            op(32, &[2, 2, 1]),
            op(59, &[2, 3, 2]),
            op(19, &[6]),
            op(33, &[7, 6]),
            op(54, &[6, 5, 0, 7]),
            op(56, &[]),
        ]),
        Error::InvalidVariableClass(StorageClass::Uniform)
    );
}

#[test]
fn unsupported_type() {
    // a constant of a vector type
    assert_eq!(
        fails(&[op(22, &[1, 32]), op(23, &[2, 1, 2]), op(43, &[2, 3, 0])]),
        Error::UnsupportedType(Token::new(1))
    );
    // a load through what is no pointer: the constant 11 is a float, and the
    // float type is built on nothing
    assert_eq!(fails(&in_function(&[op(61, &[2, 40, 11])])), Error::InvalidLoadType(2));
    assert_eq!(fails(&in_function(&[op(62, &[11, 11])])), Error::UnsupportedType(Token::new(1)));
    // an access chain from an expression whose type is built on nothing
    assert_eq!(
        fails(&in_function(&[op(65, &[6, 40, 11, 9])])),
        Error::UnsupportedType(Token::new(1))
    );
    // an index that is a float
    assert_eq!(
        fails(&in_function(&[op(65, &[6, 40, 7, 11])])),
        Error::UnsupportedType(Token::new(1))
    );
    // an access chain into a scalar: member 1 of the struct is a vector,
    // its component a float, and a float has no parts
    assert!(run(&in_function(&[op(65, &[6, 40, 7, 9, 9])])).is_ok());
    assert_eq!(
        fails(&in_function(&[op(65, &[6, 40, 7, 9, 9, 9])])),
        Error::UnsupportedType(Token::new(1))
    );
    assert_eq!(
        fails(&in_function(&[op(81, &[2, 40, 11, 0])])),
        Error::UnsupportedType(Token::new(1))
    );
    // products of what are no floats of the right shape
    assert_eq!(
        fails(&in_function(&[op(142, &[2, 40, 11, 11])])),
        Error::UnsupportedType(Token::new(1))
    );
    assert_eq!(
        fails(&in_function(&[op(61, &[3, 39, 8]), op(142, &[3, 40, 11, 11])])),
        Error::InvalidLoadType(3)
    );
    assert_eq!(
        fails(&in_function(&[op(80, &[3, 39, 11, 11, 11, 11]), op(142, &[3, 40, 39, 9])])),
        Error::UnsupportedType(Token::new(0))
    );
    assert_eq!(
        fails(&in_function(&[op(80, &[3, 39, 11, 11, 11, 11]), op(145, &[3, 40, 39, 39])])),
        Error::UnsupportedType(Token::new(2))
    );
    // a coordinate that is an integer
    assert_eq!(
        fails(&in_function(&[op(86, &[1, 39, 7, 8]), op(87, &[3, 40, 39, 9])])),
        Error::UnsupportedType(Token::new(0))
    );
}

#[test]
fn invalid_access() {
    // member 7 of a struct of two
    assert_eq!(fails(&in_function(&[op(65, &[6, 40, 7, 10])])), Error::InvalidAccessType(4));
    assert_eq!(fails(&in_function(&[op(61, &[4, 39, 7]), op(81, &[2, 40, 39, 2])])),
        Error::InvalidAccessType(4));
    // the index into a struct must be a constant: expression 6 is the load
    assert_eq!(
        fails(&in_function(&[op(61, &[1, 39, 13]), op(65, &[6, 40, 7, 39])])),
        Error::InvalidAccessIndex(Token::new(6))
    );
    // a global variable is no constant either; its type must be an integer
    // for the question to arise, which a pointer is not
    assert_eq!(
        fails(&in_function(&[op(65, &[6, 40, 7, 13])])),
        Error::UnsupportedType(Token::new(6))
    );
}

#[test]
fn every_step_reports_through_parse_and_step_alike() {
    let words = vec![MAGIC, 0x0001_0000, 0, 0, 0, (2 << 16) | 17, 2];
    let mut parser = Parser::new(words);
    let header = parser.next_header().unwrap();
    let mut module = Module::from_header(header);
    let inst = parser.next_inst().unwrap();
    assert_eq!(
        parser.step(&mut module, inst),
        Err(Error::UnsupportedCapability(Capability::Geometry))
    );
}

/// A parser inside the one block of the function of `in_function`, with the
/// module and the function as far as they are built.
fn inside(body: &[Vec<u32>]) -> (Parser, Module, spirv_front::ir::Function) {
    let parts = in_function(body);
    let mut words = vec![MAGIC, 0x0001_0000, 0, 0, 0];
    for part in &parts {
        words.extend_from_slice(part);
    }
    let mut parser = Parser::new(words);
    let header = parser.next_header().unwrap();
    let mut module = Module::from_header(header);
    for _ in 0..18 {
        let inst = parser.next_inst().unwrap();
        parser.step(&mut module, inst).unwrap();
    }
    let function = parser.next_inst().unwrap();
    assert_eq!(function.op, Op::Function);
    parser.switch(ModuleState::Function, function.op).unwrap();
    for _ in 0..4 {
        parser.next().unwrap();
    }
    let fun = spirv_front::ir::Function {
        name: None,
        control: spirv_front::words::FunctionControl { bits: 0 },
        parameter_types: Vec::new(),
        return_type: None,
        expressions: parser.make_expression_storage(),
        body: Vec::new(),
    };
    assert_eq!(parser.next_inst().unwrap().op, Op::Label);
    parser.next().unwrap();
    (parser, module, fun)
}

#[test]
fn a_function_starts_with_one_expression_for_each_id() {
    let (parser, _module, fun) = inside(&[]);
    // three variables and three constants, in the order of their definition
    assert_eq!(fun.expressions.len(), 6);
    for (place, id) in [7u32, 8, 13, 9, 10, 11].iter().enumerate() {
        assert_eq!(parser.lookup_expression(*id).unwrap().token, Token::new(place));
    }
    assert_eq!(parser.lookup_expression(7).unwrap().type_id, 5);
    assert_eq!(parser.lookup_expression(11).unwrap().type_id, 2);
    assert_eq!(
        *fun.expressions.get(Token::new(2)),
        spirv_front::ir::Expression::GlobalVariable(Token::new(2))
    );
    assert_eq!(
        *fun.expressions.get(Token::new(5)),
        spirv_front::ir::Expression::Constant(Token::new(2))
    );
    // no other id stands for anything
    for id in [0u32, 1, 2, 3, 4, 5, 6, 12, 14, 15, 20, 21] {
        assert_eq!(parser.lookup_expression(id), Err(Error::InvalidId(id)));
    }
}

#[test]
fn a_failed_store_pushes_no_statement() {
    let (mut parser, module, mut fun) =
        inside(&[op(80, &[3, 39, 11, 11, 11, 11]), op(62, &[8, 39])]);
    assert_eq!(
        parser.next_block(&mut fun, &module.types, &module.constants),
        Err(Error::InvalidStoreType(3))
    );
    assert!(fun.body.is_empty());
    // the composite before the store is there
    assert_eq!(fun.expressions.len(), 7);
    assert_eq!(parser.lookup_expression(39).unwrap().token, Token::new(6));
    assert_eq!(parser.state(), ModuleState::Function);
}

#[test]
fn a_failed_access_chain_defines_nothing() {
    let (mut parser, module, mut fun) =
        inside(&[op(61, &[1, 39, 13]), op(65, &[6, 40, 7, 39])]);
    assert_eq!(
        parser.next_block(&mut fun, &module.types, &module.constants),
        Err(Error::InvalidAccessIndex(Token::new(6)))
    );
    assert_eq!(parser.lookup_expression(40), Err(Error::InvalidId(40)));
    assert_eq!(parser.lookup_expression(39).unwrap().token, Token::new(6));
    assert!(fun.body.is_empty());
    assert_eq!(fun.expressions.len(), 7);
}

#[test]
fn a_walk_that_fails_late_leaves_its_first_steps() {
    // member 1, a component of it, and then into the float that has no parts
    let (mut parser, module, mut fun) = inside(&[op(65, &[6, 40, 7, 9, 9, 9])]);
    assert_eq!(
        parser.next_block(&mut fun, &module.types, &module.constants),
        Err(Error::UnsupportedType(Token::new(1)))
    );
    assert_eq!(fun.expressions.len(), 8);
    assert_eq!(
        *fun.expressions.get(Token::new(6)),
        spirv_front::ir::Expression::AccessIndex { base: Token::new(0), index: 1 }
    );
    assert_eq!(parser.lookup_expression(40), Err(Error::InvalidId(40)));
    assert!(fun.body.is_empty());
}

#[test]
fn an_unsupported_instruction_changes_nothing() {
    let (mut parser, module, mut fun) = inside(&[op(253, &[]), op(19, &[40])]);
    parser.next_block(&mut fun, &module.types, &module.constants).unwrap();
    let left = parser.remaining();
    assert_eq!(
        parser.next_block(&mut fun, &module.types, &module.constants),
        Err(Error::UnsupportedInstruction(ModuleState::Function, Op::TypeVoid))
    );
    assert_eq!(parser.state(), ModuleState::Function);
    assert_eq!(fun.expressions.len(), 6);
    assert_eq!(fun.body.len(), 1);
    assert!(fun.name.is_none() && fun.return_type.is_none() && fun.parameter_types.is_empty());
    // the header was read, its operand was not
    assert_eq!(parser.remaining(), left - 1);
    assert_eq!(parser.lookup_type(40), Err(Error::InvalidId(40)));
}

#[test]
fn a_failed_instruction_leaves_the_module() {
    let words = vec![MAGIC, 0x0001_0000, 0, 0, 0, (4 << 16) | 21, 1, 32, 0, (4 << 16) | 23, 2, 9, 4];
    let mut parser = Parser::new(words);
    let header = parser.next_header().unwrap();
    let mut module = Module::from_header(header);
    let inst = parser.next_inst().unwrap();
    parser.step(&mut module, inst).unwrap();
    let inst = parser.next_inst().unwrap();
    assert_eq!(parser.step(&mut module, inst), Err(Error::InvalidId(9)));
    assert_eq!(module.types.len(), 1);
    assert_eq!(parser.lookup_type(2), Err(Error::InvalidId(2)));
}

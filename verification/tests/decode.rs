use spirv_front::error::{Error, Instruction, ModuleState};
use spirv_front::ir::{
    ArraySize, Binding, Constant, ConstantInner, Expression, Function, GlobalVariable, Header,
    ImageFlags, Module, ScalarKind, Statement, StructMember, Token, Type, TypeInner, VectorSize,
};
use spirv_front::state::{LookupConstant, LookupExpression, LookupType};
use spirv_front::{parse_u8_slice, Parser};
use spirv_front::words::{
    BuiltIn, Capability, Dim, ExecutionModel, FunctionControl, Op, StorageClass,
};

const MAGIC: u32 = 0x0723_0203;

fn inst(op: u32, operands: &[u32]) -> Vec<u32> {
    let mut words = vec![((operands.len() as u32 + 1) << 16) | op];
    words.extend_from_slice(operands);
    words
}

fn text(s: &str) -> Vec<u32> {
    let mut bytes = s.as_bytes().to_vec();
    bytes.push(0);
    while bytes.len() % 4 != 0 {
        bytes.push(0);
    }
    bytes.chunks(4).map(|c| u32::from_le_bytes([c[0], c[1], c[2], c[3]])).collect()
}

fn with_text(op: u32, before: &[u32], s: &str, after: &[u32]) -> Vec<u32> {
    let mut operands = before.to_vec();
    operands.extend(text(s));
    operands.extend_from_slice(after);
    inst(op, &operands)
}

fn module(parts: &[Vec<u32>]) -> Vec<u32> {
    let mut words = vec![MAGIC, 0x0001_0000, 0, 0, 0];
    for part in parts {
        words.extend_from_slice(part);
    }
    words
}

fn decode(parts: &[Vec<u32>]) -> Result<Module, Error> {
    Parser::new(module(parts)).parse()
}

const OP_NAME: u32 = 5;
const OP_MEMBER_NAME: u32 = 6;
const OP_EXT_INST_IMPORT: u32 = 11;
const OP_MEMORY_MODEL: u32 = 14;
const OP_ENTRY_POINT: u32 = 15;
const OP_CAPABILITY: u32 = 17;
const OP_TYPE_VOID: u32 = 19;
const OP_TYPE_INT: u32 = 21;
const OP_TYPE_FLOAT: u32 = 22;
const OP_TYPE_VECTOR: u32 = 23;
const OP_TYPE_MATRIX: u32 = 24;
const OP_TYPE_IMAGE: u32 = 25;
const OP_TYPE_SAMPLER: u32 = 26;
const OP_TYPE_SAMPLED_IMAGE: u32 = 27;
const OP_TYPE_ARRAY: u32 = 28;
const OP_TYPE_RUNTIME_ARRAY: u32 = 29;
const OP_TYPE_STRUCT: u32 = 30;
const OP_TYPE_POINTER: u32 = 32;
const OP_TYPE_FUNCTION: u32 = 33;
const OP_CONSTANT: u32 = 43;
const OP_SPEC_CONSTANT: u32 = 50;
const OP_FUNCTION: u32 = 54;
const OP_FUNCTION_PARAMETER: u32 = 55;
const OP_FUNCTION_END: u32 = 56;
const OP_VARIABLE: u32 = 59;
const OP_LOAD: u32 = 61;
const OP_STORE: u32 = 62;
const OP_ACCESS_CHAIN: u32 = 65;
const OP_DECORATE: u32 = 71;
const OP_MEMBER_DECORATE: u32 = 72;
const OP_COMPOSITE_CONSTRUCT: u32 = 80;
const OP_COMPOSITE_EXTRACT: u32 = 81;
const OP_SAMPLED_IMAGE: u32 = 86;
const OP_IMAGE_SAMPLE: u32 = 87;
const OP_VECTOR_TIMES_SCALAR: u32 = 142;
const OP_MATRIX_TIMES_VECTOR: u32 = 145;
const OP_LABEL: u32 = 248;
const OP_RETURN: u32 = 253;

const DEC_BUILT_IN: u32 = 11;
const DEC_LOCATION: u32 = 30;
const DEC_BINDING: u32 = 33;
const DEC_DESCRIPTOR_SET: u32 = 34;

const CLASS_INPUT: u32 = 1;
const CLASS_UNIFORM: u32 = 2;
const CLASS_OUTPUT: u32 = 3;
const CLASS_PRIVATE: u32 = 6;

fn scalar(kind: ScalarKind, width: u8) -> Type {
    Type { name: None, inner: TypeInner::Scalar { kind, width } }
}

#[test]
fn parse() {
    let bin = vec![
        // Magic number.           Version number: 1.0.
        0x03, 0x02, 0x23, 0x07, 0x00, 0x00, 0x01, 0x00,
        // Generator number: 0.    Bound: 0.
        0x00, 0x00, 0x00, 0x00, 0x00, 0x00, 0x00, 0x00,
        // Reserved word: 0.
        0x00, 0x00, 0x00, 0x00,
        // OpMemoryModel.          Logical.
        0x0e, 0x00, 0x03, 0x00, 0x00, 0x00, 0x00, 0x00,
        // GLSL450.
        0x01, 0x00, 0x00, 0x00,
    ];
    let _ = parse_u8_slice(&bin).unwrap();
}

#[test]
fn minimum_module() {
    let words = vec![MAGIC, 0x0001_0000, 0, 0, 0, (3 << 16) | 0x0e, 0, 1];
    let module = Parser::new(words).parse().unwrap();
    assert_eq!(module.header, Header { version: (1, 0, 0), generator: 0 });
    assert_eq!(module.types.len(), 0);
    assert_eq!(module.constants.len(), 0);
    assert_eq!(module.global_variables.len(), 0);
    assert_eq!(module.functions.len(), 0);
    assert!(module.entry_points.is_empty());
}

#[test]
fn header_alone_is_a_module() {
    let module = Parser::new(vec![MAGIC, 0x0001_0305, 77, 9, 9]).parse().unwrap();
    assert_eq!(module.header, Header { version: (1, 3, 5), generator: 77 });
    assert_eq!(module, Module::from_header(Header { version: (1, 3, 5), generator: 77 }));
}

#[test]
fn bytes_are_read_lowest_first() {
    let mut bytes = Vec::new();
    for word in [MAGIC, 0x0001_0200, 0x0a0b_0c0d, 0, 0] {
        bytes.extend_from_slice(&word.to_le_bytes());
    }
    let module = parse_u8_slice(&bytes).unwrap();
    assert_eq!(module.header, Header { version: (1, 2, 0), generator: 0x0a0b_0c0d });
    // the same bytes in the other order are no module
    let mut swapped = Vec::new();
    for word in [MAGIC, 0x0001_0200, 0x0a0b_0c0d, 0, 0] {
        swapped.extend_from_slice(&word.to_be_bytes());
    }
    assert_eq!(parse_u8_slice(&swapped), Err(Error::InvalidHeader));
}

#[test]
fn unsupported_capability() {
    let words = vec![MAGIC, 0x0001_0000, 0, 0, 0, (2 << 16) | 0x11, 2];
    assert_eq!(
        Parser::new(words).parse(),
        Err(Error::UnsupportedCapability(Capability::Geometry))
    );
}

#[test]
fn shader_capability_is_accepted() {
    let module = decode(&[inst(OP_CAPABILITY, &[1])]).unwrap();
    assert_eq!(module.types.len(), 0);
}

#[test]
fn unknown_opcode() {
    let words = vec![MAGIC, 0x0001_0000, 0, 0, 0, (1 << 16) | 0xFFFE];
    assert_eq!(Parser::new(words).parse(), Err(Error::UnknownInstruction(0xFFFE)));
}

#[test]
fn integer_constant() {
    let words = module(&[inst(OP_TYPE_INT, &[1, 32, 0]), inst(OP_CONSTANT, &[1, 2, 0x2A])]);
    let mut parser = Parser::new(words);
    let module = parser.parse().unwrap();
    assert_eq!(module.constants.len(), 1);
    let token = Token::new(0);
    assert_eq!(
        *module.constants.get(token),
        Constant { name: None, specialization: None, inner: ConstantInner::Uint(42) }
    );
    assert_eq!(parser.lookup_constant(2), Ok(LookupConstant { token, type_id: 1 }));
    assert_eq!(parser.lookup_constant(1), Err(Error::InvalidId(1)));
    assert_eq!(
        parser.lookup_type(1),
        Ok(LookupType { token: Token::new(0), base_id: None })
    );
    assert_eq!(*module.types.get(Token::new(0)), scalar(ScalarKind::Uint, 32));
}

fn access_chain_module() -> Vec<Vec<u32>> {
    vec![
        inst(OP_DECORATE, &[6, DEC_DESCRIPTOR_SET, 0]),
        inst(OP_DECORATE, &[6, DEC_BINDING, 0]),
        inst(OP_TYPE_INT, &[1, 32, 0]),
        inst(OP_TYPE_FLOAT, &[2, 32]),
        inst(OP_TYPE_VECTOR, &[3, 2, 4]),
        inst(OP_TYPE_STRUCT, &[4, 3]),
        inst(OP_TYPE_POINTER, &[5, CLASS_UNIFORM, 4]),
        inst(OP_TYPE_POINTER, &[7, CLASS_UNIFORM, 3]),
        inst(OP_VARIABLE, &[5, 6, CLASS_UNIFORM]),
        inst(OP_CONSTANT, &[1, 10, 0]),
        inst(OP_TYPE_VOID, &[8]),
        inst(OP_TYPE_FUNCTION, &[9, 8]),
        inst(OP_FUNCTION, &[8, 12, 0, 9]),
        inst(OP_LABEL, &[13]),
        inst(OP_ACCESS_CHAIN, &[7, 11, 6, 10]),
        inst(OP_RETURN, &[]),
        inst(OP_FUNCTION_END, &[]),
    ]
}

#[test]
fn access_chain_into_struct() {
    let module = decode(&access_chain_module()).unwrap();
    assert_eq!(module.types.len(), 6);
    assert_eq!(
        *module.types.get(Token::new(3)),
        Type {
            name: None,
            inner: TypeInner::Struct {
                members: vec![StructMember { name: None, binding: None, ty: Token::new(2) }],
            },
        }
    );
    assert_eq!(
        *module.types.get(Token::new(4)),
        Type {
            name: None,
            inner: TypeInner::Pointer { base: Token::new(3), class: StorageClass::Uniform },
        }
    );
    assert_eq!(
        *module.global_variables.get(Token::new(0)),
        GlobalVariable {
            name: None,
            class: StorageClass::Uniform,
            binding: Some(Binding::Descriptor { set: 0, binding: 0 }),
            ty: Token::new(4),
        }
    );
    assert_eq!(module.functions.len(), 1);
    let fun = module.functions.get(Token::new(0));
    assert_eq!(fun.name, None);
    assert_eq!(fun.control, FunctionControl { bits: 0 });
    assert_eq!(fun.return_type, None);
    assert!(fun.parameter_types.is_empty());
    assert_eq!(fun.expressions.len(), 3);
    assert_eq!(*fun.expressions.get(Token::new(0)), Expression::GlobalVariable(Token::new(0)));
    assert_eq!(*fun.expressions.get(Token::new(1)), Expression::Constant(Token::new(0)));
    assert_eq!(
        *fun.expressions.get(Token::new(2)),
        Expression::AccessIndex { base: Token::new(0), index: 0 }
    );
    assert_eq!(fun.body, vec![Statement::Return { value: None }]);
}

#[test]
fn access_chain_table_entry() {
    let parts = access_chain_module();
    let mut parser = Parser::new(module(&parts));
    let header = parser.next_header().unwrap();
    let mut module = Module::from_header(header);
    // everything before the function
    for _ in 0..12 {
        let inst = parser.next_inst().unwrap();
        parser.step(&mut module, inst).unwrap();
    }
    let inst = parser.next_inst().unwrap();
    assert_eq!(inst, Instruction { op: Op::Function, wc: 5 });
    parser.switch(ModuleState::Function, inst.op).unwrap();
    for _ in 0..4 {
        parser.next().unwrap();
    }
    let mut fun = Function {
        name: None,
        control: FunctionControl { bits: 0 },
        parameter_types: Vec::new(),
        return_type: None,
        expressions: parser.make_expression_storage(),
        body: Vec::new(),
    };
    assert_eq!(
        parser.lookup_expression(6),
        Ok(LookupExpression { token: Token::new(0), type_id: 5 })
    );
    assert_eq!(
        parser.lookup_expression(10),
        Ok(LookupExpression { token: Token::new(1), type_id: 1 })
    );
    let label = parser.next_inst().unwrap();
    assert_eq!(label, Instruction { op: Op::Label, wc: 2 });
    parser.next().unwrap();
    let chain = parser.next_inst().unwrap();
    assert_eq!(chain, Instruction { op: Op::AccessChain, wc: 5 });
    assert_eq!(parser.lookup_expression(11), Err(Error::InvalidId(11)));
    parser.access_chain(&mut fun, &module.types, &module.constants, chain).unwrap();
    assert_eq!(
        parser.lookup_expression(11),
        Ok(LookupExpression { token: Token::new(2), type_id: 7 })
    );
    assert_eq!(
        *fun.expressions.get(Token::new(2)),
        Expression::AccessIndex { base: Token::new(0), index: 0 }
    );
    assert_eq!(*fun.expressions.get(Token::new(0)), Expression::GlobalVariable(Token::new(0)));
    // the rest of the block
    parser.next_block(&mut fun, &module.types, &module.constants).unwrap();
    assert_eq!(fun.body, vec![Statement::Return { value: None }]);
    assert_eq!(parser.state(), ModuleState::Function);
}

fn store_module(value_type: u32) -> Vec<Vec<u32>> {
    vec![
        inst(OP_DECORATE, &[6, DEC_LOCATION, 0]),
        inst(OP_DECORATE, &[8, DEC_LOCATION, 1]),
        inst(OP_TYPE_FLOAT, &[2, 32]),
        inst(OP_TYPE_VECTOR, &[3, 2, 4]),
        inst(OP_TYPE_POINTER, &[5, CLASS_PRIVATE, 2]),
        inst(OP_TYPE_POINTER, &[7, CLASS_PRIVATE, value_type]),
        inst(OP_VARIABLE, &[5, 6, CLASS_PRIVATE]),
        inst(OP_VARIABLE, &[7, 8, CLASS_PRIVATE]),
        inst(OP_TYPE_VOID, &[9]),
        inst(OP_TYPE_FUNCTION, &[10, 9]),
        inst(OP_FUNCTION, &[9, 12, 0, 10]),
        inst(OP_LABEL, &[13]),
        inst(OP_LOAD, &[value_type, 20, 8]),
        inst(OP_STORE, &[6, 20]),
        inst(OP_RETURN, &[]),
        inst(OP_FUNCTION_END, &[]),
    ]
}

#[test]
fn store_type_mismatch() {
    // the pointer is to a float, the value a vector of four floats
    assert_eq!(decode(&store_module(3)), Err(Error::InvalidStoreType(3)));
}

#[test]
fn store_of_matching_type() {
    let module = decode(&store_module(2)).unwrap();
    let fun = module.functions.get(Token::new(0));
    assert_eq!(fun.expressions.len(), 3);
    assert_eq!(*fun.expressions.get(Token::new(2)), Expression::Load { pointer: Token::new(1) });
    assert_eq!(
        fun.body,
        vec![
            Statement::Store { pointer: Token::new(0), value: Token::new(2) },
            Statement::Return { value: None },
        ]
    );
}

#[test]
fn load_type_mismatch() {
    let mut parts = store_module(2);
    // load a vector through the pointer to a float
    parts[12] = inst(OP_LOAD, &[3, 20, 8]);
    assert_eq!(decode(&parts), Err(Error::InvalidLoadType(3)));
}

#[test]
fn memory_access_operand_is_accepted() {
    let mut parts = store_module(2);
    parts[12] = inst(OP_LOAD, &[2, 20, 8, 0]);
    parts[13] = inst(OP_STORE, &[6, 20, 0]);
    let module = decode(&parts).unwrap();
    assert_eq!(module.functions.get(Token::new(0)).body.len(), 2);
    parts[12] = inst(OP_LOAD, &[2, 20, 8, 0, 0]);
    assert_eq!(decode(&parts), Err(Error::InvalidOperandCount(Op::Load, 6)));
    parts[12] = inst(OP_LOAD, &[2, 20, 8]);
    parts[13] = inst(OP_STORE, &[6, 20, 0, 0]);
    assert_eq!(decode(&parts), Err(Error::InvalidOperandCount(Op::Store, 5)));
}

#[test]
fn names_reach_their_items() {
    let module = decode(&[
        with_text(OP_NAME, &[1], "scalar", &[]),
        with_text(OP_NAME, &[2], "answer", &[]),
        with_text(OP_NAME, &[4], "block", &[]),
        with_text(OP_NAME, &[6], "gr\u{fc}n", &[]),
        with_text(OP_NAME, &[9], "main", &[]),
        with_text(OP_MEMBER_NAME, &[4, 0], "first", &[]),
        inst(OP_DECORATE, &[6, DEC_LOCATION, 3]),
        inst(OP_MEMBER_DECORATE, &[4, 0, DEC_BUILT_IN, 0]),
        inst(OP_MEMBER_DECORATE, &[4, 1, DEC_LOCATION, 7]),
        inst(OP_TYPE_INT, &[1, 32, 1]),
        inst(OP_CONSTANT, &[1, 2, 5]),
        inst(OP_TYPE_STRUCT, &[4, 1, 1]),
        inst(OP_TYPE_POINTER, &[5, CLASS_PRIVATE, 1]),
        inst(OP_VARIABLE, &[5, 6, CLASS_PRIVATE]),
        inst(OP_TYPE_VOID, &[7]),
        inst(OP_TYPE_FUNCTION, &[8, 7]),
        inst(OP_FUNCTION, &[7, 9, 1, 8]),
        inst(OP_FUNCTION_END, &[]),
    ])
    .unwrap();
    assert_eq!(module.types.get(Token::new(0)).name, Some("scalar".to_string()));
    assert_eq!(
        *module.constants.get(Token::new(0)),
        Constant {
            name: Some("answer".to_string()),
            specialization: None,
            inner: ConstantInner::Sint(5),
        }
    );
    assert_eq!(
        *module.types.get(Token::new(1)),
        Type {
            name: Some("block".to_string()),
            inner: TypeInner::Struct {
                members: vec![
                    StructMember {
                        name: Some("first".to_string()),
                        binding: Some(Binding::BuiltIn(BuiltIn { word: 0 })),
                        ty: Token::new(0),
                    },
                    StructMember {
                        name: None,
                        binding: Some(Binding::Location(7)),
                        ty: Token::new(0),
                    },
                ],
            },
        }
    );
    assert_eq!(
        *module.global_variables.get(Token::new(0)),
        GlobalVariable {
            name: Some("gr\u{fc}n".to_string()),
            class: StorageClass::Private,
            binding: Some(Binding::Location(3)),
            ty: Token::new(2),
        }
    );
    let fun = module.functions.get(Token::new(0));
    assert_eq!(fun.name, Some("main".to_string()));
    assert_eq!(fun.control, FunctionControl { bits: 1 });
    assert!(fun.body.is_empty());
}

#[test]
fn later_decoration_wins() {
    let module = decode(&[
        inst(OP_DECORATE, &[6, DEC_LOCATION, 3]),
        inst(OP_DECORATE, &[6, DEC_LOCATION, 4]),
        inst(OP_TYPE_FLOAT, &[1, 32]),
        inst(OP_TYPE_POINTER, &[5, CLASS_INPUT, 1]),
        inst(OP_VARIABLE, &[5, 6, CLASS_INPUT]),
    ])
    .unwrap();
    assert_eq!(module.global_variables.get(Token::new(0)).binding, Some(Binding::Location(4)));
}

#[test]
fn unknown_decorations_are_passed_over() {
    // RelaxedPrecision has no operand, SpecId has one, and neither is acted on
    let module = decode(&[
        inst(OP_DECORATE, &[6, 0]),
        inst(OP_DECORATE, &[6, 1, 99]),
        inst(OP_MEMBER_DECORATE, &[4, 0, 35, 16]),
        inst(OP_DECORATE, &[6, DEC_LOCATION, 2]),
        inst(OP_TYPE_FLOAT, &[1, 32]),
        inst(OP_TYPE_POINTER, &[5, CLASS_INPUT, 1]),
        inst(OP_VARIABLE, &[5, 6, CLASS_INPUT]),
    ])
    .unwrap();
    assert_eq!(module.global_variables.get(Token::new(0)).binding, Some(Binding::Location(2)));
}

#[test]
fn unknown_built_in_is_dropped() {
    // a built-in beyond the last known one leaves the variable without a binding
    let parts = [
        inst(OP_DECORATE, &[6, DEC_BUILT_IN, 5265]),
        inst(OP_TYPE_FLOAT, &[1, 32]),
        inst(OP_TYPE_POINTER, &[5, CLASS_INPUT, 1]),
        inst(OP_VARIABLE, &[5, 6, CLASS_INPUT]),
    ];
    assert_eq!(decode(&parts), Err(Error::InvalidBinding(6)));
    let mut known = parts.to_vec();
    known[0] = inst(OP_DECORATE, &[6, DEC_BUILT_IN, 5264]);
    let module = decode(&known).unwrap();
    assert_eq!(
        module.global_variables.get(Token::new(0)).binding,
        Some(Binding::BuiltIn(BuiltIn { word: 5264 }))
    );
}

#[test]
fn struct_of_inputs_needs_member_bindings() {
    let parts = vec![
        inst(OP_MEMBER_DECORATE, &[4, 0, DEC_LOCATION, 0]),
        inst(OP_MEMBER_DECORATE, &[4, 1, DEC_LOCATION, 1]),
        inst(OP_TYPE_FLOAT, &[1, 32]),
        inst(OP_TYPE_STRUCT, &[4, 1, 1]),
        inst(OP_TYPE_POINTER, &[5, CLASS_OUTPUT, 4]),
        inst(OP_VARIABLE, &[5, 6, CLASS_OUTPUT]),
    ];
    let module = decode(&parts).unwrap();
    assert_eq!(
        *module.global_variables.get(Token::new(0)),
        GlobalVariable {
            name: None,
            class: StorageClass::Output,
            binding: None,
            ty: Token::new(2),
        }
    );
    // without the second member's location the struct cannot be an output
    let mut unbound = parts.clone();
    unbound.remove(1);
    assert_eq!(decode(&unbound), Err(Error::InvalidBinding(6)));
    // in another class the variable needs a binding of its own
    let mut uniform = parts.clone();
    uniform[4] = inst(OP_TYPE_POINTER, &[5, CLASS_UNIFORM, 4]);
    assert_eq!(decode(&uniform), Err(Error::InvalidBinding(6)));
}

#[test]
fn input_struct_variable_needs_no_record() {
    // nothing names or decorates the variable 4
    let parts = vec![
        inst(OP_MEMBER_DECORATE, &[2, 0, DEC_LOCATION, 0]),
        inst(OP_TYPE_FLOAT, &[1, 32]),
        inst(OP_TYPE_STRUCT, &[2, 1]),
        inst(OP_TYPE_POINTER, &[3, CLASS_INPUT, 2]),
        inst(OP_VARIABLE, &[3, 4, CLASS_INPUT]),
    ];
    let mut parser = Parser::new(module(&parts));
    let module = parser.parse().unwrap();
    assert_eq!(module.global_variables.len(), 1);
    assert_eq!(
        *module.global_variables.get(Token::new(0)),
        GlobalVariable { name: None, class: StorageClass::Input, binding: None, ty: Token::new(2) }
    );
    assert_eq!(parser.lookup_type(3).unwrap().token, Token::new(2));
    // a name alone changes nothing but the name
    let mut named = parts.clone();
    named.insert(0, with_text(OP_NAME, &[4], "in", &[]));
    let module = decode(&named).unwrap();
    assert_eq!(
        *module.global_variables.get(Token::new(0)),
        GlobalVariable {
            name: Some("in".to_string()),
            class: StorageClass::Input,
            binding: None,
            ty: Token::new(2),
        }
    );
    // a member without a binding makes the struct unfit
    let mut unbound = parts.clone();
    unbound.remove(0);
    assert_eq!(decode(&unbound), Err(Error::InvalidBinding(4)));
}

#[test]
fn variable_without_any_decoration() {
    // a pointer to a float needs a binding of its own, and has none
    assert_eq!(
        decode(&[
            inst(OP_TYPE_FLOAT, &[1, 32]),
            inst(OP_TYPE_POINTER, &[5, CLASS_INPUT, 1]),
            inst(OP_VARIABLE, &[5, 6, CLASS_INPUT]),
        ]),
        Err(Error::InvalidBinding(6))
    );
}

#[test]
fn descriptor_needs_set_and_binding() {
    let parts = vec![
        inst(OP_DECORATE, &[6, DEC_DESCRIPTOR_SET, 2]),
        inst(OP_TYPE_FLOAT, &[1, 32]),
        inst(OP_TYPE_POINTER, &[5, CLASS_UNIFORM, 1]),
        inst(OP_VARIABLE, &[5, 6, CLASS_UNIFORM, 0]),
    ];
    assert_eq!(decode(&parts), Err(Error::InvalidBinding(6)));
    let mut both = parts.clone();
    both.insert(1, inst(OP_DECORATE, &[6, DEC_BINDING, 9]));
    let module = decode(&both).unwrap();
    assert_eq!(
        module.global_variables.get(Token::new(0)).binding,
        Some(Binding::Descriptor { set: 2, binding: 9 })
    );
    // a location beside the descriptor makes the binding ambiguous
    let mut three = both.clone();
    three.insert(1, inst(OP_DECORATE, &[6, DEC_LOCATION, 0]));
    assert_eq!(decode(&three), Err(Error::InvalidBinding(6)));
}

#[test]
fn entry_point_interface_is_partitioned_in_order() {
    let mut parts = vec![
        with_text(OP_ENTRY_POINT, &[4, 20], "main", &[13, 11, 12, 10, 11]),
        with_text(OP_ENTRY_POINT, &[0, 20], "other", &[]),
    ];
    for id in 10..14 {
        parts.push(inst(OP_DECORATE, &[id, DEC_LOCATION, id]));
    }
    parts.extend(vec![
        inst(OP_TYPE_FLOAT, &[1, 32]),
        inst(OP_TYPE_POINTER, &[2, CLASS_INPUT, 1]),
        inst(OP_TYPE_POINTER, &[3, CLASS_OUTPUT, 1]),
        inst(OP_VARIABLE, &[2, 10, CLASS_INPUT]),
        inst(OP_VARIABLE, &[3, 11, CLASS_OUTPUT]),
        inst(OP_VARIABLE, &[2, 12, CLASS_INPUT]),
        inst(OP_VARIABLE, &[3, 13, CLASS_OUTPUT]),
        inst(OP_TYPE_VOID, &[4]),
        inst(OP_TYPE_FUNCTION, &[5, 4]),
        inst(OP_FUNCTION, &[4, 20, 0, 5]),
        inst(OP_FUNCTION_END, &[]),
    ]);
    let module = decode(&parts).unwrap();
    assert_eq!(module.entry_points.len(), 2);
    let main = &module.entry_points[0];
    assert_eq!(main.exec_model, ExecutionModel::Fragment);
    assert_eq!(main.name, "main");
    assert_eq!(main.function, Token::new(0));
    // variables 10..14 have the handles 0..4
    assert_eq!(main.inputs, vec![Token::new(2), Token::new(0)]);
    assert_eq!(main.outputs, vec![Token::new(3), Token::new(1), Token::new(1)]);
    let other = &module.entry_points[1];
    assert_eq!(other.exec_model, ExecutionModel::Vertex);
    assert_eq!(other.name, "other");
    assert!(other.inputs.is_empty());
    assert!(other.outputs.is_empty());
}

#[test]
fn function_starts_with_variables_then_constants() {
    let module = decode(&[
        inst(OP_DECORATE, &[30, DEC_LOCATION, 0]),
        inst(OP_DECORATE, &[7, DEC_LOCATION, 1]),
        inst(OP_TYPE_INT, &[1, 32, 0]),
        inst(OP_CONSTANT, &[1, 40, 11]),
        inst(OP_TYPE_POINTER, &[2, CLASS_INPUT, 1]),
        inst(OP_VARIABLE, &[2, 30, CLASS_INPUT]),
        inst(OP_SPEC_CONSTANT, &[1, 3, 12]),
        inst(OP_VARIABLE, &[2, 7, CLASS_INPUT]),
        inst(OP_TYPE_VOID, &[4]),
        inst(OP_TYPE_FUNCTION, &[5, 4]),
        inst(OP_FUNCTION, &[4, 20, 0, 5]),
        inst(OP_LABEL, &[21]),
        inst(OP_LOAD, &[1, 22, 7]),
        inst(OP_RETURN, &[]),
        inst(OP_FUNCTION_END, &[]),
        inst(OP_FUNCTION, &[4, 23, 0, 5]),
        inst(OP_FUNCTION_END, &[]),
    ])
    .unwrap();
    assert_eq!(module.functions.len(), 2);
    let first = module.functions.get(Token::new(0));
    assert_eq!(first.expressions.len(), 5);
    assert_eq!(*first.expressions.get(Token::new(0)), Expression::GlobalVariable(Token::new(0)));
    assert_eq!(*first.expressions.get(Token::new(1)), Expression::GlobalVariable(Token::new(1)));
    assert_eq!(*first.expressions.get(Token::new(2)), Expression::Constant(Token::new(0)));
    assert_eq!(*first.expressions.get(Token::new(3)), Expression::Constant(Token::new(1)));
    assert_eq!(*first.expressions.get(Token::new(4)), Expression::Load { pointer: Token::new(1) });
    // the second function starts afresh
    let second = module.functions.get(Token::new(1));
    assert_eq!(second.expressions.len(), 4);
    assert_eq!(*second.expressions.get(Token::new(3)), Expression::Constant(Token::new(1)));
    assert_eq!(
        *module.constants.get(Token::new(1)),
        Constant { name: None, specialization: None, inner: ConstantInner::Uint(12) }
    );
}

#[test]
fn expressions_of_one_function_are_gone_in_the_next() {
    let parts = vec![
        inst(OP_DECORATE, &[7, DEC_LOCATION, 1]),
        inst(OP_TYPE_INT, &[1, 32, 0]),
        inst(OP_TYPE_POINTER, &[2, CLASS_INPUT, 1]),
        inst(OP_VARIABLE, &[2, 7, CLASS_INPUT]),
        inst(OP_TYPE_VOID, &[4]),
        inst(OP_TYPE_FUNCTION, &[5, 4]),
        inst(OP_FUNCTION, &[4, 20, 0, 5]),
        inst(OP_LABEL, &[21]),
        inst(OP_LOAD, &[1, 22, 7]),
        inst(OP_RETURN, &[]),
        inst(OP_FUNCTION_END, &[]),
        inst(OP_FUNCTION, &[4, 23, 0, 5]),
        inst(OP_LABEL, &[24]),
        inst(OP_COMPOSITE_CONSTRUCT, &[1, 25, 22]),
        inst(OP_RETURN, &[]),
        inst(OP_FUNCTION_END, &[]),
    ];
    assert_eq!(decode(&parts), Err(Error::InvalidId(22)));
}

#[test]
fn vectors_matrices_and_products() {
    let module = decode(&[
        inst(OP_DECORATE, &[20, DEC_LOCATION, 0]),
        inst(OP_DECORATE, &[21, DEC_LOCATION, 1]),
        inst(OP_DECORATE, &[22, DEC_LOCATION, 2]),
        inst(OP_TYPE_FLOAT, &[1, 32]),
        inst(OP_TYPE_VECTOR, &[2, 1, 3]),
        inst(OP_TYPE_VECTOR, &[3, 1, 2]),
        inst(OP_TYPE_MATRIX, &[4, 2, 2]),
        inst(OP_TYPE_POINTER, &[5, CLASS_INPUT, 2]),
        inst(OP_TYPE_POINTER, &[6, CLASS_INPUT, 1]),
        inst(OP_TYPE_POINTER, &[7, CLASS_INPUT, 4]),
        inst(OP_TYPE_POINTER, &[8, CLASS_INPUT, 3]),
        inst(OP_VARIABLE, &[5, 20, CLASS_INPUT]),
        inst(OP_VARIABLE, &[6, 21, CLASS_INPUT]),
        inst(OP_VARIABLE, &[7, 22, CLASS_INPUT]),
        inst(OP_TYPE_VOID, &[9]),
        inst(OP_TYPE_FUNCTION, &[10, 9]),
        inst(OP_FUNCTION, &[9, 30, 0, 10]),
        inst(OP_LABEL, &[31]),
        inst(OP_LOAD, &[2, 40, 20]),
        inst(OP_LOAD, &[1, 41, 21]),
        inst(OP_LOAD, &[4, 42, 22]),
        inst(OP_VECTOR_TIMES_SCALAR, &[2, 43, 40, 41]),
        inst(OP_COMPOSITE_EXTRACT, &[1, 44, 40, 1]),
        inst(OP_COMPOSITE_CONSTRUCT, &[3, 45, 44, 41]),
        inst(OP_MATRIX_TIMES_VECTOR, &[2, 46, 42, 45]),
        inst(OP_COMPOSITE_EXTRACT, &[1, 47, 42, 1, 2]),
        inst(OP_RETURN, &[]),
        inst(OP_FUNCTION_END, &[]),
    ])
    .unwrap();
    assert_eq!(
        *module.types.get(Token::new(1)),
        Type {
            name: None,
            inner: TypeInner::Vector { size: VectorSize::Tri, kind: ScalarKind::Float, width: 32 },
        }
    );
    assert_eq!(
        *module.types.get(Token::new(3)),
        Type {
            name: None,
            inner: TypeInner::Matrix {
                columns: VectorSize::Bi,
                rows: VectorSize::Tri,
                kind: ScalarKind::Float,
                width: 32,
            },
        }
    );
    let fun = module.functions.get(Token::new(0));
    let e = |i: usize| fun.expressions.get(Token::new(i));
    assert_eq!(fun.expressions.len(), 12);
    assert_eq!(*e(3), Expression::Load { pointer: Token::new(0) });
    assert_eq!(*e(4), Expression::Load { pointer: Token::new(1) });
    assert_eq!(*e(5), Expression::Load { pointer: Token::new(2) });
    assert_eq!(*e(6), Expression::Mul(Token::new(3), Token::new(4)));
    assert_eq!(*e(7), Expression::AccessIndex { base: Token::new(3), index: 1 });
    assert_eq!(
        *e(8),
        Expression::Compose { ty: Token::new(2), components: vec![Token::new(7), Token::new(4)] }
    );
    assert_eq!(*e(9), Expression::Mul(Token::new(5), Token::new(8)));
    assert_eq!(*e(10), Expression::AccessIndex { base: Token::new(5), index: 1 });
    assert_eq!(*e(11), Expression::AccessIndex { base: Token::new(10), index: 2 });
}

#[test]
fn access_chain_into_array_and_vector() {
    let module = decode(&[
        inst(OP_DECORATE, &[20, DEC_LOCATION, 0]),
        inst(OP_TYPE_INT, &[1, 32, 1]),
        inst(OP_TYPE_FLOAT, &[2, 32]),
        inst(OP_TYPE_VECTOR, &[3, 2, 4]),
        inst(OP_TYPE_ARRAY, &[4, 3, 8]),
        inst(OP_TYPE_STRUCT, &[5, 2, 4]),
        inst(OP_TYPE_POINTER, &[6, CLASS_PRIVATE, 5]),
        inst(OP_TYPE_POINTER, &[7, CLASS_PRIVATE, 2]),
        inst(OP_VARIABLE, &[6, 20, CLASS_PRIVATE]),
        inst(OP_CONSTANT, &[1, 21, 1]),
        inst(OP_CONSTANT, &[1, 22, 0xFFFF_FFFF]),
        inst(OP_TYPE_VOID, &[9]),
        inst(OP_TYPE_FUNCTION, &[10, 9]),
        inst(OP_FUNCTION, &[9, 30, 0, 10]),
        inst(OP_LABEL, &[31]),
        // member 1 of the struct, an element of the array, a component of the vector
        inst(OP_ACCESS_CHAIN, &[7, 40, 20, 21, 22, 21]),
        inst(OP_RETURN, &[]),
        inst(OP_FUNCTION_END, &[]),
    ])
    .unwrap();
    assert_eq!(
        *module.types.get(Token::new(3)),
        Type {
            name: None,
            inner: TypeInner::Array { base: Token::new(2), size: ArraySize::Static(8) },
        }
    );
    assert_eq!(module.constants.get(Token::new(1)).inner, ConstantInner::Sint(-1));
    let fun = module.functions.get(Token::new(0));
    assert_eq!(fun.expressions.len(), 6);
    assert_eq!(
        *fun.expressions.get(Token::new(3)),
        Expression::AccessIndex { base: Token::new(0), index: 1 }
    );
    assert_eq!(
        *fun.expressions.get(Token::new(4)),
        Expression::Access { base: Token::new(3), index: Token::new(2) }
    );
    assert_eq!(
        *fun.expressions.get(Token::new(5)),
        Expression::Access { base: Token::new(4), index: Token::new(1) }
    );
}

#[test]
fn images_and_samplers() {
    let module = decode(&[
        inst(OP_DECORATE, &[20, DEC_DESCRIPTOR_SET, 0]),
        inst(OP_DECORATE, &[20, DEC_BINDING, 0]),
        inst(OP_DECORATE, &[21, DEC_DESCRIPTOR_SET, 0]),
        inst(OP_DECORATE, &[21, DEC_BINDING, 1]),
        inst(OP_DECORATE, &[22, DEC_LOCATION, 0]),
        inst(OP_TYPE_FLOAT, &[1, 32]),
        inst(OP_TYPE_VECTOR, &[2, 1, 2]),
        inst(OP_TYPE_VECTOR, &[3, 1, 4]),
        inst(OP_TYPE_IMAGE, &[4, 1, 1, 0, 1, 0, 1, 0]),
        inst(OP_TYPE_IMAGE, &[11, 1, 6, 0, 0, 1, 0, 0, 2]),
        inst(OP_TYPE_SAMPLER, &[5]),
        inst(OP_TYPE_SAMPLED_IMAGE, &[6, 4]),
        inst(OP_TYPE_POINTER, &[7, 0, 4]),
        inst(OP_TYPE_POINTER, &[8, 0, 5]),
        inst(OP_TYPE_POINTER, &[9, CLASS_INPUT, 2]),
        inst(OP_VARIABLE, &[7, 20, 0]),
        inst(OP_VARIABLE, &[8, 21, 0]),
        inst(OP_VARIABLE, &[9, 22, CLASS_INPUT]),
        inst(OP_TYPE_VOID, &[12]),
        inst(OP_TYPE_FUNCTION, &[13, 12]),
        inst(OP_FUNCTION, &[12, 30, 0, 13]),
        inst(OP_LABEL, &[31]),
        inst(OP_LOAD, &[4, 40, 20]),
        inst(OP_LOAD, &[5, 41, 21]),
        inst(OP_LOAD, &[2, 42, 22]),
        inst(OP_SAMPLED_IMAGE, &[6, 43, 40, 41]),
        inst(OP_IMAGE_SAMPLE, &[3, 44, 43, 42]),
        inst(OP_RETURN, &[]),
        inst(OP_FUNCTION_END, &[]),
    ])
    .unwrap();
    assert_eq!(
        *module.types.get(Token::new(3)),
        Type {
            name: None,
            inner: TypeInner::Image {
                base: Token::new(0),
                dim: Dim::Dim2D,
                flags: ImageFlags {
                    arrayed: true,
                    multisampled: false,
                    sampled: true,
                    can_load: false,
                    can_store: false,
                },
            },
        }
    );
    assert_eq!(
        *module.types.get(Token::new(4)),
        Type {
            name: None,
            inner: TypeInner::Image {
                base: Token::new(0),
                dim: Dim::DimSubpassData,
                flags: ImageFlags {
                    arrayed: false,
                    multisampled: true,
                    sampled: false,
                    can_load: true,
                    can_store: true,
                },
            },
        }
    );
    assert_eq!(*module.types.get(Token::new(5)), Type { name: None, inner: TypeInner::Sampler });
    // the sampled image type adds no type of its own
    assert_eq!(module.types.len(), 9);
    let fun = module.functions.get(Token::new(0));
    assert_eq!(fun.expressions.len(), 7);
    assert_eq!(
        *fun.expressions.get(Token::new(6)),
        Expression::ImageSample {
            image: Token::new(3),
            sampler: Token::new(4),
            coordinate: Token::new(5),
        }
    );
}

#[test]
fn image_access_qualifiers() {
    for (access, can_load, can_store) in
        [(0u32, true, false), (1, false, true), (2, true, true), (3, false, false)]
    {
        let module = decode(&[
            inst(OP_TYPE_FLOAT, &[1, 32]),
            inst(OP_TYPE_IMAGE, &[4, 1, 0, 0, 0, 0, 0, 0, access]),
        ])
        .unwrap();
        assert_eq!(
            *module.types.get(Token::new(1)),
            Type {
                name: None,
                inner: TypeInner::Image {
                    base: Token::new(0),
                    dim: Dim::Dim1D,
                    flags: ImageFlags {
                        arrayed: false,
                        multisampled: false,
                        sampled: false,
                        can_load,
                        can_store,
                    },
                },
            }
        );
    }
}

#[test]
fn function_with_parameters() {
    let module = decode(&[
        inst(OP_TYPE_FLOAT, &[1, 32]),
        inst(OP_TYPE_INT, &[2, 32, 0]),
        inst(OP_TYPE_FUNCTION, &[5, 1, 1, 2]),
        inst(OP_FUNCTION, &[1, 20, 12, 5]),
        inst(OP_FUNCTION_PARAMETER, &[1, 21]),
        inst(OP_FUNCTION_PARAMETER, &[2, 22]),
        inst(OP_LABEL, &[23]),
        inst(OP_RETURN, &[]),
        inst(OP_LABEL, &[24]),
        inst(OP_RETURN, &[]),
        inst(OP_FUNCTION_END, &[]),
    ])
    .unwrap();
    let fun = module.functions.get(Token::new(0));
    assert_eq!(fun.parameter_types, vec![Token::new(0), Token::new(1)]);
    assert_eq!(fun.return_type, Some(Token::new(0)));
    assert_eq!(fun.control, FunctionControl { bits: 12 });
    assert_eq!(
        fun.body,
        vec![Statement::Return { value: None }, Statement::Return { value: None }]
    );
}

#[test]
fn runtime_array_spans_four_words() {
    // of the four words the last is left to be read as the next header
    let module = decode(&[
        inst(OP_TYPE_FLOAT, &[1, 32]),
        vec![(4 << 16) | OP_TYPE_RUNTIME_ARRAY, 2, 1],
        inst(OP_TYPE_VOID, &[3]),
    ])
    .unwrap();
    assert_eq!(
        *module.types.get(Token::new(1)),
        Type { name: None, inner: TypeInner::Array { base: Token::new(0), size: ArraySize::Dynamic } }
    );
    assert_eq!(
        decode(&[inst(OP_TYPE_FLOAT, &[1, 32]), inst(OP_TYPE_RUNTIME_ARRAY, &[2, 1])]),
        Err(Error::InvalidOperandCount(Op::TypeRuntimeArray, 3))
    );
}

#[test]
fn ext_inst_import_of_the_supported_set() {
    let module = decode(&[
        inst(OP_CAPABILITY, &[1]),
        with_text(OP_EXT_INST_IMPORT, &[1], "GLSL.std.450", &[]),
        inst(OP_MEMORY_MODEL, &[0, 1]),
    ])
    .unwrap();
    assert_eq!(module.types.len(), 0);
    assert_eq!(
        decode(&[with_text(OP_EXT_INST_IMPORT, &[1], "GLSL.std.451", &[])]),
        Err(Error::UnsupportedExtSet("GLSL.std.451".to_string()))
    );
    assert_eq!(
        decode(&[with_text(OP_EXT_INST_IMPORT, &[1], "", &[])]),
        Err(Error::UnsupportedExtSet(String::new()))
    );
}

#[test]
fn tables_give_back_what_was_stored() {
    let words = module(&[
        inst(OP_TYPE_INT, &[7, 32, 0]),
        inst(OP_TYPE_FLOAT, &[3, 64]),
        inst(OP_TYPE_VECTOR, &[0xFFFF_FFFF, 3, 2]),
        inst(OP_TYPE_STRUCT, &[9, 7, 3]),
    ]);
    let mut parser = Parser::new(words);
    let module = parser.parse().unwrap();
    assert_eq!(parser.lookup_type(7), Ok(LookupType { token: Token::new(0), base_id: None }));
    assert_eq!(parser.lookup_type(3), Ok(LookupType { token: Token::new(1), base_id: None }));
    assert_eq!(
        parser.lookup_type(0xFFFF_FFFF),
        Ok(LookupType { token: Token::new(2), base_id: Some(3) })
    );
    assert_eq!(parser.lookup_type(0), Err(Error::InvalidId(0)));
    assert_eq!(parser.member_type_id(9, 0), Some(7));
    assert_eq!(parser.member_type_id(9, 1), Some(3));
    assert_eq!(parser.member_type_id(9, 2), None);
    assert_eq!(parser.member_type_id(10, 0), None);
    assert_eq!(parser.member_type_id(0, 9), None);
    assert_eq!(*module.types.get(Token::new(1)), scalar(ScalarKind::Float, 64));
    assert_eq!(parser.remaining(), 0);
}

#[test]
fn second_parse_finds_nothing_left() {
    let mut parser = Parser::new(module(&[inst(OP_TYPE_VOID, &[1])]));
    assert!(parser.parse().is_ok());
    assert_eq!(parser.parse(), Err(Error::IncompleteData));
}

#[test]
fn words_behind_a_sample_are_left_unread() {
    let mut parts = vec![
        inst(OP_DECORATE, &[20, DEC_DESCRIPTOR_SET, 0]),
        inst(OP_DECORATE, &[20, DEC_BINDING, 0]),
        inst(OP_DECORATE, &[21, DEC_DESCRIPTOR_SET, 0]),
        inst(OP_DECORATE, &[21, DEC_BINDING, 1]),
        inst(OP_TYPE_FLOAT, &[1, 32]),
        inst(OP_TYPE_VECTOR, &[3, 1, 4]),
        inst(OP_TYPE_IMAGE, &[4, 1, 1, 0, 0, 0, 1, 0]),
        inst(OP_TYPE_SAMPLER, &[5]),
        inst(OP_TYPE_SAMPLED_IMAGE, &[6, 4]),
        inst(OP_CONSTANT, &[1, 22, 0x3f00_0000]),
        inst(OP_TYPE_POINTER, &[7, 0, 4]),
        inst(OP_TYPE_POINTER, &[8, 0, 5]),
        inst(OP_VARIABLE, &[7, 20, 0]),
        inst(OP_VARIABLE, &[8, 21, 0]),
        inst(OP_TYPE_VOID, &[12]),
        inst(OP_TYPE_FUNCTION, &[13, 12]),
        inst(OP_FUNCTION, &[12, 30, 0, 13]),
        inst(OP_LABEL, &[31]),
        inst(OP_SAMPLED_IMAGE, &[6, 43, 20, 21]),
    ];
    // the sample says that it has one word more than the four that are read:
    // that word is taken for the header of the next instruction, a return
    parts.push(vec![(6 << 16) | OP_IMAGE_SAMPLE, 3, 44, 43, 22, (1 << 16) | OP_RETURN]);
    parts.push(inst(OP_FUNCTION_END, &[]));
    let module = decode(&parts).unwrap();
    let fun = module.functions.get(Token::new(0));
    assert_eq!(fun.expressions.len(), 4);
    assert_eq!(
        *fun.expressions.get(Token::new(3)),
        Expression::ImageSample {
            image: Token::new(0),
            sampler: Token::new(1),
            coordinate: Token::new(2),
        }
    );
    assert_eq!(fun.body, vec![Statement::Return { value: None }]);
}

#[test]
fn words_behind_a_source_extension_are_left_unread() {
    // the string ends in the first of two words; the second is read as an
    // instruction of its own, a source without operands
    let module = decode(&[vec![(3 << 16) | 4, 0x0000_6261, (1 << 16) | 3], inst(3, &[1, 2, 3])]);
    assert!(module.is_ok());
    assert_eq!(
        decode(&[vec![(3 << 16) | 4, 0x0000_6261, 0]]),
        Err(Error::InvalidWordCount)
    );
}

#[test]
fn an_interface_ends_with_the_words() {
    // the entry point announces three variables, and the words end after one:
    // the module ends there, and the function that is named was never defined
    let mut words = module(&[]);
    words.extend([(8 << 16) | OP_ENTRY_POINT, 0, 9, 0x0000_0061, 5]);
    assert_eq!(Parser::new(words).parse(), Err(Error::InvalidId(9)));
    // the same holds of the parameters of a function type
    let mut words = module(&[inst(OP_TYPE_VOID, &[1])]);
    words.extend([(9 << 16) | OP_TYPE_FUNCTION, 2, 1, 1]);
    let mut parser = Parser::new(words);
    let module = parser.parse().unwrap();
    assert_eq!(module.types.len(), 0);
    assert_eq!(parser.lookup_function_type(2).unwrap().parameter_type_ids, vec![1]);
    assert_eq!(parser.lookup_function_type(2).unwrap().return_type_id, 1);
}

#[test]
fn execution_modes_and_sources_are_dropped() {
    let module = decode(&[
        inst(OP_CAPABILITY, &[1]),
        inst(OP_MEMORY_MODEL, &[0, 1]),
        with_text(OP_ENTRY_POINT, &[4, 9], "main", &[]),
        inst(16, &[9, 7]),
        inst(16, &[9, 17, 8, 8, 1]),
        inst(3, &[2, 450]),
        inst(3, &[]),
        with_text(4, &[], "GL_ARB_separate_shader_objects", &[]),
        inst(OP_TYPE_VOID, &[1]),
        inst(OP_TYPE_FUNCTION, &[2, 1]),
        inst(OP_FUNCTION, &[1, 9, 0, 2]),
        inst(OP_FUNCTION_END, &[]),
    ])
    .unwrap();
    assert_eq!(module.entry_points.len(), 1);
    assert_eq!(module.entry_points[0].name, "main");
    assert_eq!(module.entry_points[0].function, Token::new(0));
}

#[test]
fn a_redefined_id_stands_for_the_later_item() {
    let words = module(&[
        inst(OP_TYPE_INT, &[1, 32, 0]),
        inst(OP_CONSTANT, &[1, 5, 10]),
        inst(OP_CONSTANT, &[1, 5, 11]),
        inst(OP_TYPE_VOID, &[2]),
        inst(OP_TYPE_FUNCTION, &[3, 2]),
        inst(OP_FUNCTION, &[2, 4, 0, 3]),
        inst(OP_FUNCTION_END, &[]),
    ]);
    let mut parser = Parser::new(words);
    let module = parser.parse().unwrap();
    // both constants are in the module, the id stands for the second
    assert_eq!(module.constants.len(), 2);
    assert_eq!(parser.lookup_constant(5), Ok(LookupConstant { token: Token::new(1), type_id: 1 }));
    // and a function starts with one expression for the id
    let fun = module.functions.get(Token::new(0));
    assert_eq!(fun.expressions.len(), 1);
    assert_eq!(*fun.expressions.get(Token::new(0)), Expression::Constant(Token::new(1)));
}

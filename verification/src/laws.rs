//! What holds of the decoder whatever the module: statements over the model,
//! each proved from the definitions.

use crate::block::{is_integer, Body};
use crate::decoration::name_of;
use crate::error::{ErrorView, Instruction, ModuleState};
use crate::function::{
    constant_index_of, seeded, seeded_constants, seeded_variables, words_left,
};
use crate::ir::{
    Constant, ConstantInner, ConstantView, EntryPointView, Expression, ExpressionView,
    FunctionView, GlobalVariable, GlobalVariableView, ModuleView, ScalarKind, Statement,
    StructMemberView, Token, Type, TypeInnerView, TypeView,
};
use crate::model::{kept, Decoder};
use crate::parse::{decode, decoded, follows, header_at, interface_push, phase_of};
use crate::reader::{ends_text, instruction_at, may_switch, string_at, string_bytes};
use crate::state::{
    lists, lookup_in, LookupConstant, LookupExpression, LookupSampledImage, LookupType,
    LookupVariable, ParserView, RawEntryPointView,
};
use crate::types::struct_members;
use crate::values::{
    all_bound, double_size, normalized, signed_32, single_size, widened, widened_fields,
};
use crate::words::{Op, StorageClass, Word, LAST_KNOWN_OPCODE};
use vstd::arithmetic::power2::{lemma2_to64, lemma_pow2_adds, lemma_pow2_unfold, pow2};
use vstd::prelude::*;
use vstd::utf8::{decode_utf8, valid_utf8};

verus! {

/// A table gives an entry for the ids that it holds, and the error for an
/// unknown id, which names the id, for every other.
pub proof fn lookup_needs_definition<T>(table: Map<Word, T>, key: Word)
    ensures
        table.contains_key(key) ==> lookup_in(table, key) == Ok::<T, ErrorView>(table[key]),
        !table.contains_key(key) ==> lookup_in(table, key) == Err::<T, ErrorView>(
            ErrorView::InvalidId(key),
        ),
{
}

/// Looking up an id gives what was stored under it last, and storing under
/// one id changes what no other id gives.
pub proof fn lookup_after_insert<T>(table: Map<Word, T>, key: Word, entry: T, other: Word)
    ensures
        lookup_in(table.insert(key, entry), key) == Ok::<T, ErrorView>(entry),
        other != key ==> lookup_in(table.insert(key, entry), other) == lookup_in(table, other),
{
}

/// Each table of the decoder answers for its own ids alone: a type, a
/// constant, a variable or an expression that is stored is found under its
/// id, and the tables of the other kinds are as they were.
pub proof fn tables_are_apart(
    p: ParserView,
    id: Word,
    ty: LookupType,
    constant: LookupConstant,
    variable: LookupVariable,
    expression: LookupExpression,
)
    ensures
        lookup_in(p.with_type(id, ty).types, id) == Ok::<LookupType, ErrorView>(ty),
        p.with_type(id, ty) == (ParserView { types: p.with_type(id, ty).types, ..p }),
        lookup_in(p.with_constant(id, constant).constants, id) == Ok::<LookupConstant, ErrorView>(
            constant,
        ),
        p.with_constant(id, constant) == (ParserView {
            constants: p.with_constant(id, constant).constants,
            constant_ids: p.with_constant(id, constant).constant_ids,
            ..p
        }),
        lookup_in(p.with_variable(id, variable).variables, id) == Ok::<LookupVariable, ErrorView>(
            variable,
        ),
        p.with_variable(id, variable) == (ParserView {
            variables: p.with_variable(id, variable).variables,
            variable_ids: p.with_variable(id, variable).variable_ids,
            ..p
        }),
        lookup_in(p.with_expression(id, expression).expressions, id) == Ok::<
            LookupExpression,
            ErrorView,
        >(expression),
        p.with_expression(id, expression) == (ParserView {
            expressions: p.with_expression(id, expression).expressions,
            ..p
        }),
{
}

/// What is kept for a member of a struct is found under the struct's id and
/// the member's index, and under no other pair.
pub proof fn members_are_apart(
    p: ParserView,
    id: Word,
    index: Word,
    type_id: Word,
    other: (Word, Word),
)
    ensures
        p.with_member_type(id, index, type_id).member_type_ids[(id, index)] == type_id,
        other != (id, index) ==> p.with_member_type(id, index, type_id).member_type_ids.contains_key(
            other,
        ) == p.member_type_ids.contains_key(other),
        other != (id, index) && p.member_type_ids.contains_key(other) ==> p.with_member_type(
            id,
            index,
            type_id,
        ).member_type_ids[other] == p.member_type_ids[other],
{
}

/// A load or a store that is accepted names expressions that were defined
/// before, and the pointer's type is a known pointer type that is built on
/// the type of what is loaded or stored.
pub proof fn load_and_store_agree_with_pointer(b: Body, types: Seq<TypeView>, inst: Instruction)
    ensures
        b.load(types, inst) is Ok ==> {
            &&& b.p.expressions.contains_key(b.p.word(2))
            &&& b.p.types.contains_key(b.p.expressions[b.p.word(2)].type_id)
            &&& b.shape_of(types, b.p.word(2)) is Pointer
            &&& b.p.types[b.p.expressions[b.p.word(2)].type_id].base_id == Some(b.p.word(0))
        },
        b.store(types, inst) is Ok ==> {
            &&& b.p.expressions.contains_key(b.p.word(0))
            &&& b.p.expressions.contains_key(b.p.word(1))
            &&& b.p.types.contains_key(b.p.expressions[b.p.word(0)].type_id)
            &&& b.shape_of(types, b.p.word(0)) is Pointer
            &&& b.p.types[b.p.expressions[b.p.word(0)].type_id].base_id == Some(
                b.p.expressions[b.p.word(1)].type_id,
            )
        },
{
}

/// A load whose pointer was never defined is rejected with the error for an
/// unknown id, whatever else the instruction holds.
pub proof fn load_of_undefined_pointer(b: Body, types: Seq<TypeView>, inst: Instruction)
    requires
        4 <= inst.wc <= 5,
        b.p.remaining() >= inst.wc - 1,
        !b.p.expressions.contains_key(b.p.word(2)),
    ensures
        b.load(types, inst) == Err::<Body, ErrorView>(ErrorView::InvalidId(b.p.word(2))),
{
}

/// After an access chain that is accepted, its id stands for an expression
/// of the type that the instruction declares.
pub proof fn access_chain_has_declared_type(
    b: Body,
    types: Seq<TypeView>,
    constants: Seq<ConstantView>,
    inst: Instruction,
)
    ensures
        b.access_chain(types, constants, inst) matches Ok(after) ==> {
            &&& after.p.expressions.contains_key(b.p.word(1))
            &&& after.p.expressions[b.p.word(1)].type_id == b.p.word(0)
        },
{
}

/// The same holds of a composite extraction.
pub proof fn composite_extract_has_declared_type(b: Body, types: Seq<TypeView>, inst: Instruction)
    ensures
        b.composite_extract(types, inst) matches Ok(after) ==> {
            &&& after.p.expressions.contains_key(b.p.word(1))
            &&& after.p.expressions[b.p.word(1)].type_id == b.p.word(0)
        },
{
}

/// From the start of a run to its end the phase never goes back, and the
/// words are read from front to back.
pub proof fn run_follows(d: Decoder)
    ensures
        d.run() matches Ok(end) ==> follows(d.p, end.p),
    decreases words_left(d.p),
{
    if d.p.remaining() > 0 && d.run() is Ok {
        let inst = instruction_at(d.p)->Ok_0;
        let behind_header = d.with_p(d.p.advance(1));
        behind_header.step_follows(inst);
        run_follows(behind_header.step(inst)->Ok_0);
    }
}

/// An instruction that belongs to a phase that is over is rejected, and the
/// error names the phase that the decoder is in.
pub proof fn step_after_its_phase(d: Decoder, inst: Instruction)
    requires
        phase_of(inst.op) matches Some(phase) && phase.rank() < d.p.state.rank(),
    ensures
        d.step(inst) == Err::<Decoder, ErrorView>(
            ErrorView::UnsupportedInstruction(d.p.state, inst.op),
        ),
{
}

/// Each instruction before the types leaves the decoder in its own phase.
pub proof fn preamble_enters_phases(d: Decoder, inst: Instruction)
    ensures
        d.capability(inst) matches Ok(after) ==> after.p.state == ModuleState::Capability,
        d.extension(inst) matches Ok(after) ==> after.p.state == ModuleState::Extension,
        d.ext_inst_import(inst) matches Ok(after) ==> after.p.state == ModuleState::Extension,
        d.memory_model(inst) matches Ok(after) ==> after.p.state == ModuleState::MemoryModel,
        d.entry_point(inst) matches Ok(after) ==> after.p.state == ModuleState::EntryPoint,
        d.execution_mode(inst) matches Ok(after) ==> after.p.state == ModuleState::ExecutionMode,
        d.source(inst) matches Ok(after) ==> after.p.state == ModuleState::Source,
        d.source_extension(inst) matches Ok(after) ==> after.p.state == ModuleState::Source,
        d.name(inst) matches Ok(after) ==> after.p.state == ModuleState::Name,
        d.member_name(inst) matches Ok(after) ==> after.p.state == ModuleState::Name,
        d.decorate(inst) matches Ok(after) ==> after.p.state == ModuleState::Annotation,
        d.member_decorate(inst) matches Ok(after) ==> after.p.state == ModuleState::Annotation,
{
}

/// A type, a constant and a variable leave the decoder in the phase of types.
pub proof fn types_enter_phase(d: Decoder, inst: Instruction)
    ensures
        d.type_void(inst) matches Ok(after) ==> after.p.state == ModuleState::Type,
        d.type_int(inst) matches Ok(after) ==> after.p.state == ModuleState::Type,
        d.type_float(inst) matches Ok(after) ==> after.p.state == ModuleState::Type,
        d.type_vector(inst) matches Ok(after) ==> after.p.state == ModuleState::Type,
        d.type_matrix(inst) matches Ok(after) ==> after.p.state == ModuleState::Type,
        d.type_function(inst) matches Ok(after) ==> after.p.state == ModuleState::Type,
        d.type_pointer(inst) matches Ok(after) ==> after.p.state == ModuleState::Type,
        d.type_array(inst) matches Ok(after) ==> after.p.state == ModuleState::Type,
        d.type_runtime_array(inst) matches Ok(after) ==> after.p.state == ModuleState::Type,
        d.type_struct(inst) matches Ok(after) ==> after.p.state == ModuleState::Type,
        d.type_image(inst) matches Ok(after) ==> after.p.state == ModuleState::Type,
        d.type_sampled_image(inst) matches Ok(after) ==> after.p.state == ModuleState::Type,
        d.type_sampler(inst) matches Ok(after) ==> after.p.state == ModuleState::Type,
        d.constant(inst) matches Ok(after) ==> after.p.state == ModuleState::Type,
        d.variable(inst) matches Ok(after) ==> after.p.state == ModuleState::Type,
{
    let p = d.p;
    Decoder::members_follow(
        p.with_state(ModuleState::Type).advance(1),
        p.word(0),
        0,
        (inst.wc - 2) as nat,
        Seq::empty(),
    );
}

/// An instruction that is accepted leaves the decoder in the phase that it
/// belongs to, and one that belongs to none is rejected.
pub proof fn step_enters_its_phase(d: Decoder, inst: Instruction)
    ensures
        d.step(inst) matches Ok(after) ==> phase_of(inst.op) == Some(after.p.state),
        phase_of(inst.op) is None ==> d.step(inst) == Err::<Decoder, ErrorView>(
            ErrorView::UnsupportedInstruction(d.p.state, inst.op),
        ),
{
    preamble_enters_phases(d, inst);
    types_enter_phase(d, inst);
    d.function_follows(inst);
}

/// A constant of a type of 32 bits is its one word: as it stands if the type
/// is unsigned, as a number in two's complement if it is signed, and widened
/// to double precision if it is a float.
pub proof fn constant_of_32_bits(d: Decoder, inst: Instruction, kind: ScalarKind)
    requires
        inst.op == Op::Constant,
        d.p.types.contains_key(d.p.word(0)),
        d.type_of(d.p.word(0)) == (TypeInnerView::Scalar { kind, width: 32 }),
        d.step(inst) is Ok,
    ensures
        d.step(inst)->Ok_0.m.constants.len() == d.m.constants.len() + 1,
        d.step(inst)->Ok_0.m.constants.last().inner == match kind {
            ScalarKind::Uint => ConstantInner::Uint(d.p.word(2) as u64),
            ScalarKind::Sint => ConstantInner::Sint(signed_32(d.p.word(2))),
            ScalarKind::Float => ConstantInner::Float(widened(d.p.word(2))),
        },
        d.step(inst)->Ok_0.p.constants.contains_key(d.p.word(1)),
        d.step(inst)->Ok_0.p.constants[d.p.word(1)].token == Token::<Constant>::at(
            d.m.constants.len() as int,
        ),
{
}

/// Two's complement keeps a number below 2^31 as it is and takes 2^32 off
/// any other: the result has the sign that the highest bit gives.
pub proof fn signed_32_extends_sign(bits: Word)
    ensures
        -0x8000_0000 <= signed_32(bits) < 0x8000_0000,
        signed_32(bits) < 0 <==> bits >= 0x8000_0000,
        (signed_32(bits) - bits) % 0x1_0000_0000 == 0,
{
}

/// A constant of a type of more than 32 bits needs an instruction of four words.
pub proof fn wide_constant_needs_four_words(
    d: Decoder,
    inst: Instruction,
    kind: ScalarKind,
    width: u8,
)
    requires
        inst.op == Op::Constant,
        inst.wc != 4,
        width > 32,
        may_switch(d.p, ModuleState::Type),
        d.p.remaining() >= 3,
        d.p.types.contains_key(d.p.word(0)),
        d.type_of(d.p.word(0)) == (TypeInnerView::Scalar { kind, width }),
    ensures
        d.step(inst) == Err::<Decoder, ErrorView>(ErrorView::InvalidOperandCount(inst.op, inst.wc)),
{
}

/// A signed or floating-point constant of a type of less than 32 bits is rejected.
pub proof fn narrow_constant_is_rejected(d: Decoder, inst: Instruction, kind: ScalarKind, width: u8)
    requires
        inst.op == Op::Constant,
        inst.wc >= 3,
        width < 32,
        kind != ScalarKind::Uint,
        may_switch(d.p, ModuleState::Type),
        d.p.remaining() >= 3,
        d.p.types.contains_key(d.p.word(0)),
        d.type_of(d.p.word(0)) == (TypeInnerView::Scalar { kind, width }),
    ensures
        d.step(inst) == Err::<Decoder, ErrorView>(ErrorView::InvalidTypeWidth(width as Word)),
{
}

/// The entry points of the finished module are those that it had, and then
/// one for each that was read, in their order: each is what resolving gives.
pub proof fn finish_resolves_each(d: Decoder, index: nat, done: Seq<EntryPointView>)
    requires
        index <= d.p.entry_points.len(),
    ensures
        d.resolve_from(index, done) matches Ok(all) ==> {
            &&& all.len() == done.len() + d.p.entry_points.len() - index
            &&& forall|i: int| 0 <= i < done.len() ==> all[i] == done[i]
            &&& forall|i: int|
                index <= i < d.p.entry_points.len() ==> d.resolve(d.p.entry_points[i])
                    == Ok::<EntryPointView, ErrorView>(#[trigger] all[done.len() + i - index])
        },
    decreases d.p.entry_points.len() - index,
{
    if index < d.p.entry_points.len() {
        match d.resolve(d.p.entry_points[index as int]) {
            Ok(entry) => {
                finish_resolves_each(d, index + 1, done.push(entry));
                match d.resolve_from(index, done) {
                    Ok(all) => {
                        assert(all[done.len() as int] == done.push(entry)[done.len() as int]);
                        assert forall|i: int| 0 <= i < done.len() implies all[i] == done[i] by {
                            assert(done.push(entry)[i] == done[i]);
                        }
                        assert forall|i: int|
                            index <= i < d.p.entry_points.len() implies d.resolve(
                            d.p.entry_points[i],
                        ) == Ok::<EntryPointView, ErrorView>(
                            #[trigger] all[done.len() + i - index],
                        ) by {
                            if i > index {
                                assert(all[done.len() + i - index] == all[done.push(entry).len() + i
                                    - (index + 1)]);
                            }
                        }
                    },
                    Err(_) => {},
                }
            },
            Err(_) => {},
        }
    }
}

/// The entry points of a module that is accepted are those that its
/// instructions gave, in their order, each resolved against the module.
pub proof fn decoded_entry_points(words: Seq<Word>, pos: int)
    ensures
        decode(words, pos) matches Ok(m) ==> {
            &&& decoded(words, pos) matches Ok(d)
            &&& m.entry_points.len() == d.p.entry_points.len()
            &&& forall|i: int|
                0 <= i < m.entry_points.len() ==> d.resolve(d.p.entry_points[i]) == Ok::<
                    EntryPointView,
                    ErrorView,
                >(#[trigger] m.entry_points[i])
        },
{
    match decode(words, pos) {
        Ok(m) => {
            let p = ParserView::fresh(words, pos);
            let header = header_at(p)->Ok_0;
            let start = Decoder { p: p.advance(5), m: ModuleView::empty(header) };
            run_keeps_what_was_there(start);
            let d = start.run()->Ok_0;
            finish_resolves_each(d, 0, d.m.entry_points);
            assert forall|i: int| 0 <= i < m.entry_points.len() implies d.resolve(
                d.p.entry_points[i],
            ) == Ok::<EntryPointView, ErrorView>(#[trigger] m.entry_points[i]) by {
                assert(m.entry_points[i] == m.entry_points[0 + i - 0]);
            }
        },
        Err(_) => {},
    }
}

/// Of no ids at all, no variable is part of the interface. Together with
/// `interface_push` this says what the inputs and the outputs of an entry
/// point are: the variables of the input class among those that it names,
/// in the order in which it names them, and those of the output class.
pub proof fn interface_of_none(d: Decoder, class: StorageClass)
    ensures
        d.interface(Seq::empty(), class) == Seq::<Token<GlobalVariable>>::empty(),
{
    reveal(Seq::filter);
    let pred = |id: Word| d.class_of(id) == class;
    assert(Seq::<Word>::empty().filter(pred) =~= Seq::<Word>::empty());
}

/// Where no id from `index` on has a fault, none of them is unknown and each
/// is of the input or the output class.
pub proof fn no_fault_in_any(d: Decoder, ids: Seq<Word>, index: nat, j: int)
    requires
        d.first_fault(ids, index) is None,
        index <= j < ids.len(),
    ensures
        d.interface_fault(ids[j]) is None,
    decreases ids.len() - index,
{
    if index < j {
        no_fault_in_any(d, ids, index + 1, j);
    }
}

/// Where the ids of an entry point are accepted, each of the first `n` is
/// among the inputs or among the outputs, and in one of the two only.
pub proof fn interface_takes_each_once(d: Decoder, ids: Seq<Word>, n: nat)
    requires
        d.first_fault(ids, 0) is None,
        n <= ids.len(),
    ensures
        d.interface(ids.take(n as int), StorageClass::Input).len() + d.interface(
            ids.take(n as int),
            StorageClass::Output,
        ).len() == n,
    decreases n,
{
    if n == 0 {
        assert(ids.take(0) =~= Seq::<Word>::empty());
        interface_of_none(d, StorageClass::Input);
        interface_of_none(d, StorageClass::Output);
    } else {
        interface_takes_each_once(d, ids, (n - 1) as nat);
        no_fault_in_any(d, ids, 0, n - 1);
        let before = ids.take(n - 1);
        assert(before.push(ids[n - 1]) =~= ids.take(n as int));
        interface_push(d, before, ids[n - 1], StorageClass::Input);
        interface_push(d, before, ids[n - 1], StorageClass::Output);
    }
}

/// A module that is accepted has read every word that it was given.
pub proof fn run_reads_all(d: Decoder)
    ensures
        d.run() matches Ok(end) ==> end.p.remaining() <= 0,
    decreases words_left(d.p),
{
    if d.p.remaining() > 0 && d.run() is Ok {
        let inst = instruction_at(d.p)->Ok_0;
        let behind_header = d.with_p(d.p.advance(1));
        behind_header.step_follows(inst);
        run_reads_all(behind_header.step(inst)->Ok_0);
    }
}

/// An instruction of a function that is accepted names, where it names an
/// expression, one that was defined before, and the sampled image that is
/// sampled is one that was made before.
pub proof fn operands_of_accepted_were_defined(
    b: Body,
    types: Seq<TypeView>,
    constants: Seq<ConstantView>,
    inst: Instruction,
)
    requires
        b.instruction(types, constants, inst) is Ok,
    ensures
        inst.op == Op::AccessChain || inst.op == Op::CompositeExtract || inst.op == Op::Load
            ==> b.p.expressions.contains_key(b.p.word(2)),
        inst.op == Op::Store ==> b.p.expressions.contains_key(b.p.word(0))
            && b.p.expressions.contains_key(b.p.word(1)),
        inst.op == Op::VectorTimesScalar || inst.op == Op::MatrixTimesVector || inst.op
            == Op::SampledImage ==> b.p.expressions.contains_key(b.p.word(2))
            && b.p.expressions.contains_key(b.p.word(3)),
        inst.op == Op::VectorTimesScalar || inst.op == Op::MatrixTimesVector || inst.op
            == Op::CompositeConstruct ==> b.p.types.contains_key(b.p.word(0)),
        inst.op == Op::ImageSampleImplicitLod ==> b.p.sampled_images.contains_key(b.p.word(2))
            && b.p.expressions.contains_key(b.p.word(3)),
{
}

/// A type, a constant or a variable that is accepted is built on a type that
/// was defined before.
pub proof fn types_of_accepted_were_defined(d: Decoder, inst: Instruction)
    requires
        d.step(inst) is Ok,
    ensures
        inst.op == Op::TypeVector || inst.op == Op::TypeMatrix || inst.op == Op::TypeArray
            || inst.op == Op::TypeRuntimeArray || inst.op == Op::TypeImage || inst.op
            == Op::TypeSampledImage ==> d.p.types.contains_key(d.p.word(1)),
        inst.op == Op::TypePointer ==> d.p.types.contains_key(d.p.word(2)),
        inst.op == Op::Constant || inst.op == Op::SpecConstant || inst.op == Op::Variable
            ==> d.p.types.contains_key(d.p.word(0)),
        inst.op == Op::Function ==> d.p.function_types.contains_key(d.p.word(3)),
{
}

/// A pointer to a type that was never defined is rejected with the error
/// for an unknown id.
pub proof fn pointer_to_undefined_type(d: Decoder, inst: Instruction)
    requires
        inst.op == Op::TypePointer,
        inst.wc == 4,
        may_switch(d.p, ModuleState::Type),
        d.p.remaining() >= 3,
        !d.p.types.contains_key(d.p.word(2)),
    ensures
        d.step(inst) == Err::<Decoder, ErrorView>(ErrorView::InvalidId(d.p.word(2))),
{
}

/// A header that gives its instruction no words at all is rejected, and so
/// is one whose code lies beyond the last known one.
pub proof fn header_limits(p: ParserView)
    requires
        p.remaining() > 0,
    ensures
        p.word(0) < 0x1_0000 ==> instruction_at(p) == Err::<Instruction, ErrorView>(
            ErrorView::InvalidWordCount,
        ),
        p.word(0) >= 0x1_0000 && p.word(0) % 0x1_0000 > LAST_KNOWN_OPCODE
            ==> instruction_at(p) == Err::<Instruction, ErrorView>(
            ErrorView::UnknownInstruction((p.word(0) % 0x1_0000) as u16),
        ),
        instruction_at(p) matches Ok(inst) ==> inst.wc >= 1 && inst.op.code() == p.word(0)
            % 0x1_0000 && inst.wc == p.word(0) / 0x1_0000,
{
}

/// A string whose words are all there, none of them with a zero byte, has
/// no end within its instruction and is rejected.
pub proof fn string_without_end(words: Seq<Word>, pos: int, count: nat)
    requires
        0 <= pos,
        pos + count <= words.len(),
        forall|i: int| pos <= i < pos + count ==> !ends_text(#[trigger] words[i]),
    ensures
        string_bytes(words, pos, count) == Err::<(Seq<u8>, int), ErrorView>(
            ErrorView::BadString,
        ),
    decreases count,
{
    if count > 0 {
        string_without_end(words, pos + 1, (count - 1) as nat);
    }
}

/// A string whose bytes are not valid UTF-8 is rejected; one whose bytes are
/// is read as the characters that they encode.
pub proof fn string_must_be_utf8(p: ParserView, count: nat)
    ensures
        string_bytes(p.words, p.pos, count) matches Ok((bytes, used)) ==> {
            if valid_utf8(bytes) {
                string_at(p, count) == Ok::<(Seq<char>, int), ErrorView>(
                    (decode_utf8(bytes), used),
                )
            } else {
                string_at(p, count) == Err::<(Seq<char>, int), ErrorView>(
                    ErrorView::BadString,
                )
            }
        },
{
}

/// Doubling a fraction until its leading bit is set keeps its size: the
/// fraction with that bit, times two to the power of what the exponent has
/// left above 874, is what it was.
pub proof fn normalizing_keeps_size(exponent: int, fraction: int)
    requires
        874 <= exponent,
        0 < fraction < 0x100_0000,
        fraction * pow2((exponent - 874) as nat) >= 0x80_0000,
    ensures
        874 <= normalized(exponent, fraction).0 <= exponent,
        0 <= normalized(exponent, fraction).1 < 0x80_0000,
        (normalized(exponent, fraction).1 + 0x80_0000) * pow2(
            (normalized(exponent, fraction).0 - 874) as nat,
        ) == fraction * pow2((exponent - 874) as nat),
    decreases 0x100_0000 - fraction,
{
    if fraction < 0x80_0000 {
        let k = (exponent - 874) as nat;
        lemma2_to64();
        if k == 0 {
            assert(fraction * pow2(0) == fraction);
        }
        lemma_pow2_unfold(k);
        let half = pow2((k - 1) as nat);
        assert(fraction * (2 * half) == (fraction * 2) * half) by (nonlinear_arith);
        normalizing_keeps_size(exponent - 1, fraction * 2);
    }
}

/// Widening keeps the sign and, of a finite number, the size: the double
/// has, in its units of 2^-1074, 2^925 times what the single has in its
/// units of 2^-149. An infinity stays an infinity and a NaN a NaN.
pub proof fn widening_keeps_value(bits: Word)
    ensures
        widened(bits) / 0x8000_0000_0000_0000 == bits / 0x8000_0000,
        bits / 0x80_0000 % 0x100 != 0xff ==> {
            &&& widened(bits) / 0x10_0000_0000_0000 % 0x800 != 0x7ff
            &&& double_size(widened(bits)) == single_size(bits) * pow2(925)
        },
        bits / 0x80_0000 % 0x100 == 0xff ==> {
            &&& widened(bits) / 0x10_0000_0000_0000 % 0x800 == 0x7ff
            &&& (widened(bits) % 0x10_0000_0000_0000 == 0 <==> bits % 0x80_0000 == 0)
        },
{
    let sign = (bits / 0x8000_0000) as int;
    let exponent = (bits / 0x80_0000 % 0x100) as int;
    let fraction = (bits % 0x80_0000) as int;
    let (e, f) = widened_fields(exponent, fraction);
    lemma2_to64();
    if exponent == 0 && fraction != 0 {
        assert(fraction * pow2(23) >= 0x80_0000) by (nonlinear_arith)
            requires
                fraction >= 1,
                pow2(23) == 0x80_0000,
        ;
        normalizing_keeps_size(897, fraction);
    }
    assert(0 <= e < 0x800 && 0 <= f < 0x10_0000_0000_0000);
    let wide = sign * 0x8000_0000_0000_0000 + e * 0x10_0000_0000_0000 + f;
    assert(widened(bits) == wide);
    assert(wide / 0x10_0000_0000_0000 == sign * 0x800 + e);
    assert(wide % 0x10_0000_0000_0000 == f);
    if exponent != 0xff {
        if exponent == 0 {
            if fraction != 0 {
                let (n, g) = normalized(897, fraction);
                // (g + 2^23) * 2^(n - 874) == fraction * 2^23
                let low = pow2((n - 874) as nat);
                lemma_pow2_adds((n - 874) as nat, 873);
                lemma_pow2_adds(23, 902);
                lemma_pow2_adds(29, 873);
                assert(pow2(902) == 0x2000_0000 * pow2(873));
                assert((0x10_0000_0000_0000 + g * 0x2000_0000) * (low * pow2(873)) == fraction * (
                pow2(23) * (0x2000_0000 * pow2(873)))) by (nonlinear_arith)
                    requires
                        (g + 0x80_0000) * low == fraction * pow2(23),
                ;
            } else {
                assert(0 * pow2(925) == 0);
            }
        } else {
            lemma_pow2_adds((exponent - 1) as nat, 896);
            lemma_pow2_adds(29, 896);
            let low = pow2((exponent - 1) as nat);
            assert((0x10_0000_0000_0000 + fraction * 0x2000_0000) * (low * pow2(896)) == ((0x80_0000
                + fraction) * low) * (0x2000_0000 * pow2(896))) by (nonlinear_arith);
        }
    }
}

/// The second sequence is the first, or the first with one item more.
pub open spec fn grown<T>(before: Seq<T>, after: Seq<T>) -> bool {
    after == before || (after.len() == before.len() + 1 && after == before.push(after.last()))
}

/// Each store of the second module holds what that of the first holds, or
/// one item more behind that. The header and the entry points are the same.
pub open spec fn only_appended(before: ModuleView, after: ModuleView) -> bool {
    &&& after.header == before.header
    &&& grown(before.types, after.types)
    &&& grown(before.constants, after.constants)
    &&& grown(before.global_variables, after.global_variables)
    &&& grown(before.functions, after.functions)
    &&& after.entry_points == before.entry_points
}

/// The instructions before the types leave the module as it is.
pub proof fn preamble_leaves_module(d: Decoder, inst: Instruction)
    ensures
        d.capability(inst) matches Ok(after) ==> after.m == d.m,
        d.extension(inst) matches Ok(after) ==> after.m == d.m,
        d.ext_inst_import(inst) matches Ok(after) ==> after.m == d.m,
        d.memory_model(inst) matches Ok(after) ==> after.m == d.m,
        d.entry_point(inst) matches Ok(after) ==> after.m == d.m,
        d.execution_mode(inst) matches Ok(after) ==> after.m == d.m,
        d.source(inst) matches Ok(after) ==> after.m == d.m,
        d.source_extension(inst) matches Ok(after) ==> after.m == d.m,
        d.name(inst) matches Ok(after) ==> after.m == d.m,
        d.member_name(inst) matches Ok(after) ==> after.m == d.m,
        d.decorate(inst) matches Ok(after) ==> after.m == d.m,
        d.member_decorate(inst) matches Ok(after) ==> after.m == d.m,
{
}

/// A type instruction adds one type or none, and nothing else.
pub proof fn types_only_append(d: Decoder, inst: Instruction)
    ensures
        d.type_void(inst) matches Ok(after) ==> only_appended(d.m, after.m),
        d.type_int(inst) matches Ok(after) ==> only_appended(d.m, after.m),
        d.type_float(inst) matches Ok(after) ==> only_appended(d.m, after.m),
        d.type_vector(inst) matches Ok(after) ==> only_appended(d.m, after.m),
        d.type_matrix(inst) matches Ok(after) ==> only_appended(d.m, after.m),
        d.type_function(inst) matches Ok(after) ==> only_appended(d.m, after.m),
        d.type_pointer(inst) matches Ok(after) ==> only_appended(d.m, after.m),
        d.type_array(inst) matches Ok(after) ==> only_appended(d.m, after.m),
        d.type_runtime_array(inst) matches Ok(after) ==> only_appended(d.m, after.m),
        d.type_struct(inst) matches Ok(after) ==> only_appended(d.m, after.m),
        d.type_image(inst) matches Ok(after) ==> only_appended(d.m, after.m),
        d.type_sampled_image(inst) matches Ok(after) ==> only_appended(d.m, after.m),
        d.type_sampler(inst) matches Ok(after) ==> only_appended(d.m, after.m),
{
}

/// A constant, a variable and a function add one item each, and nothing else.
pub proof fn values_only_append(d: Decoder, inst: Instruction)
    ensures
        d.constant(inst) matches Ok(after) ==> only_appended(d.m, after.m),
        d.variable(inst) matches Ok(after) ==> only_appended(d.m, after.m),
        d.function(inst) matches Ok(after) ==> only_appended(d.m, after.m),
{
}

/// An instruction adds to the module and changes nothing that is there, so
/// that the handles that were given out stand for what they stood for.
pub proof fn step_only_appends(d: Decoder, inst: Instruction)
    ensures
        d.step(inst) matches Ok(after) ==> only_appended(d.m, after.m),
{
    preamble_leaves_module(d, inst);
    types_only_append(d, inst);
    values_only_append(d, inst);
}

/// Whatever the module holds at some point of a run, it holds at the end of
/// the run, under the same handles.
pub proof fn run_keeps_what_was_there(d: Decoder)
    ensures
        d.run() matches Ok(end) ==> {
            &&& end.m.header == d.m.header
            &&& kept(d.m.types, end.m.types)
            &&& kept(d.m.constants, end.m.constants)
            &&& kept(d.m.global_variables, end.m.global_variables)
            &&& kept(d.m.functions, end.m.functions)
            &&& end.m.entry_points == d.m.entry_points
        },
    decreases words_left(d.p),
{
    if d.p.remaining() > 0 && d.run() is Ok {
        let inst = instruction_at(d.p)->Ok_0;
        let behind_header = d.with_p(d.p.advance(1));
        behind_header.step_follows(inst);
        step_only_appends(behind_header, inst);
        run_keeps_what_was_there(behind_header.step(inst)->Ok_0);
    }
}

/// Behind a function nothing of its expressions is left in the tables.
pub proof fn function_leaves_no_expressions(d: Decoder, inst: Instruction)
    ensures
        d.function(inst) matches Ok(after) ==> after.p.expressions == Map::<
            Word,
            LookupExpression,
        >::empty() && after.p.sampled_images == Map::<
            Word,
            LookupSampledImage,
        >::empty(),
{
}

/// A product that is accepted is one of floats of one width: a vector
/// times a scalar gives a vector of the same size, and a matrix times a
/// vector of as many components as it has columns gives a vector of as many
/// as it has rows.
pub proof fn products_agree(b: Body, types: Seq<TypeView>, inst: Instruction)
    ensures
        b.vector_times_scalar(types, inst) is Ok ==> {
            &&& b.shape(types, b.p.word(0)) matches TypeInnerView::Vector {
                size,
                kind: ScalarKind::Float,
                width,
            }
            &&& b.shape_of(types, b.p.word(2)) == b.shape(types, b.p.word(0))
            &&& b.shape_of(types, b.p.word(3)) == (TypeInnerView::Scalar {
                kind: ScalarKind::Float,
                width,
            })
        },
        b.matrix_times_vector(types, inst) is Ok ==> {
            &&& b.shape(types, b.p.word(0)) matches TypeInnerView::Vector {
                size,
                kind: ScalarKind::Float,
                width,
            }
            &&& b.shape_of(types, b.p.word(2)) matches TypeInnerView::Matrix {
                columns,
                rows,
                kind: ScalarKind::Float,
                width: matrix_width,
            }
            &&& rows == size
            &&& matrix_width == width
            &&& b.shape_of(types, b.p.word(3)) == (TypeInnerView::Vector {
                size: columns,
                kind: ScalarKind::Float,
                width,
            })
        },
{
}

/// A variable that points to a struct of inputs or of outputs needs nothing
/// kept for its id: it is accepted without a binding if every member of the
/// struct has one, and rejected if one has none.
pub proof fn variable_of_bound_struct(
    d: Decoder,
    inst: Instruction,
    base: Token<Type>,
    class: StorageClass,
    members: Seq<StructMemberView>,
)
    requires
        inst.op == Op::Variable,
        may_switch(d.p, ModuleState::Type),
        4 <= inst.wc <= 5,
        d.p.remaining() >= inst.wc - 1,
        d.p.types.contains_key(d.p.word(0)),
        d.type_of(d.p.word(0)) == (TypeInnerView::Pointer { base, class }),
        class == StorageClass::Input || class == StorageClass::Output,
        d.m.types[base.index as int].inner == (TypeInnerView::Struct { members }),
        StorageClass::of_word(d.p.word(2)) is Some,
    ensures
        all_bound(members) ==> (d.step(inst) matches Ok(after) && after.m.global_variables
            == d.m.global_variables.push(
            GlobalVariableView {
                name: name_of(d.p.decor(d.p.word(1))),
                class: StorageClass::of_word(d.p.word(2))->0,
                binding: None,
                ty: d.p.types[d.p.word(0)].token,
            },
        )),
        !all_bound(members) ==> d.step(inst) == Err::<Decoder, ErrorView>(
            ErrorView::InvalidBinding(d.p.word(1)),
        ),
{
}

/// Any other variable needs a binding of its own, and is rejected where
/// nothing was kept for its id.
pub proof fn variable_without_record(d: Decoder, inst: Instruction)
    requires
        inst.op == Op::Variable,
        may_switch(d.p, ModuleState::Type),
        4 <= inst.wc <= 5,
        d.p.remaining() >= inst.wc - 1,
        d.p.types.contains_key(d.p.word(0)),
        d.p.decor(d.p.word(1)) is None,
        !(d.type_of(d.p.word(0)) matches TypeInnerView::Pointer { base, class } && (class
            == StorageClass::Input || class == StorageClass::Output)
            && d.m.types[base.index as int].inner is Struct),
    ensures
        d.step(inst) == Err::<Decoder, ErrorView>(ErrorView::InvalidBinding(d.p.word(1))),
{
}

/// An instruction of a function whose words are all there is rejected with
/// the error for an unknown id, which names the id, where an expression
/// that it names was never defined and the operands before that one are in
/// order. The same holds of a sampled image and of the type of a result.
pub proof fn undefined_operand_is_rejected(
    b: Body,
    types: Seq<TypeView>,
    constants: Seq<ConstantView>,
    inst: Instruction,
)
    requires
        inst.wc >= 1,
        b.p.remaining() >= inst.wc - 1,
    ensures
        inst.wc >= 4 && !b.p.expressions.contains_key(b.p.word(2)) ==> b.access_chain(
            types,
            constants,
            inst,
        ) == Err::<Body, ErrorView>(ErrorView::InvalidId(b.p.word(2))) && b.composite_extract(
            types,
            inst,
        ) == Err::<Body, ErrorView>(ErrorView::InvalidId(b.p.word(2))),
        4 <= inst.wc <= 5 && !b.p.expressions.contains_key(b.p.word(2)) ==> b.load(types, inst)
            == Err::<Body, ErrorView>(ErrorView::InvalidId(b.p.word(2))),
        3 <= inst.wc <= 4 && !b.p.expressions.contains_key(b.p.word(0)) ==> b.store(types, inst)
            == Err::<Body, ErrorView>(ErrorView::InvalidId(b.p.word(0))),
        3 <= inst.wc <= 4 && b.operand_error(b.p.word(0)) is None && b.shape_of(
            types,
            b.p.word(0),
        ) is Pointer && !b.p.expressions.contains_key(b.p.word(1)) ==> b.store(types, inst)
            == Err::<Body, ErrorView>(ErrorView::InvalidId(b.p.word(1))),
        inst.wc == 5 && !b.p.types.contains_key(b.p.word(0)) ==> b.vector_times_scalar(
            types,
            inst,
        ) == Err::<Body, ErrorView>(ErrorView::InvalidId(b.p.word(0))) && b.matrix_times_vector(
            types,
            inst,
        ) == Err::<Body, ErrorView>(ErrorView::InvalidId(b.p.word(0))),
        inst.wc == 5 && b.p.types.contains_key(b.p.word(0)) && is_float_vector(
            b.shape(types, b.p.word(0)),
        ) && !b.p.expressions.contains_key(b.p.word(2)) ==> b.vector_times_scalar(types, inst)
            == Err::<Body, ErrorView>(ErrorView::InvalidId(b.p.word(2))) && b.matrix_times_vector(
            types,
            inst,
        ) == Err::<Body, ErrorView>(ErrorView::InvalidId(b.p.word(2))),
        inst.wc == 5 && b.p.types.contains_key(b.p.word(0)) && b.operand_error(b.p.word(2))
            is None && b.shape_of(types, b.p.word(2)) == b.shape(types, b.p.word(0))
            && is_float_vector(b.shape(types, b.p.word(0))) && !b.p.expressions.contains_key(
            b.p.word(3),
        ) ==> b.vector_times_scalar(types, inst) == Err::<Body, ErrorView>(
            ErrorView::InvalidId(b.p.word(3)),
        ),
        inst.wc == 5 && !b.p.expressions.contains_key(b.p.word(2)) ==> b.sampled_image(inst)
            == Err::<Body, ErrorView>(ErrorView::InvalidId(b.p.word(2))),
        inst.wc == 5 && b.p.expressions.contains_key(b.p.word(2))
            && !b.p.expressions.contains_key(b.p.word(3)) ==> b.sampled_image(inst) == Err::<
            Body,
            ErrorView,
        >(ErrorView::InvalidId(b.p.word(3))),
        inst.wc >= 5 && !b.p.sampled_images.contains_key(b.p.word(2)) ==> b.image_sample(
            types,
            inst,
        ) == Err::<Body, ErrorView>(ErrorView::InvalidId(b.p.word(2))),
        inst.wc >= 5 && b.p.sampled_images.contains_key(b.p.word(2))
            && !b.p.expressions.contains_key(b.p.word(3)) ==> b.image_sample(types, inst) == Err::<
            Body,
            ErrorView,
        >(ErrorView::InvalidId(b.p.word(3))),
{
}

/// The shape is that of a vector of floats.
pub open spec fn is_float_vector(inner: TypeInnerView) -> bool {
    inner matches TypeInnerView::Vector { kind, .. } && kind == ScalarKind::Float
}

/// The second operand of a matrix product that was never defined is
/// rejected where the matrix is in order.
pub proof fn undefined_vector_of_product_is_rejected(
    b: Body,
    types: Seq<TypeView>,
    inst: Instruction,
)
    requires
        inst.wc == 5,
        b.p.remaining() >= 4,
        b.matrix_times_vector(types, inst) != Err::<Body, ErrorView>(
            ErrorView::UnsupportedType(b.type_token_of(b.p.word(2))),
        ),
        b.p.types.contains_key(b.p.word(0)),
        is_float_vector(b.shape(types, b.p.word(0))),
        b.operand_error(b.p.word(2)) is None,
        !b.p.expressions.contains_key(b.p.word(3)),
    ensures
        b.matrix_times_vector(types, inst) == Err::<Body, ErrorView>(
            ErrorView::InvalidId(b.p.word(3)),
        ),
{
}

/// An expression whose type was never defined is rejected as an operand,
/// with the error that names the id of the type.
pub proof fn operand_of_undefined_type_is_rejected(
    b: Body,
    types: Seq<TypeView>,
    constants: Seq<ConstantView>,
    inst: Instruction,
)
    requires
        inst.wc >= 1,
        b.p.remaining() >= inst.wc - 1,
    ensures
        b.p.expressions.contains_key(b.p.word(2)) && !b.p.types.contains_key(
            b.p.expressions[b.p.word(2)].type_id,
        ) ==> {
            &&& inst.wc >= 4 ==> b.access_chain(types, constants, inst) == Err::<Body, ErrorView>(
                ErrorView::InvalidId(b.p.expressions[b.p.word(2)].type_id),
            )
            &&& 4 <= inst.wc <= 5 ==> b.load(types, inst) == Err::<Body, ErrorView>(
                ErrorView::InvalidId(b.p.expressions[b.p.word(2)].type_id),
            )
        },
        3 <= inst.wc <= 4 && b.p.expressions.contains_key(b.p.word(0))
            && !b.p.types.contains_key(b.p.expressions[b.p.word(0)].type_id) ==> b.store(
            types,
            inst,
        ) == Err::<Body, ErrorView>(ErrorView::InvalidId(b.p.expressions[b.p.word(0)].type_id)),
        inst.wc >= 5 && b.p.sampled_images.contains_key(b.p.word(2))
            && b.p.expressions.contains_key(b.p.word(3)) && !b.p.types.contains_key(
            b.p.expressions[b.p.word(3)].type_id,
        ) ==> b.image_sample(types, inst) == Err::<Body, ErrorView>(
            ErrorView::InvalidId(b.p.expressions[b.p.word(3)].type_id),
        ),
{
}

/// In a walk, an index that was never defined is rejected, and so is a
/// type that the walk has come to and that was never defined.
pub proof fn undefined_in_walk_is_rejected(
    b: Body,
    types: Seq<TypeView>,
    constants: Seq<ConstantView>,
    base: Token<Expression>,
    type_id: Word,
    left: nat,
)
    requires
        left > 0,
        b.p.remaining() >= 1,
    ensures
        !b.p.expressions.contains_key(b.p.word(0)) ==> b.walk(
            types,
            constants,
            base,
            type_id,
            left,
        ) == Err::<(Body, Token<Expression>), ErrorView>(ErrorView::InvalidId(b.p.word(0))),
        b.operand_error(b.p.word(0)) is None && is_integer(b.shape_of(types, b.p.word(0)))
            && !b.p.types.contains_key(type_id) ==> b.walk(types, constants, base, type_id, left)
            == Err::<(Body, Token<Expression>), ErrorView>(ErrorView::InvalidId(type_id)),
        !b.p.types.contains_key(type_id) ==> b.extract(types, base, type_id, left) == Err::<
            (Body, Token<Expression>),
            ErrorView,
        >(ErrorView::InvalidId(type_id)),
{
}

/// A component that was never defined is rejected, and so is the type of a
/// composite that was never defined.
pub proof fn undefined_component_is_rejected(
    b: Body,
    inst: Instruction,
    p: ParserView,
    left: nat,
    done: Seq<Token<Expression>>,
)
    ensures
        left > 0 && p.remaining() >= 1 && !p.expressions.contains_key(p.word(0))
            ==> Body::components(p, left, done) == Err::<Seq<Token<Expression>>, ErrorView>(
            ErrorView::InvalidId(p.word(0)),
        ),
        inst.wc >= 3 && b.p.remaining() >= 2 && Body::components(
            b.p.advance(2),
            (inst.wc - 3) as nat,
            Seq::empty(),
        ) is Ok && !b.p.types.contains_key(b.p.word(0)) ==> b.composite_construct(inst) == Err::<
            Body,
            ErrorView,
        >(ErrorView::InvalidId(b.p.word(0))),
{
}

/// A type, a constant, a variable or a function whose words are all there
/// is rejected with the error for an unknown id where the type that it is
/// built on was never defined.
pub proof fn undefined_type_is_rejected(d: Decoder, inst: Instruction)
    requires
        inst.wc >= 1,
        d.p.remaining() >= inst.wc - 1,
    ensures
        may_switch(d.p, ModuleState::Type) && inst.wc == 4 && !d.p.types.contains_key(
            d.p.word(1),
        ) ==> {
            &&& d.type_vector(inst) == Err::<Decoder, ErrorView>(ErrorView::InvalidId(d.p.word(1)))
            &&& d.type_matrix(inst) == Err::<Decoder, ErrorView>(ErrorView::InvalidId(d.p.word(1)))
            &&& d.type_array(inst) == Err::<Decoder, ErrorView>(ErrorView::InvalidId(d.p.word(1)))
            &&& d.type_runtime_array(inst) == Err::<Decoder, ErrorView>(
                ErrorView::InvalidId(d.p.word(1)),
            )
        },
        may_switch(d.p, ModuleState::Type) && inst.wc == 4 && !d.p.types.contains_key(
            d.p.word(2),
        ) ==> d.type_pointer(inst) == Err::<Decoder, ErrorView>(ErrorView::InvalidId(d.p.word(2))),
        may_switch(d.p, ModuleState::Type) && 9 <= inst.wc <= 10 && !d.p.types.contains_key(
            d.p.word(1),
        ) ==> d.type_image(inst) == Err::<Decoder, ErrorView>(ErrorView::InvalidId(d.p.word(1))),
        may_switch(d.p, ModuleState::Type) && inst.wc == 3 && !d.p.types.contains_key(
            d.p.word(1),
        ) ==> d.type_sampled_image(inst) == Err::<Decoder, ErrorView>(
            ErrorView::InvalidId(d.p.word(1)),
        ),
        may_switch(d.p, ModuleState::Type) && inst.wc >= 3 && !d.p.types.contains_key(
            d.p.word(0),
        ) ==> d.constant(inst) == Err::<Decoder, ErrorView>(ErrorView::InvalidId(d.p.word(0))),
        may_switch(d.p, ModuleState::Type) && 4 <= inst.wc <= 5 && !d.p.types.contains_key(
            d.p.word(0),
        ) ==> d.variable(inst) == Err::<Decoder, ErrorView>(ErrorView::InvalidId(d.p.word(0))),
        may_switch(d.p, ModuleState::Function) && inst.wc == 5
            && !d.p.function_types.contains_key(d.p.word(3)) ==> d.function(inst) == Err::<
            Decoder,
            ErrorView,
        >(ErrorView::InvalidId(d.p.word(3))),
{
}

/// The type of a member of a struct that was never defined is rejected.
pub proof fn undefined_member_type_is_rejected(
    p: ParserView,
    id: Word,
    index: nat,
    count: nat,
    done: Seq<StructMemberView>,
)
    requires
        index < count,
        p.remaining() >= 1,
        !p.types.contains_key(p.word(0)),
    ensures
        struct_members(p, id, index, count, done) == Err::<
            (ParserView, Seq<StructMemberView>),
            ErrorView,
        >(ErrorView::InvalidId(p.word(0))),
{
}

/// An entry point that names a function or a variable that was never
/// defined is rejected.
pub proof fn undefined_in_entry_point_is_rejected(d: Decoder, raw: RawEntryPointView, index: nat)
    ensures
        !d.p.functions.contains_key(raw.function_id) ==> d.resolve(raw) == Err::<
            EntryPointView,
            ErrorView,
        >(ErrorView::InvalidId(raw.function_id)),
        index < raw.variable_ids.len() && !d.p.variables.contains_key(
            raw.variable_ids[index as int],
        ) ==> d.first_fault(raw.variable_ids, index) == Some(
            ErrorView::InvalidId(raw.variable_ids[index as int]),
        ),
{
}

/// The second function is the first with expressions and statements
/// added behind those that were there.
pub open spec fn continued(before: FunctionView, after: FunctionView) -> bool {
    &&& after == (FunctionView { expressions: after.expressions, body: after.body, ..before })
    &&& kept(before.expressions, after.expressions)
    &&& kept(before.body, after.body)
}

/// A walk adds expressions behind those that are there and no statement.
pub proof fn walk_continues(
    b: Body,
    types: Seq<TypeView>,
    constants: Seq<ConstantView>,
    base: Token<Expression>,
    type_id: Word,
    left: nat,
)
    ensures
        b.walk(types, constants, base, type_id, left) matches Ok((after, _)) ==> continued(
            b.f,
            after.f,
        ) && after.f.body == b.f.body,
    decreases left,
{
    if left > 0 && b.walk(types, constants, base, type_id, left) is Ok {
        let p = b.p;
        if b.shape(types, type_id) is Struct {
            let index = constant_index_of(b, constants);
            walk_continues(
                b.advance(1).push(ExpressionView::AccessIndex { base, index }),
                types,
                constants,
                b.next_token(),
                p.member_type_ids[(type_id, index)],
                (left - 1) as nat,
            );
        } else {
            walk_continues(
                b.advance(1).push(
                    ExpressionView::Access { base, index: p.expressions[p.word(0)].token },
                ),
                types,
                constants,
                b.next_token(),
                p.types[type_id].base_id->0,
                (left - 1) as nat,
            );
        }
    }
}

/// An extraction adds expressions behind those that are there and no
/// statement.
pub proof fn extract_continues(
    b: Body,
    types: Seq<TypeView>,
    base: Token<Expression>,
    type_id: Word,
    left: nat,
)
    ensures
        b.extract(types, base, type_id, left) matches Ok((after, _)) ==> continued(b.f, after.f)
            && after.f.body == b.f.body,
    decreases left,
{
    if left > 0 && b.extract(types, base, type_id, left) is Ok {
        let p = b.p;
        let part_id = if b.shape(types, type_id) is Struct {
            p.member_type_ids[(type_id, p.word(0))]
        } else {
            p.types[type_id].base_id->0
        };
        extract_continues(
            b.advance(1).push(ExpressionView::AccessIndex { base, index: p.word(0) }),
            types,
            b.next_token(),
            part_id,
            (left - 1) as nat,
        );
    }
}

/// An instruction of a block adds to the function behind what is there:
/// expressions, and one statement at most, which is a store.
pub proof fn instruction_continues(
    b: Body,
    types: Seq<TypeView>,
    constants: Seq<ConstantView>,
    inst: Instruction,
)
    ensures
        b.instruction(types, constants, inst) matches Ok(after) ==> {
            &&& continued(b.f, after.f)
            &&& after.f.body == b.f.body || (inst.op == Op::Store && after.f.body.len()
                == b.f.body.len() + 1 && after.f.body.last() is Store)
        },
{
    let p = b.p;
    if inst.op == Op::AccessChain && b.access_chain(types, constants, inst) is Ok {
        walk_continues(
            b.advance(3),
            types,
            constants,
            p.expressions[p.word(2)].token,
            p.types[p.expressions[p.word(2)].type_id].base_id->0,
            (inst.wc - 4) as nat,
        );
    }
    if inst.op == Op::CompositeExtract && b.composite_extract(types, inst) is Ok {
        extract_continues(
            b.advance(3),
            types,
            p.expressions[p.word(2)].token,
            p.expressions[p.word(2)].type_id,
            (inst.wc - 4) as nat,
        );
    }
}

/// A block that is accepted adds to the function behind what is there, and
/// the last statement that it adds is the return that ends it.
pub proof fn block_ends_with_return(b: Body, types: Seq<TypeView>, constants: Seq<ConstantView>)
    ensures
        b.block(types, constants) matches Ok(after) ==> {
            &&& continued(b.f, after.f)
            &&& after.f.body.len() > b.f.body.len()
            &&& after.f.body.last() == (Statement::Return { value: None })
        },
    decreases words_left(b.p),
{
    if b.block(types, constants) is Ok {
        let inst = instruction_at(b.p)->Ok_0;
        if inst.op != Op::Return {
            b.advance(1).instruction_stays(types, constants, inst);
            instruction_continues(b.advance(1), types, constants, inst);
            let next = b.advance(1).instruction(types, constants, inst)->Ok_0;
            block_ends_with_return(next, types, constants);
        }
    }
}

/// The blocks of a function add to the function behind what is there.
pub proof fn blocks_continue(b: Body, types: Seq<TypeView>, constants: Seq<ConstantView>)
    ensures
        b.blocks(types, constants) matches Ok(after) ==> continued(b.f, after.f),
    decreases words_left(b.p),
{
    if b.blocks(types, constants) is Ok {
        let inst = instruction_at(b.p)->Ok_0;
        if inst.op == Op::Label {
            b.advance(2).block_stays(types, constants);
            block_ends_with_return(b.advance(2), types, constants);
            let next = b.advance(2).block(types, constants)->Ok_0;
            blocks_continue(next, types, constants);
        }
    }
}

/// The expressions for the first `n` variables: each of these variables
/// has the expression at its place in the order of definition, and its id
/// stands for it, and no other id stands for anything.
pub proof fn seeded_variables_cover(p: ParserView, n: nat)
    requires
        p.inv(),
        n <= p.variable_ids.len(),
    ensures
        seeded_variables(p, n).expressions.len() == n,
        forall|id: Word| #[trigger]
            seeded_variables(p, n).table.contains_key(id) <==> exists|i: int|
                0 <= i < n && #[trigger] p.variable_ids[i] == id,
        forall|i: int|
            0 <= i < n ==> {
                &&& seeded_variables(p, n).table[#[trigger] p.variable_ids[i]] == (LookupExpression {
                    token: Token::at(i),
                    type_id: p.variables[p.variable_ids[i]].type_id,
                })
                &&& seeded_variables(p, n).expressions[i] == ExpressionView::GlobalVariable(
                    p.variables[p.variable_ids[i]].token,
                )
            },
    decreases n,
{
    if n > 0 {
        seeded_variables_cover(p, (n - 1) as nat);
        let before = seeded_variables(p, (n - 1) as nat);
        let now = seeded_variables(p, n);
        let last = p.variable_ids[n - 1];
        assert forall|id: Word| #[trigger] now.table.contains_key(id) <==> exists|i: int|
            0 <= i < n && #[trigger] p.variable_ids[i] == id by {
            if now.table.contains_key(id) {
                if id == last {
                    assert(p.variable_ids[n - 1] == id);
                } else {
                    assert(before.table.contains_key(id));
                    let i = choose|i: int| 0 <= i < n - 1 && #[trigger] p.variable_ids[i] == id;
                    assert(p.variable_ids[i] == id);
                }
            }
            if exists|i: int| 0 <= i < n && #[trigger] p.variable_ids[i] == id {
                let i = choose|i: int| 0 <= i < n && #[trigger] p.variable_ids[i] == id;
                if i < n - 1 {
                    assert(before.table.contains_key(p.variable_ids[i]));
                }
            }
        }
    }
}

/// What a function starts with covers the tables of variables and of
/// constants: there is one expression for each id of either, the ids of
/// both stand for their expressions, and no other id stands for anything.
/// An id of a constant stands for the constant's expression, which comes
/// behind those of the variables; an id of a variable that is no id of a
/// constant stands for the variable's.
pub proof fn seeds_cover_tables(p: ParserView, n: nat)
    requires
        p.inv(),
        n <= p.constant_ids.len(),
    ensures
        seeded_constants(p, n).expressions.len() == p.variable_ids.len() + n,
        forall|id: Word| #[trigger]
            seeded_constants(p, n).table.contains_key(id) <==> p.variables.contains_key(id) || (
            exists|j: int| 0 <= j < n && #[trigger] p.constant_ids[j] == id),
        forall|j: int|
            0 <= j < n ==> {
                &&& seeded_constants(p, n).table[#[trigger] p.constant_ids[j]] == (LookupExpression {
                    token: Token::at(p.variable_ids.len() + j),
                    type_id: p.constants[p.constant_ids[j]].type_id,
                })
                &&& seeded_constants(p, n).expressions[p.variable_ids.len() + j]
                    == ExpressionView::Constant(p.constants[p.constant_ids[j]].token)
            },
        forall|i: int|
            0 <= i < p.variable_ids.len() ==> {
                &&& seeded_constants(p, n).expressions[i] == ExpressionView::GlobalVariable(
                    p.variables[#[trigger] p.variable_ids[i]].token,
                )
                &&& (forall|j: int| 0 <= j < n ==> p.constant_ids[j] != p.variable_ids[i])
                    ==> seeded_constants(p, n).table[p.variable_ids[i]] == (LookupExpression {
                    token: Token::at(i),
                    type_id: p.variables[p.variable_ids[i]].type_id,
                })
            },
    decreases n,
{
    if n == 0 {
        seeded_variables_cover(p, p.variable_ids.len());
        let now = seeded_constants(p, 0);
        assert forall|id: Word| #[trigger] now.table.contains_key(id) <==> p.variables.contains_key(
            id,
        ) || (exists|j: int| 0 <= j < 0 && #[trigger] p.constant_ids[j] == id) by {
            if p.variables.contains_key(id) {
                assert(p.variables.dom().contains(id));
                let i = choose|i: int|
                    0 <= i < p.variable_ids.len() && #[trigger] p.variable_ids[i] == id;
                assert(p.variable_ids[i] == id);
            }
            if now.table.contains_key(id) {
                let i = choose|i: int|
                    0 <= i < p.variable_ids.len() && #[trigger] p.variable_ids[i] == id;
                assert(p.variables.dom().contains(p.variable_ids[i]));
            }
        }
    } else {
        seeds_cover_tables(p, (n - 1) as nat);
        let before = seeded_constants(p, (n - 1) as nat);
        let now = seeded_constants(p, n);
        let last = p.constant_ids[n - 1];
        assert forall|id: Word| #[trigger] now.table.contains_key(id) <==> p.variables.contains_key(
            id,
        ) || (exists|j: int| 0 <= j < n && #[trigger] p.constant_ids[j] == id) by {
            if now.table.contains_key(id) && !p.variables.contains_key(id) {
                if id == last {
                    assert(p.constant_ids[n - 1] == id);
                } else {
                    assert(before.table.contains_key(id));
                    let j = choose|j: int| 0 <= j < n - 1 && #[trigger] p.constant_ids[j] == id;
                    assert(p.constant_ids[j] == id);
                }
            }
            if exists|j: int| 0 <= j < n && #[trigger] p.constant_ids[j] == id {
                let j = choose|j: int| 0 <= j < n && #[trigger] p.constant_ids[j] == id;
                if j < n - 1 {
                    assert(before.table.contains_key(p.constant_ids[j]));
                }
            }
            if p.variables.contains_key(id) {
                assert(before.table.contains_key(id));
            }
        }
    }
}

/// Each list of ids is as long as its table has entries.
pub proof fn lists_count_tables(p: ParserView)
    requires
        p.inv(),
    ensures
        p.variables.dom().finite(),
        p.constants.dom().finite(),
        p.variable_ids.len() == p.variables.dom().len(),
        p.constant_ids.len() == p.constants.dom().len(),
        seeded(p).expressions.len() == p.variables.dom().len() + p.constants.dom().len(),
{
    list_counts_set(p.variable_ids, p.variables.dom());
    list_counts_set(p.constant_ids, p.constants.dom());
    seeds_cover_tables(p, p.constant_ids.len());
}

/// A list of a set is as long as the set has members.
pub proof fn list_counts_set(ids: Seq<Word>, set: Set<Word>)
    requires
        lists(ids, set),
    ensures
        set.finite(),
        ids.len() == set.len(),
{
    assert(ids.no_duplicates()) by {
        assert forall|i: int, j: int|
            0 <= i < ids.len() && 0 <= j < ids.len() && i != j implies ids[i] != ids[j] by {
            if i < j {
                assert(ids[i] != ids[j]);
            } else {
                assert(ids[j] != ids[i]);
            }
        }
    }
    ids.unique_seq_to_set();
    assert(ids.to_set() =~= set) by {
        assert forall|id: Word| ids.to_set().contains(id) <==> set.contains(id) by {
            if set.contains(id) {
                let i = choose|i: int| 0 <= i < ids.len() && #[trigger] ids[i] == id;
                assert(ids.contains(ids[i]));
            }
            if ids.to_set().contains(id) {
                assert(ids.contains(id));
                let i = choose|i: int| 0 <= i < ids.len() && ids[i] == id;
                assert(set.contains(ids[i]));
            }
        }
    }
}

} // verus!

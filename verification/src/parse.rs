//! The decoder as a whole: the header, the instructions of the module one
//! after the other, and the entry points, which are resolved at the end.

use crate::block::Body;
use crate::decoration::{name_of, or_empty};
use crate::error::{Error, ErrorView, Instruction, ModuleState};
use crate::function::{parameters, seeded, within_function, words_left};
use crate::ir::{
    EntryPoint, EntryPointView, FunctionView, GlobalVariable, Header, Module, ModuleView,
    StructMemberView, Token, Type,
};
use crate::model::{decoder_of, failed, met, Decoder};
use crate::reader::{instruction_at, string_bytes};
use crate::state::{Parser, ParserView, RawEntryPoint, RawEntryPointView};
use crate::types::struct_members;
use crate::words::{FunctionControl, Op, StorageClass, Word, MAGIC_NUMBER};
use vstd::prelude::*;

verus! {

/// `after` is a state that a decoder can be in later than in the state
/// `before`: it reads the same words, is no further back in them, and is in
/// no earlier phase.
pub open spec fn follows(before: ParserView, after: ParserView) -> bool {
    &&& after.words == before.words
    &&& after.pos >= before.pos
    &&& after.state.rank() >= before.state.rank()
}

/// What the first five words say of the module. The version's bytes are,
/// from the third-lowest down, major, minor and patch.
pub open spec fn header_at(p: ParserView) -> Result<Header, ErrorView> {
    if p.remaining() < 1 {
        Err(ErrorView::IncompleteData)
    } else if p.word(0) != MAGIC_NUMBER {
        Err(ErrorView::InvalidHeader)
    } else if p.remaining() < 5 {
        Err(ErrorView::IncompleteData)
    } else {
        Ok(
            Header {
                version: (
                    (p.word(1) / 0x1_0000 % 0x100) as u8,
                    (p.word(1) / 0x100 % 0x100) as u8,
                    (p.word(1) % 0x100) as u8,
                ),
                generator: p.word(2),
            },
        )
    }
}

/// The number of words that are read for the header of a module, whether
/// it is one or not: the first, if it is not the magic number, and else
/// five, or the words that are left if they are fewer.
pub open spec fn header_span(p: ParserView) -> int {
    if p.remaining() < 1 {
        0
    } else if p.word(0) != MAGIC_NUMBER {
        1
    } else if p.remaining() < 5 {
        p.remaining()
    } else {
        5
    }
}

/// The phase that an instruction belongs to, if the decoder handles it
/// outside of functions.
pub open spec fn phase_of(op: Op) -> Option<ModuleState> {
    match op {
        Op::Capability => Some(ModuleState::Capability),
        Op::Extension | Op::ExtInstImport => Some(ModuleState::Extension),
        Op::MemoryModel => Some(ModuleState::MemoryModel),
        Op::EntryPoint => Some(ModuleState::EntryPoint),
        Op::ExecutionMode => Some(ModuleState::ExecutionMode),
        Op::Source | Op::SourceExtension => Some(ModuleState::Source),
        Op::Name | Op::MemberName => Some(ModuleState::Name),
        Op::Decorate | Op::MemberDecorate => Some(ModuleState::Annotation),
        Op::TypeVoid
        | Op::TypeInt
        | Op::TypeFloat
        | Op::TypeVector
        | Op::TypeMatrix
        | Op::TypeFunction
        | Op::TypePointer
        | Op::TypeArray
        | Op::TypeRuntimeArray
        | Op::TypeStruct
        | Op::TypeImage
        | Op::TypeSampledImage
        | Op::TypeSampler
        | Op::Constant
        | Op::SpecConstant
        | Op::Variable => Some(ModuleState::Type),
        Op::Function => Some(ModuleState::Function),
        _ => None,
    }
}

impl Decoder {
    /// What the instruction `inst` does to the module. The state is the one
    /// behind the header.
    pub open spec fn step(self, inst: Instruction) -> Result<Decoder, ErrorView> {
        match inst.op {
            Op::Capability => self.capability(inst),
            Op::Extension => self.extension(inst),
            Op::ExtInstImport => self.ext_inst_import(inst),
            Op::MemoryModel => self.memory_model(inst),
            Op::EntryPoint => self.entry_point(inst),
            Op::ExecutionMode => self.execution_mode(inst),
            Op::Source => self.source(inst),
            Op::SourceExtension => self.source_extension(inst),
            Op::Name => self.name(inst),
            Op::MemberName => self.member_name(inst),
            Op::Decorate => self.decorate(inst),
            Op::MemberDecorate => self.member_decorate(inst),
            Op::TypeVoid => self.type_void(inst),
            Op::TypeInt => self.type_int(inst),
            Op::TypeFloat => self.type_float(inst),
            Op::TypeVector => self.type_vector(inst),
            Op::TypeMatrix => self.type_matrix(inst),
            Op::TypeFunction => self.type_function(inst),
            Op::TypePointer => self.type_pointer(inst),
            Op::TypeArray => self.type_array(inst),
            Op::TypeRuntimeArray => self.type_runtime_array(inst),
            Op::TypeStruct => self.type_struct(inst),
            Op::TypeImage => self.type_image(inst),
            Op::TypeSampledImage => self.type_sampled_image(inst),
            Op::TypeSampler => self.type_sampler(inst),
            Op::Constant | Op::SpecConstant => self.constant(inst),
            Op::Variable => self.variable(inst),
            Op::Function => self.function(inst),
            _ => Err(ErrorView::UnsupportedInstruction(self.p.state, inst.op)),
        }
    }

    /// The instructions of the module, one after the other, until the words
    /// end behind one of them.
    pub open spec fn run(self) -> Result<Decoder, ErrorView>
        decreases words_left(self.p),
    {
        if self.p.remaining() <= 0 {
            Ok(self)
        } else {
            match instruction_at(self.p) {
                Err(e) => Err(e),
                Ok(inst) => match self.with_p(self.p.advance(1)).step(inst) {
                    Err(e) => Err(e),
                    Ok(d) => {
                        proof {
                            self.with_p(self.p.advance(1)).step_follows(inst);
                        }
                        d.run()
                    },
                },
            }
        }
    }

    /// The storage class of the variable that `id` stands for.
    pub open spec fn class_of(self, id: Word) -> StorageClass {
        self.m.global_variables[self.p.variables[id].token.index as int].class
    }

    /// Why `id` cannot be part of an entry point's interface: it is no
    /// variable, or one that is neither input nor output.
    pub open spec fn interface_fault(self, id: Word) -> Option<ErrorView> {
        if !self.p.variables.contains_key(id) {
            Some(ErrorView::InvalidId(id))
        } else if self.class_of(id) != StorageClass::Input && self.class_of(id)
            != StorageClass::Output {
            Some(ErrorView::InvalidVariableClass(self.class_of(id)))
        } else {
            None
        }
    }

    /// The fault of the first id from `index` on that has one.
    pub open spec fn first_fault(self, ids: Seq<Word>, index: nat) -> Option<ErrorView>
        decreases ids.len() - index,
    {
        if index >= ids.len() {
            None
        } else if self.interface_fault(ids[index as int]) is Some {
            self.interface_fault(ids[index as int])
        } else {
            self.first_fault(ids, index + 1)
        }
    }

    /// The variables of the class `class` among `ids`, in the order of `ids`.
    pub open spec fn interface(self, ids: Seq<Word>, class: StorageClass) -> Seq<
        Token<GlobalVariable>,
    > {
        ids.filter(|id: Word| self.class_of(id) == class).map_values(
            |id: Word| self.p.variables[id].token,
        )
    }

    /// The entry point that `raw` asks for.
    pub open spec fn resolve(self, raw: RawEntryPointView) -> Result<EntryPointView, ErrorView> {
        if !self.p.functions.contains_key(raw.function_id) {
            Err(ErrorView::InvalidId(raw.function_id))
        } else {
            match self.first_fault(raw.variable_ids, 0) {
                Some(e) => Err(e),
                None => Ok(
                    EntryPointView {
                        exec_model: raw.exec_model,
                        name: raw.name,
                        function: self.p.functions[raw.function_id],
                        inputs: self.interface(raw.variable_ids, StorageClass::Input),
                        outputs: self.interface(raw.variable_ids, StorageClass::Output),
                    },
                ),
            }
        }
    }

    /// The entry points from number `index` on, behind `done`.
    pub open spec fn resolve_from(self, index: nat, done: Seq<EntryPointView>) -> Result<
        Seq<EntryPointView>,
        ErrorView,
    >
        decreases self.p.entry_points.len() - index,
    {
        if index >= self.p.entry_points.len() {
            Ok(done)
        } else {
            match self.resolve(self.p.entry_points[index as int]) {
                Err(e) => Err(e),
                Ok(entry) => self.resolve_from(index + 1, done.push(entry)),
            }
        }
    }

    /// The module with its entry points, each resolved against the
    /// functions and variables that the module defines.
    pub open spec fn finish(self) -> Result<ModuleView, ErrorView> {
        match self.resolve_from(0, self.m.entry_points) {
            Ok(entry_points) => Ok(ModuleView { entry_points, ..self.m }),
            Err(e) => Err(e),
        }
    }

    /// A string spans one word at least.
    pub proof fn string_spans(words: Seq<Word>, pos: int, count: nat)
        ensures
            string_bytes(words, pos, count) matches Ok((_, used)) ==> 1 <= used <= count,
        decreases count,
    {
        if count > 0 && pos < words.len() {
            Decoder::string_spans(words, pos + 1, (count - 1) as nat);
        }
    }

    /// Reading the members of a struct moves on in the words and stays in
    /// the phase.
    pub proof fn members_follow(
        p: ParserView,
        id: Word,
        index: nat,
        count: nat,
        done: Seq<StructMemberView>,
    )
        ensures
            struct_members(p, id, index, count, done) matches Ok((q, _)) ==> follows(p, q)
                && q.state == p.state,
        decreases count - index,
    {
        if index < count && p.remaining() >= 1 && p.types.contains_key(p.word(0)) {
            let kept = or_empty(p.member_decor(id, index as Word));
            Decoder::members_follow(
                p.advance(1).with_member_type(id, index as Word, p.word(0)).without_member_decor(
                    id,
                    index as Word,
                ),
                id,
                index + 1,
                count,
                done.push(
                    StructMemberView {
                        name: kept.name,
                        binding: kept.binding(),
                        ty: p.types[p.word(0)].token,
                    },
                ),
            );
        }
    }

    /// Reading the parameters of a function moves on in the words and
    /// changes nothing else.
    pub proof fn parameters_follow(
        p: ParserView,
        expected: Seq<Word>,
        index: nat,
        done: Seq<Token<Type>>,
    )
        ensures
            parameters(p, expected, index, done) matches Ok((q, _)) ==> within_function(p, q),
        decreases expected.len() - index,
    {
        if index < expected.len() && parameters(p, expected, index, done) is Ok {
            Decoder::parameters_follow(
                p.advance(3),
                expected,
                index + 1,
                done.push(p.types[p.word(1)].token),
            );
        }
    }

    /// The state after an instruction that comes before the types follows
    /// the state before it.
    pub proof fn preamble_follows(self, inst: Instruction)
        ensures
            self.capability(inst) matches Ok(d) ==> follows(self.p, d.p),
            self.extension(inst) matches Ok(d) ==> follows(self.p, d.p),
            self.ext_inst_import(inst) matches Ok(d) ==> follows(self.p, d.p),
            self.memory_model(inst) matches Ok(d) ==> follows(self.p, d.p),
            self.entry_point(inst) matches Ok(d) ==> follows(self.p, d.p),
            self.execution_mode(inst) matches Ok(d) ==> follows(self.p, d.p),
            self.source(inst) matches Ok(d) ==> follows(self.p, d.p),
            self.source_extension(inst) matches Ok(d) ==> follows(self.p, d.p),
            self.name(inst) matches Ok(d) ==> follows(self.p, d.p),
            self.member_name(inst) matches Ok(d) ==> follows(self.p, d.p),
            self.decorate(inst) matches Ok(d) ==> follows(self.p, d.p),
            self.member_decorate(inst) matches Ok(d) ==> follows(self.p, d.p),
    {
        let p = self.p;
        Decoder::string_spans(p.words, p.pos, (inst.wc - 1) as nat);
        Decoder::string_spans(p.words, p.pos + 1, (inst.wc - 2) as nat);
        Decoder::string_spans(p.words, p.pos + 2, (inst.wc - 3) as nat);
    }

    /// The state after a type, a constant or a variable follows the state
    /// before it.
    pub proof fn types_follow(self, inst: Instruction)
        ensures
            self.type_void(inst) matches Ok(d) ==> follows(self.p, d.p),
            self.type_int(inst) matches Ok(d) ==> follows(self.p, d.p),
            self.type_float(inst) matches Ok(d) ==> follows(self.p, d.p),
            self.type_vector(inst) matches Ok(d) ==> follows(self.p, d.p),
            self.type_matrix(inst) matches Ok(d) ==> follows(self.p, d.p),
            self.type_function(inst) matches Ok(d) ==> follows(self.p, d.p),
            self.type_pointer(inst) matches Ok(d) ==> follows(self.p, d.p),
            self.type_array(inst) matches Ok(d) ==> follows(self.p, d.p),
            self.type_runtime_array(inst) matches Ok(d) ==> follows(self.p, d.p),
            self.type_struct(inst) matches Ok(d) ==> follows(self.p, d.p),
            self.type_image(inst) matches Ok(d) ==> follows(self.p, d.p),
            self.type_sampled_image(inst) matches Ok(d) ==> follows(self.p, d.p),
            self.type_sampler(inst) matches Ok(d) ==> follows(self.p, d.p),
            self.constant(inst) matches Ok(d) ==> follows(self.p, d.p),
            self.variable(inst) matches Ok(d) ==> follows(self.p, d.p),
    {
        let p = self.p;
        Decoder::members_follow(
            p.with_state(ModuleState::Type).advance(1),
            p.word(0),
            0,
            (inst.wc - 2) as nat,
            Seq::empty(),
        );
    }

    /// The phase never goes back, and neither does the place in the words:
    /// the state after an instruction follows the state before it.
    pub proof fn step_follows(self, inst: Instruction)
        ensures
            self.step(inst) matches Ok(d) ==> follows(self.p, d.p),
    {
        self.preamble_follows(inst);
        self.types_follow(inst);
        self.function_follows(inst);
    }

    /// The state after a function follows the state before it, and is in
    /// the phase of functions.
    pub proof fn function_follows(self, inst: Instruction)
        ensures
            self.function(inst) matches Ok(d) ==> follows(self.p, d.p) && d.p.state
                == ModuleState::Function,
    {
        if self.function(inst) is Ok {
            let p = self.p;
            let q = p.with_state(ModuleState::Function).advance(4).without_decor(p.word(1));
            let seeds = seeded(q);
            let start = ParserView { expressions: seeds.table, ..q };
            let expected = p.function_types[p.word(3)].parameter_type_ids;
            Decoder::parameters_follow(start, expected, 0, Seq::empty());
            let (r, parameter_types) = parameters(start, expected, 0, Seq::empty())->Ok_0;
            let b = Body {
                p: r,
                f: FunctionView {
                    name: name_of(p.decor(p.word(1))),
                    control: FunctionControl::of_bits(p.word(2))->0,
                    parameter_types,
                    return_type: if p.void_types.contains(p.word(0)) {
                        None
                    } else {
                        Some(p.types[p.word(0)].token)
                    },
                    expressions: seeds.expressions,
                    body: Seq::empty(),
                },
            };
            b.blocks_stay(self.m.types, self.m.constants);
        }
    }
}

/// The decoder behind the last instruction of the module that the words
/// from position `pos` on describe: the header is read by a decoder that
/// knows nothing yet, and then the instructions.
pub open spec fn decoded(words: Seq<Word>, pos: int) -> Result<Decoder, ErrorView> {
    let p = ParserView::fresh(words, pos);
    match header_at(p) {
        Err(e) => Err(e),
        Ok(header) => (Decoder { p: p.advance(5), m: ModuleView::empty(header) }).run(),
    }
}

/// The module that the words from position `pos` on describe, or the
/// reason for which they describe none.
pub open spec fn decode(words: Seq<Word>, pos: int) -> Result<ModuleView, ErrorView> {
    match decoded(words, pos) {
        Err(e) => Err(e),
        Ok(d) => d.finish(),
    }
}

/// The word whose bytes are these, the lowest first.
pub open spec fn word_of(b0: u8, b1: u8, b2: u8, b3: u8) -> Word {
    (b0 + b1 * 0x100 + b2 * 0x1_0000 + b3 * 0x100_0000) as Word
}

/// The words that the bytes hold, four bytes each, the lowest byte first.
pub open spec fn words_of(bytes: Seq<u8>) -> Seq<Word> {
    Seq::new(
        (bytes.len() / 4) as nat,
        |i: int| word_of(bytes[4 * i], bytes[4 * i + 1], bytes[4 * i + 2], bytes[4 * i + 3]),
    )
}

/// The module that the bytes describe. Their number must be a multiple of four.
pub open spec fn decode_bytes(bytes: Seq<u8>) -> Result<ModuleView, ErrorView> {
    if bytes.len() % 4 != 0 {
        Err(ErrorView::IncompleteData)
    } else {
        decode(words_of(bytes), 0)
    }
}

/// One more id at the end of a list adds its variable to the interface of
/// its class, and changes no other.
pub proof fn interface_push(d: Decoder, ids: Seq<Word>, id: Word, class: StorageClass)
    ensures
        d.interface(ids.push(id), class) == if d.class_of(id) == class {
            d.interface(ids, class).push(d.p.variables[id].token)
        } else {
            d.interface(ids, class)
        },
{
    reveal(Seq::filter);
    let all = ids.push(id);
    assert(all.drop_last() =~= ids);
    let pred = |id: Word| d.class_of(id) == class;
    let token = |id: Word| d.p.variables[id].token;
    if d.class_of(id) == class {
        assert(all.filter(pred) == ids.filter(pred).push(id));
        assert(ids.filter(pred).push(id).map_values(token) =~= ids.filter(pred).map_values(
            token,
        ).push(token(id)));
    } else {
        assert(all.filter(pred) == ids.filter(pred));
    }
}

impl Parser {
    /// Reads the header of the module.
    pub fn next_header(&mut self) -> (r: Result<Header, Error>)
        requires
            old(self).wf(),
        ensures
            final(self).wf(),
            final(self)@ == old(self)@.advance(header_span(old(self)@)),
            match header_at(old(self)@) {
                Ok(header) => r == Ok::<Header, Error>(header) && final(self)@ == old(
                    self,
                )@.advance(5),
                Err(e) => r matches Err(x) && x.deep_view() == e,
            },
    {
        if self.next()? != MAGIC_NUMBER {
            return Err(Error::InvalidHeader);
        }
        let version_raw = self.next()?;
        let generator = self.next()?;
        let _bound = self.next()?;
        let _schema = self.next()?;
        Ok(
            Header {
                version: (
                    (version_raw / 0x1_0000 % 0x100) as u8,
                    (version_raw / 0x100 % 0x100) as u8,
                    (version_raw % 0x100) as u8,
                ),
                generator,
            },
        )
    }

    /// Does what the instruction `inst`, whose header was read, asks for.
    pub fn step(&mut self, module: &mut Module, inst: Instruction) -> (r: Result<(), Error>)
        requires
            old(self).wf(),
            decoder_of(old(self), old(module)).coherent(),
        ensures
            final(self).wf(),
            r is Err ==> failed(
                decoder_of(old(self), old(module)),
                decoder_of(final(self), final(module)),
            ),
            met(
                r,
                decoder_of(final(self), final(module)),
                decoder_of(old(self), old(module)).step(inst),
            ),
    {
        match inst.op {
            Op::Capability => self.capability(module, inst),
            Op::Extension => self.extension(module, inst),
            Op::ExtInstImport => self.ext_inst_import(module, inst),
            Op::MemoryModel => self.memory_model(module, inst),
            Op::EntryPoint => self.entry_point(module, inst),
            Op::ExecutionMode => self.execution_mode(module, inst),
            Op::Source => self.source(module, inst),
            Op::SourceExtension => self.source_extension(module, inst),
            Op::Name => self.name(module, inst),
            Op::MemberName => self.member_name(module, inst),
            Op::Decorate => self.decorate(module, inst),
            Op::MemberDecorate => self.member_decorate(module, inst),
            Op::TypeVoid => self.type_void(module, inst),
            Op::TypeInt => self.type_int(module, inst),
            Op::TypeFloat => self.type_float(module, inst),
            Op::TypeVector => self.type_vector(module, inst),
            Op::TypeMatrix => self.type_matrix(module, inst),
            Op::TypeFunction => self.type_function(module, inst),
            Op::TypePointer => self.type_pointer(module, inst),
            Op::TypeArray => self.type_array(module, inst),
            Op::TypeRuntimeArray => self.type_runtime_array(module, inst),
            Op::TypeStruct => self.type_struct(module, inst),
            Op::TypeImage => self.type_image(module, inst),
            Op::TypeSampledImage => self.type_sampled_image(module, inst),
            Op::TypeSampler => self.type_sampler(module, inst),
            Op::Constant | Op::SpecConstant => self.constant(module, inst),
            Op::Variable => self.variable(module, inst),
            Op::Function => self.function(module, inst),
            _ => Err(Error::UnsupportedInstruction(self.state(), inst.op)),
        }
    }

    /// Makes the entry point that `raw` asks for.
    #[verifier::loop_isolation(false)]
    pub fn resolve(&self, module: &Module, raw: &RawEntryPoint) -> (r: Result<EntryPoint, Error>)
        requires
            self.wf(),
            decoder_of(self, module).coherent(),
        ensures
            match decoder_of(self, module).resolve(raw.deep_view()) {
                Ok(entry) => r matches Ok(x) && x.deep_view() == entry && entry.valid(
                    module.deep_view().functions.len() as int,
                    module.deep_view().global_variables.len() as int,
                ),
                Err(e) => r matches Err(x) && x.deep_view() == e,
            },
    {
        let ghost d = decoder_of(self, module);
        let ghost ids = raw.variable_ids@;
        let function = self.lookup_function(raw.function_id)?;
        let mut inputs: Vec<Token<GlobalVariable>> = Vec::new();
        let mut outputs: Vec<Token<GlobalVariable>> = Vec::new();
        proof {
            reveal(Seq::filter);
            assert(ids.take(0) =~= Seq::<Word>::empty());
            assert(inputs@ =~= d.interface(ids.take(0), StorageClass::Input));
            assert(outputs@ =~= d.interface(ids.take(0), StorageClass::Output));
        }
        let mut i: usize = 0;
        while i < raw.variable_ids.len()
            invariant
                i <= ids.len(),
                d.first_fault(ids, 0) == d.first_fault(ids, i as nat),
                inputs@ == d.interface(ids.take(i as int), StorageClass::Input),
                outputs@ == d.interface(ids.take(i as int), StorageClass::Output),
                forall|k: int|
                    0 <= k < inputs@.len() ==> (#[trigger] inputs@[k]).index
                        < d.m.global_variables.len(),
                forall|k: int|
                    0 <= k < outputs@.len() ==> (#[trigger] outputs@[k]).index
                        < d.m.global_variables.len(),
            decreases ids.len() - i,
        {
            let var_id = raw.variable_ids[i];
            let token = self.lookup_variable(var_id)?.token;
            proof {
                interface_push(d, ids.take(i as int), var_id, StorageClass::Input);
                interface_push(d, ids.take(i as int), var_id, StorageClass::Output);
                assert(ids.take(i as int).push(var_id) =~= ids.take(i + 1));
            }
            match module.global_variables.get(token).class {
                StorageClass::Input => inputs.push(token),
                StorageClass::Output => outputs.push(token),
                other => {
                    return Err(Error::InvalidVariableClass(other));
                },
            }
            i = i + 1;
        }
        proof {
            assert(ids.take(i as int) =~= ids);
        }
        Ok(
            EntryPoint {
                exec_model: raw.exec_model,
                name: raw.name.clone(),
                function,
                inputs,
                outputs,
            },
        )
    }

    /// Adds to the module the entry points that were read, each resolved
    /// against the functions and variables of the module. Nothing else in
    /// the module changes, whether all can be resolved or not.
    #[verifier::loop_isolation(false)]
    pub fn finish(&self, module: &mut Module) -> (r: Result<(), Error>)
        requires
            self.wf(),
            decoder_of(self, old(module)).coherent(),
        ensures
            final(module).deep_view() == (ModuleView {
                entry_points: final(module).deep_view().entry_points,
                ..old(module).deep_view()
            }),
            match decoder_of(self, old(module)).finish() {
                Ok(m) => r is Ok && final(module).deep_view() == m && decoder_of(
                    self,
                    final(module),
                ).coherent(),
                Err(e) => r matches Err(x) && x.deep_view() == e,
            },
    {
        let ghost end = decoder_of(self, module);
        let mut i: usize = 0;
        while i < self.entry_points().len()
            invariant
                i <= end.p.entry_points.len(),
                decoder_of(self, module).coherent(),
                module.deep_view() == (ModuleView {
                    entry_points: module.deep_view().entry_points,
                    ..end.m
                }),
                end.resolve_from(0, end.m.entry_points) == end.resolve_from(
                    i as nat,
                    module.deep_view().entry_points,
                ),
            decreases end.p.entry_points.len() - i,
        {
            let ghost done = module.deep_view().entry_points;
            proof {
                Decoder::resolve_agrees(
                    end,
                    decoder_of(self, module),
                    end.p.entry_points[i as int],
                );
            }
            let entry = self.resolve(module, &self.entry_points()[i])?;
            module.entry_points.push(entry);
            proof {
                assert(module.deep_view().entry_points =~= done.push(entry.deep_view()));
            }
            i = i + 1;
        }
        Ok(())
    }

    /// Decodes the module that the words from here on describe. What the
    /// decoder knew before is forgotten first. The words stay, and none that
    /// was read is unread, whether a module is found or not. Behind a module
    /// that is accepted every word is read, and the tables are those of the
    /// module, but for the decorations that no definition took, which are
    /// dropped. Every handle in such a module is a handle of the module.
    #[verifier::loop_isolation(false)]
    pub fn parse(&mut self) -> (r: Result<Module, Error>)
        requires
            old(self).wf(),
        ensures
            final(self).wf(),
            final(self)@.words == old(self)@.words,
            final(self)@.pos >= old(self)@.pos,
            r is Ok ==> final(self)@.remaining() == 0,
            r matches Ok(x) ==> decoder_of(final(self), &x).coherent() && x.deep_view().valid(),
            r is Ok ==> (decoded(old(self)@.words, old(self)@.pos) matches Ok(d) && final(self)@
                == d.p.without_decorations()),
            match decode(old(self)@.words, old(self)@.pos) {
                Ok(module) => r matches Ok(x) && x.deep_view() == module,
                Err(e) => r matches Err(x) && x.deep_view() == e,
            },
    {
        self.reset();
        let header = self.next_header()?;
        let mut module = Module::from_header(header);
        let ghost start = decoder_of(self, &module);
        while self.remaining() > 0
            invariant
                self.wf(),
                self@.words == old(self)@.words,
                self@.pos >= old(self)@.pos,
                decoder_of(self, &module).coherent(),
                start.run() == decoder_of(self, &module).run(),
            decreases words_left(self@),
        {
            let ghost before = decoder_of(self, &module);
            let inst = self.next_inst()?;
            proof {
                before.with_p(before.p.advance(1)).step_follows(inst);
            }
            self.step(&mut module, inst)?;
        }
        let ghost end = decoder_of(self, &module);
        self.clear_decorations();
        proof {
            Decoder::finish_agrees(end, decoder_of(self, &module));
        }
        self.finish(&mut module)?;
        Ok(module)
    }
}

impl Decoder {
    /// Resolving an entry point looks at the functions, the variables and
    /// their classes, and at nothing else.
    pub proof fn resolve_agrees(a: Decoder, b: Decoder, raw: RawEntryPointView)
        requires
            a.p.functions == b.p.functions,
            a.p.variables == b.p.variables,
            a.m.global_variables == b.m.global_variables,
        ensures
            a.resolve(raw) == b.resolve(raw),
    {
        Decoder::first_fault_agrees(a, b, raw.variable_ids, 0);
        let pa = |id: Word| a.class_of(id) == StorageClass::Input;
        let pb = |id: Word| b.class_of(id) == StorageClass::Input;
        assert(pa =~= pb);
        let qa = |id: Word| a.class_of(id) == StorageClass::Output;
        let qb = |id: Word| b.class_of(id) == StorageClass::Output;
        assert(qa =~= qb);
        let ta = |id: Word| a.p.variables[id].token;
        let tb = |id: Word| b.p.variables[id].token;
        assert(ta =~= tb);
    }

    /// Finishing looks at the entry points that were read, the functions,
    /// the variables and the module, and at nothing else.
    pub proof fn finish_agrees(a: Decoder, b: Decoder)
        requires
            a.p.entry_points == b.p.entry_points,
            a.p.functions == b.p.functions,
            a.p.variables == b.p.variables,
            a.m == b.m,
        ensures
            a.finish() == b.finish(),
    {
        Decoder::resolve_from_agrees(a, b, 0, a.m.entry_points);
    }

    /// Resolving the entry points looks at them, at the functions, the variables and
    /// their classes, and at nothing else.
    pub proof fn resolve_from_agrees(a: Decoder, b: Decoder, index: nat, done: Seq<EntryPointView>)
        requires
            a.p.entry_points == b.p.entry_points,
            a.p.functions == b.p.functions,
            a.p.variables == b.p.variables,
            a.m.global_variables == b.m.global_variables,
        ensures
            a.resolve_from(index, done) == b.resolve_from(index, done),
        decreases a.p.entry_points.len() - index,
    {
        if index < a.p.entry_points.len() {
            let raw = a.p.entry_points[index as int];
            Decoder::resolve_agrees(a, b, raw);
            match a.resolve(raw) {
                Ok(entry) => {
                    Decoder::resolve_from_agrees(a, b, index + 1, done.push(entry));
                },
                Err(_) => {},
            }
        }
    }

    /// The faults of ids depend on the variables and their classes alone.
    pub proof fn first_fault_agrees(a: Decoder, b: Decoder, ids: Seq<Word>, index: nat)
        requires
            a.p.variables == b.p.variables,
            a.m.global_variables == b.m.global_variables,
        ensures
            a.first_fault(ids, index) == b.first_fault(ids, index),
        decreases ids.len() - index,
    {
        if index < ids.len() {
            Decoder::first_fault_agrees(a, b, ids, index + 1);
        }
    }
}

/// Decodes the module that the bytes describe: words of four bytes each, the
/// lowest byte first. Every handle in a module that is accepted is a handle
/// of the module.
pub fn parse_u8_slice(data: &[u8]) -> (r: Result<Module, Error>)
    ensures
        r matches Ok(x) ==> x.deep_view().valid(),
        match decode_bytes(data@) {
            Ok(module) => r matches Ok(x) && x.deep_view() == module,
            Err(e) => r matches Err(x) && x.deep_view() == e,
        },
{
    if data.len() % 4 != 0 {
        return Err(Error::IncompleteData);
    }
    let count = data.len() / 4;
    let mut words: Vec<Word> = Vec::new();
    let mut i: usize = 0;
    while i < count
        invariant
            i <= count,
            count == data@.len() / 4,
            data@.len() % 4 == 0,
            4 * count == data@.len(),
            4 * count <= usize::MAX,
            words@.len() == i,
            forall|k: int| 0 <= k < i ==> #[trigger] words@[k] == words_of(data@)[k],
        decreases count - i,
    {
        let b0 = data[4 * i] as u32;
        let b1 = data[4 * i + 1] as u32;
        let b2 = data[4 * i + 2] as u32;
        let b3 = data[4 * i + 3] as u32;
        words.push(b0 + b1 * 0x100 + b2 * 0x1_0000 + b3 * 0x100_0000);
        i = i + 1;
    }
    assert(words@ =~= words_of(data@));
    let mut parser = Parser::new(words);
    parser.parse()
}

} // verus!

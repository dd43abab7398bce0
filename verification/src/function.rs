//! Functions: the signature, the expressions that every function starts
//! with, the parameters, and the blocks up to the function's end.

use crate::block::{body_of, constant_index, met_in_body, Body};
use crate::decoration::{into_name, name_of};
use crate::error::{Error, ErrorView, Instruction, ModuleState};
use crate::ir::{
    Constant, ConstantView, Expression, ExpressionView, Function, FunctionView, Module,
    ModuleView, Statement, Storage, Token, Type, TypeView,
};
use crate::model::{decoder_of, failed, met, read_on, Decoder};
use crate::reader::{instruction_at, may_switch, out_of_phase};
use crate::state::{LookupExpression, LookupSampledImage, Parser, ParserView};
use crate::words::{FunctionControl, Op, Word};
use vstd::prelude::*;

verus! {

/// `after` is a state that a decoder can be in later in the function in
/// which it was in the state `before`: only the place in the words and the
/// function's own tables differ, and the place lies no further back.
pub open spec fn within_function(before: ParserView, after: ParserView) -> bool {
    &&& after.pos >= before.pos
    &&& after == ParserView {
        pos: after.pos,
        expressions: after.expressions,
        sampled_images: after.sampled_images,
        ..before
    }
}

/// The number of words that are left to read, as a measure.
pub open spec fn words_left(p: ParserView) -> nat {
    if p.remaining() > 0 {
        p.remaining() as nat
    } else {
        0
    }
}

/// The expressions that a function starts with, and the ids that stand for them.
pub struct Seeds {
    pub expressions: Seq<ExpressionView>,
    pub table: Map<Word, LookupExpression>,
}

/// One expression for each of the first `n` variables, in the order of their
/// definition.
pub open spec fn seeded_variables(p: ParserView, n: nat) -> Seeds
    decreases n,
{
    if n == 0 {
        Seeds { expressions: Seq::empty(), table: Map::empty() }
    } else {
        let before = seeded_variables(p, (n - 1) as nat);
        let id = p.variable_ids[n - 1];
        Seeds {
            expressions: before.expressions.push(
                ExpressionView::GlobalVariable(p.variables[id].token),
            ),
            table: before.table.insert(
                id,
                LookupExpression {
                    token: Token::at(before.expressions.len() as int),
                    type_id: p.variables[id].type_id,
                },
            ),
        }
    }
}

/// One expression for each variable, and then one for each of the first `n`
/// constants, in the order of their definition.
pub open spec fn seeded_constants(p: ParserView, n: nat) -> Seeds
    decreases n,
{
    if n == 0 {
        seeded_variables(p, p.variable_ids.len())
    } else {
        let before = seeded_constants(p, (n - 1) as nat);
        let id = p.constant_ids[n - 1];
        Seeds {
            expressions: before.expressions.push(ExpressionView::Constant(p.constants[id].token)),
            table: before.table.insert(
                id,
                LookupExpression {
                    token: Token::at(before.expressions.len() as int),
                    type_id: p.constants[id].type_id,
                },
            ),
        }
    }
}

/// The expressions that a function starts with: one for each global
/// variable, then one for each constant.
pub open spec fn seeded(p: ParserView) -> Seeds {
    seeded_constants(p, p.constant_ids.len())
}

/// The parameters of a function from parameter `index` on: one instruction
/// each, of three words, which names the type that the function's type has
/// at that place. `done` holds the types of the parameters before `index`.
pub open spec fn parameters(
    p: ParserView,
    expected: Seq<Word>,
    index: nat,
    done: Seq<Token<Type>>,
) -> Result<(ParserView, Seq<Token<Type>>), ErrorView>
    decreases expected.len() - index,
{
    if index >= expected.len() {
        Ok((p, done))
    } else {
        match instruction_at(p) {
            Err(e) => Err(e),
            Ok(inst) => if inst.op != Op::FunctionParameter || inst.wc != 3 {
                Err(ErrorView::InvalidParameter(inst.op))
            } else if p.remaining() < 3 {
                Err(ErrorView::IncompleteData)
            } else if p.word(1) != expected[index as int] {
                Err(ErrorView::WrongFunctionParameterType(p.word(1)))
            } else if !p.types.contains_key(p.word(1)) {
                Err(ErrorView::InvalidId(p.word(1)))
            } else {
                parameters(p.advance(3), expected, index + 1, done.push(p.types[p.word(1)].token))
            },
        }
    }
}

impl Body {
    /// The instructions of a block up to its `Return`, which adds the
    /// statement that ends it.
    pub open spec fn block(self, types: Seq<TypeView>, constants: Seq<ConstantView>) -> Result<
        Body,
        ErrorView,
    >
        decreases words_left(self.p),
    {
        match instruction_at(self.p) {
            Err(e) => Err(e),
            Ok(inst) => if inst.op == Op::Return {
                if inst.wc != 1 {
                    Err(inst.bad_count())
                } else {
                    Ok(self.advance(1).statement(Statement::Return { value: None }))
                }
            } else {
                match self.advance(1).instruction(types, constants, inst) {
                    Err(e) => Err(e),
                    Ok(b) => {
                        proof {
                            self.advance(1).instruction_stays(types, constants, inst);
                        }
                        b.block(types, constants)
                    },
                }
            },
        }
    }

    /// The blocks of a function, each behind its label, up to the
    /// function's end.
    pub open spec fn blocks(self, types: Seq<TypeView>, constants: Seq<ConstantView>) -> Result<
        Body,
        ErrorView,
    >
        decreases words_left(self.p),
    {
        match instruction_at(self.p) {
            Err(e) => Err(e),
            Ok(inst) => if inst.op == Op::Label {
                if inst.wc != 2 {
                    Err(inst.bad_count())
                } else if self.p.remaining() < 2 {
                    Err(ErrorView::IncompleteData)
                } else {
                    match self.advance(2).block(types, constants) {
                        Err(e) => Err(e),
                        Ok(b) => {
                            proof {
                                self.advance(2).block_stays(types, constants);
                            }
                            b.blocks(types, constants)
                        },
                    }
                }
            } else if inst.op == Op::FunctionEnd {
                if inst.wc != 1 {
                    Err(inst.bad_count())
                } else {
                    Ok(self.advance(1))
                }
            } else {
                Err(ErrorView::UnsupportedInstruction(self.p.state, inst.op))
            },
        }
    }

    /// The body before the instruction at which the block ends: its
    /// `Return`, or the first that is no instruction or cannot be carried out.
    pub open spec fn block_reached(self, types: Seq<TypeView>, constants: Seq<ConstantView>) -> Body
        decreases words_left(self.p),
    {
        match instruction_at(self.p) {
            Err(_) => self,
            Ok(inst) => if inst.op == Op::Return {
                self
            } else {
                match self.advance(1).instruction(types, constants, inst) {
                    Err(_) => self,
                    Ok(b) => {
                        proof {
                            self.advance(1).instruction_stays(types, constants, inst);
                        }
                        b.block_reached(types, constants)
                    },
                }
            },
        }
    }

    /// The body before the instruction at which the blocks of a function
    /// end: the function's end, or the first instruction, in a block or
    /// between two, that is none or cannot be carried out.
    pub open spec fn blocks_reached(self, types: Seq<TypeView>, constants: Seq<ConstantView>) -> Body
        decreases words_left(self.p),
    {
        match instruction_at(self.p) {
            Err(_) => self,
            Ok(inst) => if inst.op == Op::Label && inst.wc == 2 && self.p.remaining() >= 2 {
                match self.advance(2).block(types, constants) {
                    Err(_) => self.advance(2).block_reached(types, constants),
                    Ok(b) => {
                        proof {
                            self.advance(2).block_stays(types, constants);
                        }
                        b.blocks_reached(types, constants)
                    },
                }
            } else {
                self
            },
        }
    }

    /// The next instruction is one whose walk may add expressions before
    /// it fails.
    pub open spec fn at_walk(self) -> bool {
        instruction_at(self.p) matches Ok(inst) && (inst.op == Op::AccessChain || inst.op
            == Op::CompositeExtract)
    }

    /// `after` is what is left of this body where the instruction that
    /// comes next failed: words were read, and nothing else changed, but that
    /// a walk may have added expressions behind those that were there.
    pub open spec fn failed_at(self, after: Body) -> bool {
        &&& self.broke_off(after)
        &&& !self.at_walk() ==> after.f == self.f
    }

    /// Up to the instruction at which a block ends, all but the place and
    /// the function's tables stays as it was.
    pub proof fn block_reached_stays(self, types: Seq<TypeView>, constants: Seq<ConstantView>)
        ensures
            within_function(self.p, self.block_reached(types, constants).p),
        decreases words_left(self.p),
    {
        match instruction_at(self.p) {
            Err(_) => {},
            Ok(inst) => {
                if inst.op != Op::Return {
                    match self.advance(1).instruction(types, constants, inst) {
                        Err(_) => {},
                        Ok(b) => {
                            self.advance(1).instruction_stays(types, constants, inst);
                            b.block_reached_stays(types, constants);
                        },
                    }
                }
            },
        }
    }

    /// Up to the instruction at which the blocks of a function end, all but
    /// the place and the function's tables stays as it was.
    pub proof fn blocks_reached_stays(self, types: Seq<TypeView>, constants: Seq<ConstantView>)
        ensures
            within_function(self.p, self.blocks_reached(types, constants).p),
        decreases words_left(self.p),
    {
        match instruction_at(self.p) {
            Err(_) => {},
            Ok(inst) => {
                if inst.op == Op::Label && inst.wc == 2 && self.p.remaining() >= 2 {
                    match self.advance(2).block(types, constants) {
                        Err(_) => {
                            self.advance(2).block_reached_stays(types, constants);
                        },
                        Ok(b) => {
                            self.advance(2).block_stays(types, constants);
                            b.blocks_reached_stays(types, constants);
                        },
                    }
                }
            },
        }
    }

    /// A walk leaves all but the place and the function's tables as it was.
    pub proof fn walk_stays(
        self,
        types: Seq<TypeView>,
        constants: Seq<ConstantView>,
        base: Token<Expression>,
        type_id: Word,
        left: nat,
    )
        ensures
            self.walk(types, constants, base, type_id, left) matches Ok((b, _))
                ==> within_function(self.p, b.p),
        decreases left,
    {
        if left > 0 && self.walk(types, constants, base, type_id, left) is Ok {
            let p = self.p;
            if self.shape(types, type_id) is Struct {
                let index = constant_index_of(self, constants);
                self.advance(1).push(ExpressionView::AccessIndex { base, index }).walk_stays(
                    types,
                    constants,
                    self.next_token(),
                    p.member_type_ids[(type_id, index)],
                    (left - 1) as nat,
                );
            } else {
                self.advance(1).push(
                    ExpressionView::Access { base, index: p.expressions[p.word(0)].token },
                ).walk_stays(
                    types,
                    constants,
                    self.next_token(),
                    p.types[type_id].base_id->0,
                    (left - 1) as nat,
                );
            }
        }
    }

    /// An extraction leaves all but the place and the function's tables as it was.
    pub proof fn extract_stays(
        self,
        types: Seq<TypeView>,
        base: Token<Expression>,
        type_id: Word,
        left: nat,
    )
        ensures
            self.extract(types, base, type_id, left) matches Ok((b, _)) ==> within_function(
                self.p,
                b.p,
            ),
        decreases left,
    {
        if left > 0 && self.extract(types, base, type_id, left) is Ok {
            let p = self.p;
            let part_id = if self.shape(types, type_id) is Struct {
                p.member_type_ids[(type_id, p.word(0))]
            } else {
                p.types[type_id].base_id->0
            };
            self.advance(1).push(
                ExpressionView::AccessIndex { base, index: p.word(0) },
            ).extract_stays(types, self.next_token(), part_id, (left - 1) as nat);
        }
    }

    /// An instruction of a block leaves all but the place and the function's
    /// tables as it was.
    pub proof fn instruction_stays(
        self,
        types: Seq<TypeView>,
        constants: Seq<ConstantView>,
        inst: Instruction,
    )
        ensures
            self.instruction(types, constants, inst) matches Ok(b) ==> within_function(
                self.p,
                b.p,
            ),
    {
        let p = self.p;
        if inst.op == Op::AccessChain && self.access_chain(types, constants, inst) is Ok {
            self.advance(3).walk_stays(
                types,
                constants,
                p.expressions[p.word(2)].token,
                p.types[p.expressions[p.word(2)].type_id].base_id->0,
                (inst.wc - 4) as nat,
            );
        }
        if inst.op == Op::CompositeExtract && self.composite_extract(types, inst) is Ok {
            self.advance(3).extract_stays(
                types,
                p.expressions[p.word(2)].token,
                p.expressions[p.word(2)].type_id,
                (inst.wc - 4) as nat,
            );
        }
    }

    /// A block leaves all but the place and the function's tables as it was.
    pub proof fn block_stays(self, types: Seq<TypeView>, constants: Seq<ConstantView>)
        ensures
            self.block(types, constants) matches Ok(b) ==> within_function(self.p, b.p) && b.p.pos
                > self.p.pos,
        decreases words_left(self.p),
    {
        if self.block(types, constants) is Ok {
            let inst = instruction_at(self.p)->Ok_0;
            if inst.op != Op::Return {
                self.advance(1).instruction_stays(types, constants, inst);
                let b = self.advance(1).instruction(types, constants, inst)->Ok_0;
                b.block_stays(types, constants);
            }
        }
    }

    /// The blocks of a function leave all but the place and the function's
    /// tables as it was.
    pub proof fn blocks_stay(self, types: Seq<TypeView>, constants: Seq<ConstantView>)
        ensures
            self.blocks(types, constants) matches Ok(b) ==> within_function(self.p, b.p),
        decreases words_left(self.p),
    {
        if self.blocks(types, constants) is Ok {
            let inst = instruction_at(self.p)->Ok_0;
            if inst.op == Op::Label {
                self.advance(2).block_stays(types, constants);
                let b = self.advance(2).block(types, constants)->Ok_0;
                b.blocks_stay(types, constants);
            }
        }
    }
}

/// The member that the index of the walk's next step selects.
pub open spec fn constant_index_of(b: Body, constants: Seq<ConstantView>) -> Word {
    constant_index(b.f, constants, b.p.expressions[b.p.word(0)].token)->0
}

/// The first expressions of a function are for the variables, one each and
/// in their order, and the ids of the variables stand for them.
pub proof fn seeded_variables_are_placed(p: ParserView, n: nat)
    requires
        n <= p.variable_ids.len(),
    ensures
        seeded_variables(p, n).expressions.len() == n,
        forall|id: Word| #[trigger]
            seeded_variables(p, n).table.contains_key(id) ==> seeded_variables(
                p,
                n,
            ).table[id].token.index < n,
        forall|i: int|
            0 <= i < n ==> #[trigger] seeded_variables(p, n).expressions[i]
                == ExpressionView::GlobalVariable(p.variables[p.variable_ids[i]].token),
    decreases n,
{
    if n > 0 {
        seeded_variables_are_placed(p, (n - 1) as nat);
    }
}

/// Behind the expressions for the variables come those for the constants,
/// one each and in their order.
pub proof fn seeded_constants_are_placed(p: ParserView, n: nat)
    requires
        n <= p.constant_ids.len(),
    ensures
        seeded_constants(p, n).expressions.len() == p.variable_ids.len() + n,
        forall|id: Word| #[trigger]
            seeded_constants(p, n).table.contains_key(id) ==> seeded_constants(
                p,
                n,
            ).table[id].token.index < p.variable_ids.len() + n,
        forall|i: int|
            0 <= i < p.variable_ids.len() ==> #[trigger] seeded_constants(p, n).expressions[i]
                == ExpressionView::GlobalVariable(p.variables[p.variable_ids[i]].token),
        forall|i: int|
            p.variable_ids.len() <= i < p.variable_ids.len() + n ==> #[trigger] seeded_constants(
                p,
                n,
            ).expressions[i] == ExpressionView::Constant(
                p.constants[p.constant_ids[i - p.variable_ids.len()]].token,
            ),
    decreases n,
{
    if n > 0 {
        seeded_constants_are_placed(p, (n - 1) as nat);
    } else {
        seeded_variables_are_placed(p, p.variable_ids.len());
    }
}

/// A function that starts with the seeds of a coherent decoder, and has
/// parameters and a result of types of the module, is coherent.
pub proof fn seeded_body_is_coherent(d: Decoder, b: Body)
    requires
        d.p.inv(),
        d.handles_valid(),
        b.p == (ParserView { pos: b.p.pos, expressions: seeded(d.p).table, ..d.p }),
        0 <= b.p.pos <= b.p.words.len(),
        d.p.sampled_images == Map::<Word, LookupSampledImage>::empty(),
        b.f.expressions == seeded(d.p).expressions,
        b.f.body == Seq::<Statement>::empty(),
        forall|i: int|
            0 <= i < b.f.parameter_types.len() ==> (#[trigger] b.f.parameter_types[i]).index
                < d.m.types.len(),
        b.f.return_type matches Some(token) ==> token.index < d.m.types.len(),
    ensures
        b.coherent(d.m.types, d.m.constants),
{
    seeded_constants_are_placed(d.p, d.p.constant_ids.len());
    let nv = d.p.variable_ids.len();
    assert forall|i: int|
        0 <= i < b.f.expressions.len() implies (#[trigger] b.f.expressions[i]).placed(
        i,
        b.p,
        d.m.types.len() as int,
        d.m.constants.len() as int,
    ) by {
        if i >= nv {
            let id = d.p.constant_ids[i - nv];
            assert(d.p.constants.contains_key(id));
        }
    }
}

/// The types of the parameters that are read are types of the module, if
/// the types that the ids stand for are.
pub proof fn parameters_are_types(
    p: ParserView,
    expected: Seq<Word>,
    index: nat,
    done: Seq<Token<Type>>,
    count: int,
)
    requires
        forall|id: Word| #[trigger] p.types.contains_key(id) ==> p.types[id].token.index < count,
        forall|i: int| 0 <= i < done.len() ==> (#[trigger] done[i]).index < count,
    ensures
        parameters(p, expected, index, done) matches Ok((_, types)) ==> forall|i: int|
            0 <= i < types.len() ==> (#[trigger] types[i]).index < count,
    decreases expected.len() - index,
{
    if index < expected.len() && parameters(p, expected, index, done) is Ok {
        parameters_are_types(
            p.advance(3),
            expected,
            index + 1,
            done.push(p.types[p.word(1)].token),
            count,
        );
    }
}

/// The function of a coherent body is valid in a module whose handles the
/// tables hold.
pub proof fn coherent_body_is_valid(b: Body, m: ModuleView)
    requires
        b.coherent(m.types, m.constants),
        (Decoder { p: b.p, m }).handles_valid(),
    ensures
        b.f.valid(
            m.types.len() as int,
            m.constants.len() as int,
            m.global_variables.len() as int,
        ),
{
    assert forall|i: int|
        0 <= i < b.f.expressions.len() implies (#[trigger] b.f.expressions[i]).refers_within(
        i,
        m.types.len() as int,
        m.constants.len() as int,
        m.global_variables.len() as int,
    ) by {
        let e = b.f.expressions[i];
        assert(e.placed(i, b.p, m.types.len() as int, m.constants.len() as int));
        if e is GlobalVariable {
            assert(b.p.variables.contains_key(b.p.variable_ids[i]));
        }
    }
}

impl Decoder {
    /// Operands: the id of the result's type, id, the control mask, the id
    /// of the function's type. The parameters and the blocks follow, up to
    /// the function's end.
    pub open spec fn function(self, inst: Instruction) -> Result<Decoder, ErrorView> {
        let p = self.p;
        if !may_switch(p, ModuleState::Function) {
            Err(out_of_phase(p, inst.op))
        } else if inst.wc != 5 {
            Err(inst.bad_count())
        } else if p.remaining() < 4 {
            Err(ErrorView::IncompleteData)
        } else if !p.function_types.contains_key(p.word(3)) {
            Err(ErrorView::InvalidId(p.word(3)))
        } else if p.function_types[p.word(3)].return_type_id != p.word(0) {
            Err(ErrorView::WrongFunctionResultType(p.word(0)))
        } else {
            match FunctionControl::of_bits(p.word(2)) {
                None => Err(ErrorView::UnsupportedFunctionControl(p.word(2))),
                Some(control) => if !p.void_types.contains(p.word(0)) && !p.types.contains_key(
                    p.word(0),
                ) {
                    Err(ErrorView::InvalidId(p.word(0)))
                } else {
                    let q = p.with_state(ModuleState::Function).advance(4).without_decor(p.word(1));
                    let seeds = seeded(q);
                    match parameters(
                        ParserView { expressions: seeds.table, ..q },
                        p.function_types[p.word(3)].parameter_type_ids,
                        0,
                        Seq::empty(),
                    ) {
                        Err(e) => Err(e),
                        Ok((r, parameter_types)) => match (Body {
                            p: r,
                            f: FunctionView {
                                name: name_of(p.decor(p.word(1))),
                                control,
                                parameter_types,
                                return_type: if p.void_types.contains(p.word(0)) {
                                    None
                                } else {
                                    Some(p.types[p.word(0)].token)
                                },
                                expressions: seeds.expressions,
                                body: Seq::empty(),
                            },
                        }).blocks(self.m.types, self.m.constants) {
                            Err(e) => Err(e),
                            Ok(b) => Ok(
                                Decoder {
                                    p: b.p.with_function(
                                        p.word(1),
                                        Token::at(self.m.functions.len() as int),
                                    ).without_function_tables(),
                                    m: ModuleView {
                                        functions: self.m.functions.push(b.f),
                                        ..self.m
                                    },
                                },
                            ),
                        },
                    }
                },
            }
        }
    }
}

impl Parser {
    /// Reads the instructions of a block up to its `Return`. Where one of
    /// them fails, the function and the tables are as the instructions before
    /// it left them, but for what `failed_at` allows.
    #[verifier::loop_isolation(false)]
    pub fn next_block(
        &mut self,
        fun: &mut Function,
        type_store: &Storage<Type>,
        const_store: &Storage<Constant>,
    ) -> (r: Result<(), Error>)
        requires
            old(self).wf(),
            body_of(old(self), old(fun)).coherent(type_store.deep_view(), const_store.deep_view()),
        ensures
            final(self).wf(),
            r is Err ==> body_of(old(self), old(fun)).block_reached(
                type_store.deep_view(),
                const_store.deep_view(),
            ).failed_at(body_of(final(self), final(fun))),
            met_in_body(
                r,
                body_of(final(self), final(fun)),
                body_of(old(self), old(fun)).block(type_store.deep_view(), const_store.deep_view()),
                type_store.deep_view(),
                const_store.deep_view(),
            ),
    {
        let ghost types = type_store.deep_view();
        let ghost constants = const_store.deep_view();
        let ghost start = body_of(self, fun);
        let mut done = false;
        while !done
            invariant
                self.wf(),
                types == type_store.deep_view(),
                constants == const_store.deep_view(),
                body_of(self, fun).coherent(types, constants),
                done ==> start.block(types, constants) == Ok::<Body, ErrorView>(body_of(self, fun)),
                !done ==> start.block(types, constants) == body_of(self, fun).block(
                    types,
                    constants,
                ),
                !done ==> start.block_reached(types, constants) == body_of(
                    self,
                    fun,
                ).block_reached(types, constants),
            decreases words_left(self@),
        {
            let ghost before = body_of(self, fun);
            let inst = self.next_inst()?;
            proof {
                before.advance(1).instruction_stays(types, constants, inst);
            }
            match inst.op {
                Op::AccessChain => self.access_chain(fun, type_store, const_store, inst)?,
                Op::CompositeExtract => self.composite_extract(fun, type_store, const_store, inst)?,
                Op::CompositeConstruct => self.composite_construct(
                    fun,
                    type_store,
                    const_store,
                    inst,
                )?,
                Op::Load => self.load(fun, type_store, const_store, inst)?,
                Op::Store => self.store(fun, type_store, const_store, inst)?,
                Op::Return => {
                    inst.expect(1)?;
                    fun.body.push(Statement::Return { value: None });
                    done = true;
                },
                Op::VectorTimesScalar => self.vector_times_scalar(
                    fun,
                    type_store,
                    const_store,
                    inst,
                )?,
                Op::MatrixTimesVector => self.matrix_times_vector(
                    fun,
                    type_store,
                    const_store,
                    inst,
                )?,
                Op::SampledImage => self.sampled_image(fun, type_store, const_store, inst)?,
                Op::ImageSampleImplicitLod => self.image_sample(
                    fun,
                    type_store,
                    const_store,
                    inst,
                )?,
                _ => {
                    return Err(Error::UnsupportedInstruction(self.state(), inst.op));
                },
            }
        }
        Ok(())
    }

    /// Makes the store of expressions that a function starts with: one
    /// expression for each global variable, then one for each constant, and
    /// lets the ids of those stand for them.
    pub fn make_expression_storage(&mut self) -> (expressions: Storage<Expression>)
        requires
            old(self).wf(),
            old(self)@.expressions == Map::<Word, LookupExpression>::empty(),
        ensures
            final(self).wf(),
            expressions.deep_view() == seeded(old(self)@).expressions,
            final(self)@ == (ParserView { expressions: seeded(old(self)@).table, ..old(self)@ }),
    {
        let mut expressions: Storage<Expression> = Storage::new();
        let ghost start = self@;
        let variable_count = self.variable_count();
        let mut i: usize = 0;
        while i < variable_count
            invariant
                i <= variable_count,
                variable_count == start.variable_ids.len(),
                self.wf(),
                expressions.deep_view() == seeded_variables(start, i as nat).expressions,
                self@ == (ParserView {
                    expressions: seeded_variables(start, i as nat).table,
                    ..start
                }),
            decreases variable_count - i,
        {
            let (id, var) = self.variable_at(i);
            let token = expressions.append(Expression::GlobalVariable(var.token));
            self.insert_expression(id, LookupExpression { token, type_id: var.type_id });
            i = i + 1;
        }
        let constant_count = self.constant_count();
        let mut j: usize = 0;
        while j < constant_count
            invariant
                j <= constant_count,
                constant_count == start.constant_ids.len(),
                self.wf(),
                expressions.deep_view() == seeded_constants(start, j as nat).expressions,
                self@ == (ParserView {
                    expressions: seeded_constants(start, j as nat).table,
                    ..start
                }),
            decreases constant_count - j,
        {
            let (id, con) = self.constant_at(j);
            let token = expressions.append(Expression::Constant(con.token));
            self.insert_expression(id, LookupExpression { token, type_id: con.type_id });
            j = j + 1;
        }
        expressions
    }

    /// Reads the parameters of a function whose type is `fun_type`.
    #[verifier::loop_isolation(false)]
    pub fn next_parameters(&mut self, fun_type: Word) -> (r: Result<Vec<Token<Type>>, Error>)
        requires
            old(self).wf(),
            old(self)@.function_types.contains_key(fun_type),
        ensures
            final(self).wf(),
            read_on(old(self)@, final(self)@),
            match parameters(
                old(self)@,
                old(self)@.function_types[fun_type].parameter_type_ids,
                0,
                Seq::empty(),
            ) {
                Ok((p, types)) => r matches Ok(v) && v@ == types && final(self)@ == p
                    && final(self)@ == old(self)@.advance(p.pos - old(self)@.pos)
                    && p.pos >= old(self)@.pos,
                Err(e) => r matches Err(x) && x.deep_view() == e,
            },
    {
        let ghost start = self@;
        let ghost expected = start.function_types[fun_type].parameter_type_ids;
        let count = match self.lookup_function_type(fun_type) {
            Ok(ft) => ft.parameter_type_ids.len(),
            Err(e) => {
                return Err(e);
            },
        };
        let mut types: Vec<Token<Type>> = Vec::new();
        let mut i: usize = 0;
        while i < count
            invariant
                i <= count,
                count == expected.len(),
                self.wf(),
                self@ == start.advance(self@.pos - start.pos),
                self@.pos >= start.pos,
                expected == start.function_types[fun_type].parameter_type_ids,
                start.function_types.contains_key(fun_type),
                parameters(start, expected, 0, Seq::empty()) == parameters(
                    self@,
                    expected,
                    i as nat,
                    types@,
                ),
            decreases count - i,
        {
            let inst = self.next_inst()?;
            match inst.op {
                Op::FunctionParameter => {},
                _ => {
                    return Err(Error::InvalidParameter(inst.op));
                },
            }
            if inst.wc != 3 {
                return Err(Error::InvalidParameter(inst.op));
            }
            let type_id = self.next()?;
            let _id = self.next()?;
            let expected_id = match self.lookup_function_type(fun_type) {
                Ok(ft) => ft.parameter_type_ids[i],
                Err(e) => {
                    return Err(e);
                },
            };
            if type_id != expected_id {
                return Err(Error::WrongFunctionParameterType(type_id));
            }
            let ty = self.lookup_type(type_id)?.token;
            types.push(ty);
            i = i + 1;
        }
        Ok(types)
    }

    /// Reads the blocks of a function, each behind its label, up to the
    /// function's end. Where an instruction fails, the function and the
    /// tables are as the instructions before it left them, but for what
    /// `failed_at` allows.
    #[verifier::loop_isolation(false)]
    pub fn next_blocks(
        &mut self,
        fun: &mut Function,
        type_store: &Storage<Type>,
        const_store: &Storage<Constant>,
    ) -> (r: Result<(), Error>)
        requires
            old(self).wf(),
            body_of(old(self), old(fun)).coherent(type_store.deep_view(), const_store.deep_view()),
        ensures
            final(self).wf(),
            r is Err ==> body_of(old(self), old(fun)).blocks_reached(
                type_store.deep_view(),
                const_store.deep_view(),
            ).failed_at(body_of(final(self), final(fun))),
            met_in_body(
                r,
                body_of(final(self), final(fun)),
                body_of(old(self), old(fun)).blocks(
                    type_store.deep_view(),
                    const_store.deep_view(),
                ),
                type_store.deep_view(),
                const_store.deep_view(),
            ),
    {
        let ghost types = type_store.deep_view();
        let ghost constants = const_store.deep_view();
        let ghost start = body_of(self, fun);
        let mut done = false;
        while !done
            invariant
                self.wf(),
                body_of(self, fun).coherent(types, constants),
                done ==> start.blocks(types, constants) == Ok::<Body, ErrorView>(
                    body_of(self, fun),
                ),
                !done ==> start.blocks(types, constants) == body_of(self, fun).blocks(
                    types,
                    constants,
                ),
                !done ==> start.blocks_reached(types, constants) == body_of(
                    self,
                    fun,
                ).blocks_reached(types, constants),
            decreases words_left(self@),
        {
            let ghost before = body_of(self, fun);
            let fun_inst = self.next_inst()?;
            match fun_inst.op {
                Op::Label => {
                    fun_inst.expect(2)?;
                    let _id = self.next()?;
                    proof {
                        before.advance(2).block_stays(types, constants);
                    }
                    self.next_block(fun, type_store, const_store)?;
                },
                Op::FunctionEnd => {
                    fun_inst.expect(1)?;
                    done = true;
                },
                _ => {
                    return Err(Error::UnsupportedInstruction(self.state(), fun_inst.op));
                },
            }
        }
        Ok(())
    }

    /// Carries out the instruction `inst`, whose header was read, as `Decoder::function`
    /// says.
    pub fn function(&mut self, module: &mut Module, inst: Instruction) -> (r: Result<(), Error>)
        requires
            old(self).wf(),
            decoder_of(old(self), old(module)).coherent(),
        ensures
            final(self).wf(),
            r is Err ==> failed(
                decoder_of(old(self), old(module)),
                decoder_of(final(self), final(module)),
            ),
            met(
                r,
                decoder_of(final(self), final(module)),
                decoder_of(old(self), old(module)).function(inst),
            ),
    {
        let ghost d = decoder_of(self, module);
        let ghost types = module.deep_view().types;
        let ghost constants = module.deep_view().constants;
        self.switch(ModuleState::Function, inst.op)?;
        inst.expect(5)?;
        let result_type = self.next()?;
        let fun_id = self.next()?;
        let fun_control = self.next()?;
        let fun_type = self.next()?;
        let return_type_id = match self.lookup_function_type(fun_type) {
            Ok(ft) => ft.return_type_id,
            Err(e) => {
                return Err(e);
            },
        };
        if return_type_id != result_type {
            return Err(Error::WrongFunctionResultType(result_type));
        }
        let name = into_name(self.take_decoration(fun_id));
        let control = match FunctionControl::from_bits(fun_control) {
            Some(control) => control,
            None => {
                return Err(Error::UnsupportedFunctionControl(fun_control));
            },
        };
        let return_type = if self.is_void_type(result_type) {
            None
        } else {
            Some(self.lookup_type(result_type)?.token)
        };
        let ghost q = self@;
        let expressions = self.make_expression_storage();
        let ghost seeded_p = self@;
        proof {
            parameters_are_types(
                seeded_p,
                q.function_types[fun_type].parameter_type_ids,
                0,
                Seq::empty(),
                types.len() as int,
            );
        }
        let parameter_types = self.next_parameters(fun_type)?;
        let mut fun = Function {
            name,
            control,
            parameter_types,
            return_type,
            expressions,
            body: Vec::new(),
        };
        let ghost start = body_of(self, &fun);
        proof {
            seeded_body_is_coherent(Decoder { p: q, m: d.m }, start);
            start.blocks_stay(types, constants);
        }
        proof {
            start.blocks_reached_stays(types, constants);
        }
        self.next_blocks(&mut fun, &module.types, &module.constants)?;
        proof {
            coherent_body_is_valid(body_of(self, &fun), d.m);
        }
        let token = module.functions.append(fun);
        self.insert_function(fun_id, token);
        self.clear_function_tables();
        Ok(())
    }
}

} // verus!

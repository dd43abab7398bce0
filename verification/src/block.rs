//! The body of a function: the instructions of a block, each of which adds
//! an expression or a statement to the function.

use crate::error::{Error, ErrorView, Instruction};
use crate::ir::{
    Constant, ConstantInner, ConstantView, Expression, ExpressionView, Function, FunctionView,
    ScalarKind, Statement, Storage, Token, Type, TypeInner, TypeInnerView, TypeView,
};
use crate::model::{kept, read_on};
use crate::state::{LookupExpression, LookupSampledImage, LookupType, Parser, ParserView};
use crate::values::{low_word, low_word_of_signed, low_word_of_unsigned};
use crate::words::{Op, Word};
use vstd::prelude::*;

verus! {

/// A decoder inside a function: the state of the reader and the function
/// that it builds.
#[verifier::ext_equal]
pub struct Body {
    /// The state of the parser.
    pub p: ParserView,
    /// The function as far as it is built.
    pub f: FunctionView,
}

/// The model of a parser and the function that it fills.
pub open spec fn body_of(parser: &Parser, fun: &Function) -> Body {
    Body { p: parser@, f: fun.deep_view() }
}

/// The shape is that of a signed or unsigned integer.
pub open spec fn is_integer(inner: TypeInnerView) -> bool {
    inner matches TypeInnerView::Scalar { kind, .. } && kind != ScalarKind::Float
}

/// The shape is one whose parts all have the same type: an array, a vector
/// or a matrix.
pub open spec fn is_uniform(inner: TypeInnerView) -> bool {
    inner is Array || inner is Vector || inner is Matrix
}

/// The shape is that of a floating-point scalar or vector.
pub open spec fn is_float_coordinate(inner: TypeInnerView) -> bool {
    ||| inner matches TypeInnerView::Scalar { kind, .. } && kind == ScalarKind::Float
    ||| inner matches TypeInnerView::Vector { kind, .. } && kind == ScalarKind::Float
}

/// The member that an index expression selects: the lower 32 bits of its
/// value, where it is an integer constant.
pub open spec fn constant_index(
    f: FunctionView,
    constants: Seq<ConstantView>,
    token: Token<Expression>,
) -> Option<Word> {
    match f.expressions[token.index as int] {
        ExpressionView::Constant(c) => match constants[c.index as int].inner {
            ConstantInner::Uint(v) => Some(low_word(v as int)),
            ConstantInner::Sint(v) => Some(low_word(v as int)),
            ConstantInner::Float(_) => None,
        },
        _ => None,
    }
}

impl ExpressionView {
    /// The expression can stand at place `place` of a function: it refers
    /// to earlier expressions and to what the stores hold, and if it is for
    /// a global variable, it is the one that every function has at that
    /// place.
    pub open spec fn placed(self, place: int, p: ParserView, types: int, constants: int) -> bool {
        match self {
            ExpressionView::GlobalVariable(token) => place < p.variable_ids.len() && token
                == p.variables[p.variable_ids[place]].token,
            _ => self.refers_within(place, types, constants, 0),
        }
    }
}

impl Body {
    /// Every handle that the tables and the function hold is a handle of the
    /// stores, and an expression refers to earlier expressions only. The
    /// expressions for the global variables are those that the function
    /// starts with, one for each variable in the order of their definition.
    pub open spec fn coherent(self, types: Seq<TypeView>, constants: Seq<ConstantView>) -> bool {
        &&& self.p.inv()
        &&& forall|id: Word| #[trigger]
            self.p.types.contains_key(id) ==> self.p.types[id].token.index < types.len()
        &&& forall|id: Word| #[trigger]
            self.p.expressions.contains_key(id) ==> self.p.expressions[id].token.index
                < self.f.expressions.len()
        &&& forall|id: Word| #[trigger]
            self.p.sampled_images.contains_key(id) ==> self.p.sampled_images[id].image.index
                < self.f.expressions.len() && self.p.sampled_images[id].sampler.index
                < self.f.expressions.len()
        &&& forall|i: int|
            0 <= i < self.f.expressions.len() ==> (#[trigger] self.f.expressions[i]).placed(
                i,
                self.p,
                types.len() as int,
                constants.len() as int,
            )
        &&& forall|i: int|
            0 <= i < self.f.body.len() ==> (#[trigger] self.f.body[i]).refers_within(
                self.f.expressions.len() as int,
            )
        &&& forall|i: int|
            0 <= i < self.f.parameter_types.len() ==> (#[trigger] self.f.parameter_types[i]).index
                < types.len()
        &&& self.f.return_type matches Some(token) ==> token.index < types.len()
    }

    /// The body after `n` more words were read.
    pub open spec fn advance(self, n: int) -> Body {
        Body { p: self.p.advance(n), ..self }
    }

    /// `after` is what is left of this body where an instruction failed
    /// that adds to the function only at its end: words were read, and
    /// neither the tables nor the function changed.
    pub open spec fn stopped(self, after: Body) -> bool {
        read_on(self.p, after.p) && after.f == self.f
    }

    /// `after` is what is left of this body where a walk failed: words were
    /// read, and expressions may stand behind those that were there. Neither
    /// the tables nor the statements changed.
    pub open spec fn broke_off(self, after: Body) -> bool {
        &&& read_on(self.p, after.p)
        &&& after.f == (FunctionView { expressions: after.f.expressions, ..self.f })
        &&& kept(self.f.expressions, after.f.expressions)
    }

    /// The handle of the expression that is appended next.
    pub open spec fn next_token(self) -> Token<Expression> {
        Token::at(self.f.expressions.len() as int)
    }

    /// The expression is appended to the function.
    pub open spec fn push(self, expression: ExpressionView) -> Body {
        Body {
            f: FunctionView { expressions: self.f.expressions.push(expression), ..self.f },
            ..self
        }
    }

    /// `id` stands for the expression `token`, of the type `type_id`.
    pub open spec fn bind(self, id: Word, token: Token<Expression>, type_id: Word) -> Body {
        Body { p: self.p.with_expression(id, LookupExpression { token, type_id }), ..self }
    }

    /// The expression is appended, and `id` stands for it.
    pub open spec fn emit(self, id: Word, type_id: Word, expression: ExpressionView) -> Body {
        self.push(expression).bind(id, self.next_token(), type_id)
    }

    /// The statement is appended to the function.
    pub open spec fn statement(self, statement: Statement) -> Body {
        Body { f: FunctionView { body: self.f.body.push(statement), ..self.f }, ..self }
    }

    /// The shape of the type that `type_id` stands for.
    pub open spec fn shape(self, types: Seq<TypeView>, type_id: Word) -> TypeInnerView {
        types[self.p.types[type_id].token.index as int].inner
    }

    /// The shape of the type of the expression that `id` stands for.
    pub open spec fn shape_of(self, types: Seq<TypeView>, id: Word) -> TypeInnerView {
        self.shape(types, self.p.expressions[id].type_id)
    }

    /// The error for an operand `id` that is no expression, or whose type is
    /// no type.
    pub open spec fn operand_error(self, id: Word) -> Option<ErrorView> {
        if !self.p.expressions.contains_key(id) {
            Some(ErrorView::InvalidId(id))
        } else if !self.p.types.contains_key(self.p.expressions[id].type_id) {
            Some(ErrorView::InvalidId(self.p.expressions[id].type_id))
        } else {
            None
        }
    }

    /// The handle of the type of the expression that `id` stands for.
    pub open spec fn type_token_of(self, id: Word) -> Token<Type> {
        self.p.types[self.p.expressions[id].type_id].token
    }

    /// The walk of an access chain over the `left` indices that are still to
    /// be read, from the expression `base` whose type is `type_id`. Each
    /// index names an expression of integer type. Into a struct it must be a
    /// constant, which selects the member; into an array, a vector or a
    /// matrix it selects an element. The result is the last expression.
    pub open spec fn walk(
        self,
        types: Seq<TypeView>,
        constants: Seq<ConstantView>,
        base: Token<Expression>,
        type_id: Word,
        left: nat,
    ) -> Result<(Body, Token<Expression>), ErrorView>
        decreases left,
    {
        let p = self.p;
        if left == 0 {
            Ok((self, base))
        } else if p.remaining() < 1 {
            Err(ErrorView::IncompleteData)
        } else if self.operand_error(p.word(0)) is Some {
            Err(self.operand_error(p.word(0))->0)
        } else if !is_integer(self.shape_of(types, p.word(0))) {
            Err(ErrorView::UnsupportedType(self.type_token_of(p.word(0))))
        } else if !p.types.contains_key(type_id) {
            Err(ErrorView::InvalidId(type_id))
        } else if self.shape(types, type_id) is Struct {
            match constant_index(self.f, constants, p.expressions[p.word(0)].token) {
                None => Err(ErrorView::InvalidAccessIndex(p.expressions[p.word(0)].token)),
                Some(index) => if !p.member_type_ids.contains_key((type_id, index)) {
                    Err(ErrorView::InvalidAccessType(type_id))
                } else {
                    self.advance(1).push(ExpressionView::AccessIndex { base, index }).walk(
                        types,
                        constants,
                        self.next_token(),
                        p.member_type_ids[(type_id, index)],
                        (left - 1) as nat,
                    )
                },
            }
        } else if is_uniform(self.shape(types, type_id)) {
            match p.types[type_id].base_id {
                None => Err(ErrorView::InvalidAccessType(type_id)),
                Some(element) => self.advance(1).push(
                    ExpressionView::Access { base, index: p.expressions[p.word(0)].token },
                ).walk(types, constants, self.next_token(), element, (left - 1) as nat),
            }
        } else {
            Err(ErrorView::UnsupportedType(p.types[type_id].token))
        }
    }

    /// Operands: the id of the result's type, id, the id of the base, then
    /// the ids of the indices. The base must be of a type that is built on
    /// another, which is where the walk starts.
    pub open spec fn access_chain(
        self,
        types: Seq<TypeView>,
        constants: Seq<ConstantView>,
        inst: Instruction,
    ) -> Result<Body, ErrorView> {
        let p = self.p;
        if inst.wc < 4 {
            Err(inst.bad_count())
        } else if p.remaining() < 3 {
            Err(ErrorView::IncompleteData)
        } else if self.operand_error(p.word(2)) is Some {
            Err(self.operand_error(p.word(2))->0)
        } else {
            match p.types[p.expressions[p.word(2)].type_id].base_id {
                None => Err(ErrorView::UnsupportedType(self.type_token_of(p.word(2)))),
                Some(pointee) => match self.advance(3).walk(
                    types,
                    constants,
                    p.expressions[p.word(2)].token,
                    pointee,
                    (inst.wc - 4) as nat,
                ) {
                    Ok((b, token)) => Ok(b.bind(p.word(1), token, p.word(0))),
                    Err(e) => Err(e),
                },
            }
        }
    }

    /// The walk of a composite extraction over the `left` literal indices
    /// that are still to be read, from the expression `base` whose type is
    /// `type_id`.
    pub open spec fn extract(
        self,
        types: Seq<TypeView>,
        base: Token<Expression>,
        type_id: Word,
        left: nat,
    ) -> Result<(Body, Token<Expression>), ErrorView>
        decreases left,
    {
        let p = self.p;
        if left == 0 {
            Ok((self, base))
        } else if p.remaining() < 1 {
            Err(ErrorView::IncompleteData)
        } else if !p.types.contains_key(type_id) {
            Err(ErrorView::InvalidId(type_id))
        } else {
            let part = if self.shape(types, type_id) is Struct {
                if p.member_type_ids.contains_key((type_id, p.word(0))) {
                    Ok(p.member_type_ids[(type_id, p.word(0))])
                } else {
                    Err(ErrorView::InvalidAccessType(type_id))
                }
            } else if is_uniform(self.shape(types, type_id)) {
                match p.types[type_id].base_id {
                    Some(element) => Ok(element),
                    None => Err(ErrorView::InvalidAccessType(type_id)),
                }
            } else {
                Err(ErrorView::UnsupportedType(p.types[type_id].token))
            };
            match part {
                Err(e) => Err(e),
                Ok(part_id) => self.advance(1).push(
                    ExpressionView::AccessIndex { base, index: p.word(0) },
                ).extract(types, self.next_token(), part_id, (left - 1) as nat),
            }
        }
    }

    /// Operands: the id of the result's type, id, the id of the composite,
    /// then the indices themselves.
    pub open spec fn composite_extract(self, types: Seq<TypeView>, inst: Instruction) -> Result<
        Body,
        ErrorView,
    > {
        let p = self.p;
        if inst.wc < 4 {
            Err(inst.bad_count())
        } else if p.remaining() < 3 {
            Err(ErrorView::IncompleteData)
        } else if !p.expressions.contains_key(p.word(2)) {
            Err(ErrorView::InvalidId(p.word(2)))
        } else {
            match self.advance(3).extract(
                types,
                p.expressions[p.word(2)].token,
                p.expressions[p.word(2)].type_id,
                (inst.wc - 4) as nat,
            ) {
                Ok((b, token)) => Ok(b.bind(p.word(1), token, p.word(0))),
                Err(e) => Err(e),
            }
        }
    }

    /// The expressions that the next `left` words stand for, behind `done`.
    pub open spec fn components(p: ParserView, left: nat, done: Seq<Token<Expression>>) -> Result<
        Seq<Token<Expression>>,
        ErrorView,
    >
        decreases left,
    {
        if left == 0 {
            Ok(done)
        } else if p.remaining() < 1 {
            Err(ErrorView::IncompleteData)
        } else if !p.expressions.contains_key(p.word(0)) {
            Err(ErrorView::InvalidId(p.word(0)))
        } else {
            Body::components(
                p.advance(1),
                (left - 1) as nat,
                done.push(p.expressions[p.word(0)].token),
            )
        }
    }

    /// Operands: the id of the result's type, id, then the ids of the components.
    pub open spec fn composite_construct(self, inst: Instruction) -> Result<Body, ErrorView> {
        let p = self.p;
        if inst.wc < 3 {
            Err(inst.bad_count())
        } else if p.remaining() < 2 {
            Err(ErrorView::IncompleteData)
        } else {
            match Body::components(p.advance(2), (inst.wc - 3) as nat, Seq::empty()) {
                Err(e) => Err(e),
                Ok(components) => if !p.types.contains_key(p.word(0)) {
                    Err(ErrorView::InvalidId(p.word(0)))
                } else {
                    Ok(
                        self.advance(inst.wc - 1).emit(
                            p.word(1),
                            p.word(0),
                            ExpressionView::Compose { ty: p.types[p.word(0)].token, components },
                        ),
                    )
                },
            }
        }
    }

    /// Operands: the id of the result's type, id, the id of the pointer, and
    /// then a memory access or nothing. The pointer's type must be a pointer
    /// type built on the result's type.
    pub open spec fn load(self, types: Seq<TypeView>, inst: Instruction) -> Result<Body, ErrorView> {
        let p = self.p;
        if inst.wc < 4 {
            Err(inst.bad_count())
        } else if p.remaining() < 3 {
            Err(ErrorView::IncompleteData)
        } else if inst.wc > 5 {
            Err(inst.bad_count())
        } else if p.remaining() < inst.wc - 1 {
            Err(ErrorView::IncompleteData)
        } else if self.operand_error(p.word(2)) is Some {
            Err(self.operand_error(p.word(2))->0)
        } else if p.types[p.expressions[p.word(2)].type_id].base_id != Some(p.word(0)) {
            Err(ErrorView::InvalidLoadType(p.word(0)))
        } else if !(self.shape_of(types, p.word(2)) is Pointer) {
            Err(ErrorView::UnsupportedType(self.type_token_of(p.word(2))))
        } else {
            Ok(
                self.advance(inst.wc - 1).emit(
                    p.word(1),
                    p.word(0),
                    ExpressionView::Load { pointer: p.expressions[p.word(2)].token },
                ),
            )
        }
    }

    /// Operands: the id of the pointer, the id of the value, and then a
    /// memory access or nothing. The pointer's type must be a pointer type
    /// built on the value's type.
    pub open spec fn store(self, types: Seq<TypeView>, inst: Instruction) -> Result<Body, ErrorView> {
        let p = self.p;
        if inst.wc < 3 {
            Err(inst.bad_count())
        } else if p.remaining() < 2 {
            Err(ErrorView::IncompleteData)
        } else if inst.wc > 4 {
            Err(inst.bad_count())
        } else if p.remaining() < inst.wc - 1 {
            Err(ErrorView::IncompleteData)
        } else if self.operand_error(p.word(0)) is Some {
            Err(self.operand_error(p.word(0))->0)
        } else if !(self.shape_of(types, p.word(0)) is Pointer) {
            Err(ErrorView::UnsupportedType(self.type_token_of(p.word(0))))
        } else if !p.expressions.contains_key(p.word(1)) {
            Err(ErrorView::InvalidId(p.word(1)))
        } else if p.types[p.expressions[p.word(0)].type_id].base_id != Some(
            p.expressions[p.word(1)].type_id,
        ) {
            Err(ErrorView::InvalidStoreType(p.expressions[p.word(1)].type_id))
        } else {
            Ok(
                self.advance(inst.wc - 1).statement(
                    Statement::Store {
                        pointer: p.expressions[p.word(0)].token,
                        value: p.expressions[p.word(1)].token,
                    },
                ),
            )
        }
    }

    /// Operands: the id of the result's type, id, the id of the vector, the
    /// id of the scalar. The result and the vector are floating-point vectors
    /// of one size and width, and the scalar is a float of that width.
    pub open spec fn vector_times_scalar(self, types: Seq<TypeView>, inst: Instruction) -> Result<
        Body,
        ErrorView,
    > {
        let p = self.p;
        if inst.wc != 5 {
            Err(inst.bad_count())
        } else if p.remaining() < 1 {
            Err(ErrorView::IncompleteData)
        } else if !p.types.contains_key(p.word(0)) {
            Err(ErrorView::InvalidId(p.word(0)))
        } else {
            match self.shape(types, p.word(0)) {
                TypeInnerView::Vector { size, kind: ScalarKind::Float, width } => {
                    if p.remaining() < 4 {
                        Err(ErrorView::IncompleteData)
                    } else if self.operand_error(p.word(2)) is Some {
                        Err(self.operand_error(p.word(2))->0)
                    } else if self.shape_of(types, p.word(2)) != (TypeInnerView::Vector {
                        size,
                        kind: ScalarKind::Float,
                        width,
                    }) {
                        Err(ErrorView::UnsupportedType(self.type_token_of(p.word(2))))
                    } else if self.operand_error(p.word(3)) is Some {
                        Err(self.operand_error(p.word(3))->0)
                    } else if self.shape_of(types, p.word(3)) != (TypeInnerView::Scalar {
                        kind: ScalarKind::Float,
                        width,
                    }) {
                        Err(ErrorView::UnsupportedType(self.type_token_of(p.word(3))))
                    } else {
                        Ok(
                            self.advance(4).emit(
                                p.word(1),
                                p.word(0),
                                ExpressionView::Mul(
                                    p.expressions[p.word(2)].token,
                                    p.expressions[p.word(3)].token,
                                ),
                            ),
                        )
                    }
                },
                _ => Err(ErrorView::UnsupportedType(p.types[p.word(0)].token)),
            }
        }
    }

    /// Operands: the id of the result's type, id, the id of the matrix, the
    /// id of the vector. All are of floats of one width; the result has as
    /// many components as the matrix has rows, the vector as many as it has
    /// columns.
    pub open spec fn matrix_times_vector(self, types: Seq<TypeView>, inst: Instruction) -> Result<
        Body,
        ErrorView,
    > {
        let p = self.p;
        if inst.wc != 5 {
            Err(inst.bad_count())
        } else if p.remaining() < 1 {
            Err(ErrorView::IncompleteData)
        } else if !p.types.contains_key(p.word(0)) {
            Err(ErrorView::InvalidId(p.word(0)))
        } else {
            match self.shape(types, p.word(0)) {
                TypeInnerView::Vector { size, kind: ScalarKind::Float, width } => {
                    if p.remaining() < 4 {
                        Err(ErrorView::IncompleteData)
                    } else if self.operand_error(p.word(2)) is Some {
                        Err(self.operand_error(p.word(2))->0)
                    } else {
                        match self.shape_of(types, p.word(2)) {
                            TypeInnerView::Matrix {
                                columns,
                                rows,
                                kind: ScalarKind::Float,
                                width: matrix_width,
                            } if rows == size && matrix_width == width => {
                                if self.operand_error(p.word(3)) is Some {
                                    Err(self.operand_error(p.word(3))->0)
                                } else if self.shape_of(types, p.word(3)) != (TypeInnerView::Vector {
                                    size: columns,
                                    kind: ScalarKind::Float,
                                    width,
                                }) {
                                    Err(ErrorView::UnsupportedType(self.type_token_of(p.word(3))))
                                } else {
                                    Ok(
                                        self.advance(4).emit(
                                            p.word(1),
                                            p.word(0),
                                            ExpressionView::Mul(
                                                p.expressions[p.word(2)].token,
                                                p.expressions[p.word(3)].token,
                                            ),
                                        ),
                                    )
                                }
                            },
                            _ => Err(ErrorView::UnsupportedType(self.type_token_of(p.word(2)))),
                        }
                    }
                },
                _ => Err(ErrorView::UnsupportedType(p.types[p.word(0)].token)),
            }
        }
    }

    /// Operands: the id of the result's type, id, the id of the image, the
    /// id of the sampler. The pair is kept under the id; no expression is made.
    pub open spec fn sampled_image(self, inst: Instruction) -> Result<Body, ErrorView> {
        let p = self.p;
        if inst.wc != 5 {
            Err(inst.bad_count())
        } else if p.remaining() < 4 {
            Err(ErrorView::IncompleteData)
        } else if !p.expressions.contains_key(p.word(2)) {
            Err(ErrorView::InvalidId(p.word(2)))
        } else if !p.expressions.contains_key(p.word(3)) {
            Err(ErrorView::InvalidId(p.word(3)))
        } else {
            Ok(
                Body {
                    p: p.advance(4).with_sampled_image(
                        p.word(1),
                        LookupSampledImage {
                            image: p.expressions[p.word(2)].token,
                            sampler: p.expressions[p.word(3)].token,
                        },
                    ),
                    ..self
                },
            )
        }
    }

    /// Operands: the id of the result's type, id, the id of the sampled
    /// image, the id of the coordinate, which is a float or a vector of
    /// floats. Words of the instruction behind these are left unread.
    pub open spec fn image_sample(self, types: Seq<TypeView>, inst: Instruction) -> Result<
        Body,
        ErrorView,
    > {
        let p = self.p;
        if inst.wc < 5 {
            Err(inst.bad_count())
        } else if p.remaining() < 4 {
            Err(ErrorView::IncompleteData)
        } else if !p.sampled_images.contains_key(p.word(2)) {
            Err(ErrorView::InvalidId(p.word(2)))
        } else if self.operand_error(p.word(3)) is Some {
            Err(self.operand_error(p.word(3))->0)
        } else if !is_float_coordinate(self.shape_of(types, p.word(3))) {
            Err(ErrorView::UnsupportedType(self.type_token_of(p.word(3))))
        } else {
            Ok(
                self.advance(4).emit(
                    p.word(1),
                    p.word(0),
                    ExpressionView::ImageSample {
                        image: p.sampled_images[p.word(2)].image,
                        sampler: p.sampled_images[p.word(2)].sampler,
                        coordinate: p.expressions[p.word(3)].token,
                    },
                ),
            )
        }
    }

    /// What the instruction `inst`, which is not the end of the block, does
    /// to the function. The state is the one behind the header.
    pub open spec fn instruction(
        self,
        types: Seq<TypeView>,
        constants: Seq<ConstantView>,
        inst: Instruction,
    ) -> Result<Body, ErrorView> {
        match inst.op {
            Op::AccessChain => self.access_chain(types, constants, inst),
            Op::CompositeExtract => self.composite_extract(types, inst),
            Op::CompositeConstruct => self.composite_construct(inst),
            Op::Load => self.load(types, inst),
            Op::Store => self.store(types, inst),
            Op::VectorTimesScalar => self.vector_times_scalar(types, inst),
            Op::MatrixTimesVector => self.matrix_times_vector(types, inst),
            Op::SampledImage => self.sampled_image(inst),
            Op::ImageSampleImplicitLod => self.image_sample(types, inst),
            _ => Err(ErrorView::UnsupportedInstruction(self.p.state, inst.op)),
        }
    }
}

/// The code did what the model says of an instruction in a function.
pub open spec fn met_in_body(
    result: Result<(), Error>,
    after: Body,
    expected: Result<Body, ErrorView>,
    types: Seq<TypeView>,
    constants: Seq<ConstantView>,
) -> bool {
    match expected {
        Ok(b) => result is Ok && after.p =~= b.p && after.f =~= b.f && after.coherent(
            types,
            constants,
        ),
        Err(e) => result matches Err(x) && x.deep_view() == e,
    }
}

/// A constant that an expression refers to is one of the first `count`.
pub open spec fn constant_below(expression: ExpressionView, count: nat) -> bool {
    expression matches ExpressionView::Constant(c) ==> c.index < count
}

/// The expression can be appended to the function: it is for no global
/// variable, and what it refers to is there.
pub open spec fn fits(
    expression: ExpressionView,
    b: Body,
    types: Seq<TypeView>,
    constants: Seq<ConstantView>,
) -> bool {
    !(expression is GlobalVariable) && expression.refers_within(
        b.f.expressions.len() as int,
        types.len() as int,
        constants.len() as int,
        0,
    )
}

impl Parser {
    /// The expression that `id` stands for, and its type.
    pub fn operand(&self, id: Word) -> (r: Result<(LookupExpression, LookupType), Error>)
        requires
            self.wf(),
        ensures
            match r {
                Ok((expression, ty)) => {
                    &&& self@.expressions.contains_key(id)
                    &&& expression == self@.expressions[id]
                    &&& self@.types.contains_key(expression.type_id)
                    &&& ty == self@.types[expression.type_id]
                },
                Err(e) => {
                    ||| !self@.expressions.contains_key(id) && e.deep_view() == ErrorView::InvalidId(
                        id,
                    )
                    ||| self@.expressions.contains_key(id) && !self@.types.contains_key(
                        self@.expressions[id].type_id,
                    ) && e.deep_view() == ErrorView::InvalidId(self@.expressions[id].type_id)
                },
            },
    {
        let expression = self.lookup_expression(id)?;
        let ty = self.lookup_type(expression.type_id)?;
        Ok((expression, ty))
    }

    /// Appends an expression to the function.
    pub fn push_expression(
        &mut self,
        fun: &mut Function,
        expression: Expression,
        type_store: &Storage<Type>,
        const_store: &Storage<Constant>,
    ) -> (token: Token<Expression>)
        requires
            old(self).wf(),
            body_of(old(self), old(fun)).coherent(type_store.deep_view(), const_store.deep_view()),
            fits(
                expression.deep_view(),
                body_of(old(self), old(fun)),
                type_store.deep_view(),
                const_store.deep_view(),
            ),
        ensures
            final(self).wf(),
            *final(self) == *old(self),
            token == body_of(old(self), old(fun)).next_token(),
            body_of(final(self), final(fun)) == body_of(old(self), old(fun)).push(
                expression.deep_view(),
            ),
            body_of(final(self), final(fun)).coherent(
                type_store.deep_view(),
                const_store.deep_view(),
            ),
    {
        fun.expressions.append(expression)
    }

    /// Appends an expression to the function and lets `id` stand for it.
    pub fn emit(
        &mut self,
        fun: &mut Function,
        id: Word,
        type_id: Word,
        expression: Expression,
        type_store: &Storage<Type>,
        const_store: &Storage<Constant>,
    )
        requires
            old(self).wf(),
            body_of(old(self), old(fun)).coherent(type_store.deep_view(), const_store.deep_view()),
            fits(
                expression.deep_view(),
                body_of(old(self), old(fun)),
                type_store.deep_view(),
                const_store.deep_view(),
            ),
        ensures
            final(self).wf(),
            body_of(final(self), final(fun)) == body_of(old(self), old(fun)).emit(
                id,
                type_id,
                expression.deep_view(),
            ),
            body_of(final(self), final(fun)).coherent(
                type_store.deep_view(),
                const_store.deep_view(),
            ),
    {
        let token = fun.expressions.append(expression);
        self.insert_expression(id, LookupExpression { token, type_id });
    }

    /// The member that the index expression `token` selects, if it is an
    /// integer constant.
    pub fn constant_index(
        &self,
        fun: &Function,
        const_store: &Storage<Constant>,
        token: Token<Expression>,
    ) -> (r: Option<Word>)
        requires
            token.index < fun.deep_view().expressions.len(),
            constant_below(
                fun.deep_view().expressions[token.index as int],
                const_store.deep_view().len(),
            ),
        ensures
            r == constant_index(fun.deep_view(), const_store.deep_view(), token),
    {
        match fun.expressions.get(token) {
            Expression::Constant(c) => match const_store.get(*c).inner {
                ConstantInner::Uint(v) => Some(low_word_of_unsigned(v)),
                ConstantInner::Sint(v) => Some(low_word_of_signed(v)),
                ConstantInner::Float(_) => None,
            },
            _ => None,
        }
    }

    /// Carries out the instruction `inst`, whose header was read, as
    /// `Body::access_chain` says.
    #[verifier::loop_isolation(false)]
    pub fn access_chain(
        &mut self,
        fun: &mut Function,
        type_store: &Storage<Type>,
        const_store: &Storage<Constant>,
        inst: Instruction,
    ) -> (r: Result<(), Error>)
        requires
            old(self).wf(),
            body_of(old(self), old(fun)).coherent(type_store.deep_view(), const_store.deep_view()),
        ensures
            final(self).wf(),
            r is Err ==> body_of(old(self), old(fun)).broke_off(body_of(final(self), final(fun))),
            met_in_body(
                r,
                body_of(final(self), final(fun)),
                body_of(old(self), old(fun)).access_chain(
                    type_store.deep_view(),
                    const_store.deep_view(),
                    inst,
                ),
                type_store.deep_view(),
                const_store.deep_view(),
            ),
    {
        inst.expect_at_least(4)?;
        let result_type_id = self.next()?;
        let result_id = self.next()?;
        let base_id = self.next()?;
        let (expr, ptr_type) = self.operand(base_id)?;
        let mut base_token = expr.token;
        let mut type_id = match ptr_type.base_id {
            Some(pointee) => pointee,
            None => {
                return Err(Error::UnsupportedType(ptr_type.token));
            },
        };
        let ghost types = type_store.deep_view();
        let ghost constants = const_store.deep_view();
        let ghost start = body_of(self, fun);
        let ghost start_token = base_token;
        let ghost start_type = type_id;
        let count: u16 = inst.wc - 4;
        let mut i: u16 = 0;
        while i < count
            invariant
                i <= count,
                self.wf(),
                body_of(self, fun).coherent(types, constants),
                body_of(old(self), old(fun)).broke_off(body_of(self, fun)),
                base_token.index < fun.deep_view().expressions.len(),
                start.walk(types, constants, start_token, start_type, count as nat) == body_of(
                    self,
                    fun,
                ).walk(types, constants, base_token, type_id, (count - i) as nat),
            decreases count - i,
        {
            let access_id = self.next()?;
            let (index_expr, index_type) = self.operand(access_id)?;
            match type_store.get(index_type.token).inner {
                TypeInner::Scalar { kind: ScalarKind::Uint, .. } => {},
                TypeInner::Scalar { kind: ScalarKind::Sint, .. } => {},
                _ => {
                    return Err(Error::UnsupportedType(index_type.token));
                },
            }
            let type_lookup = self.lookup_type(type_id)?;
            match type_store.get(type_lookup.token).inner {
                TypeInner::Struct { .. } => {
                    let index = match self.constant_index(fun, const_store, index_expr.token) {
                        Some(index) => index,
                        None => {
                            return Err(Error::InvalidAccessIndex(index_expr.token));
                        },
                    };
                    let member_type = match self.member_type_id(type_id, index) {
                        Some(member_type) => member_type,
                        None => {
                            return Err(Error::InvalidAccessType(type_id));
                        },
                    };
                    base_token =
                    self.push_expression(
                        fun,
                        Expression::AccessIndex { base: base_token, index },
                        type_store,
                        const_store,
                    );
                    type_id = member_type;
                },
                TypeInner::Array { .. } | TypeInner::Vector { .. } | TypeInner::Matrix { .. } => {
                    let element = match type_lookup.base_id {
                        Some(element) => element,
                        None => {
                            return Err(Error::InvalidAccessType(type_id));
                        },
                    };
                    base_token =
                    self.push_expression(
                        fun,
                        Expression::Access { base: base_token, index: index_expr.token },
                        type_store,
                        const_store,
                    );
                    type_id = element;
                },
                _ => {
                    return Err(Error::UnsupportedType(type_lookup.token));
                },
            }
            i = i + 1;
        }
        self.insert_expression(
            result_id,
            LookupExpression { token: base_token, type_id: result_type_id },
        );
        Ok(())
    }

    /// Carries out the instruction `inst`, whose header was read, as
    /// `Body::composite_extract` says.
    #[verifier::loop_isolation(false)]
    pub fn composite_extract(
        &mut self,
        fun: &mut Function,
        type_store: &Storage<Type>,
        const_store: &Storage<Constant>,
        inst: Instruction,
    ) -> (r: Result<(), Error>)
        requires
            old(self).wf(),
            body_of(old(self), old(fun)).coherent(type_store.deep_view(), const_store.deep_view()),
        ensures
            final(self).wf(),
            r is Err ==> body_of(old(self), old(fun)).broke_off(body_of(final(self), final(fun))),
            met_in_body(
                r,
                body_of(final(self), final(fun)),
                body_of(old(self), old(fun)).composite_extract(type_store.deep_view(), inst),
                type_store.deep_view(),
                const_store.deep_view(),
            ),
    {
        inst.expect_at_least(4)?;
        let result_type_id = self.next()?;
        let result_id = self.next()?;
        let base_id = self.next()?;
        let base = self.lookup_expression(base_id)?;
        let mut token = base.token;
        let mut type_id = base.type_id;
        let ghost types = type_store.deep_view();
        let ghost constants = const_store.deep_view();
        let ghost start = body_of(self, fun);
        let count: u16 = inst.wc - 4;
        let mut i: u16 = 0;
        while i < count
            invariant
                i <= count,
                self.wf(),
                body_of(self, fun).coherent(types, constants),
                body_of(old(self), old(fun)).broke_off(body_of(self, fun)),
                token.index < fun.deep_view().expressions.len(),
                start.extract(types, base.token, base.type_id, count as nat) == body_of(
                    self,
                    fun,
                ).extract(types, token, type_id, (count - i) as nat),
            decreases count - i,
        {
            let index = self.next()?;
            let type_lookup = self.lookup_type(type_id)?;
            let part_id = match type_store.get(type_lookup.token).inner {
                TypeInner::Struct { .. } => match self.member_type_id(type_id, index) {
                    Some(part_id) => part_id,
                    None => {
                        return Err(Error::InvalidAccessType(type_id));
                    },
                },
                TypeInner::Array { .. } | TypeInner::Vector { .. } | TypeInner::Matrix { .. } => {
                    match type_lookup.base_id {
                        Some(part_id) => part_id,
                        None => {
                            return Err(Error::InvalidAccessType(type_id));
                        },
                    }
                },
                _ => {
                    return Err(Error::UnsupportedType(type_lookup.token));
                },
            };
            token =
            self.push_expression(
                fun,
                Expression::AccessIndex { base: token, index },
                type_store,
                const_store,
            );
            type_id = part_id;
            i = i + 1;
        }
        self.insert_expression(result_id, LookupExpression { token, type_id: result_type_id });
        Ok(())
    }

    /// Carries out the instruction `inst`, whose header was read, as
    /// `Body::composite_construct` says.
    #[verifier::loop_isolation(false)]
    pub fn composite_construct(
        &mut self,
        fun: &mut Function,
        type_store: &Storage<Type>,
        const_store: &Storage<Constant>,
        inst: Instruction,
    ) -> (r: Result<(), Error>)
        requires
            old(self).wf(),
            body_of(old(self), old(fun)).coherent(type_store.deep_view(), const_store.deep_view()),
        ensures
            final(self).wf(),
            r is Err ==> body_of(old(self), old(fun)).stopped(body_of(final(self), final(fun))),
            met_in_body(
                r,
                body_of(final(self), final(fun)),
                body_of(old(self), old(fun)).composite_construct(inst),
                type_store.deep_view(),
                const_store.deep_view(),
            ),
    {
        inst.expect_at_least(3)?;
        let result_type_id = self.next()?;
        let id = self.next()?;
        let mut components: Vec<Token<Expression>> = Vec::new();
        let ghost start = self@;
        let count: u16 = inst.wc - 3;
        let mut i: u16 = 0;
        while i < count
            invariant
                i <= count,
                self.wf(),
                self@ == start.advance(i as int),
                *fun == *old(fun),
                forall|k: int|
                    0 <= k < components@.len() ==> (#[trigger] components@[k]).index
                        < fun.deep_view().expressions.len(),
                Body::components(start, count as nat, Seq::empty()) == Body::components(
                    self@,
                    (count - i) as nat,
                    components@,
                ),
            decreases count - i,
        {
            let comp_id = self.next()?;
            let lexp = self.lookup_expression(comp_id)?;
            components.push(lexp.token);
            i = i + 1;
        }
        let ty = self.lookup_type(result_type_id)?.token;
        self.emit(
            fun,
            id,
            result_type_id,
            Expression::Compose { ty, components },
            type_store,
            const_store,
        );
        Ok(())
    }

    /// Carries out the instruction `inst`, whose header was read, as
    /// `Body::load` says.
    pub fn load(
        &mut self,
        fun: &mut Function,
        type_store: &Storage<Type>,
        const_store: &Storage<Constant>,
        inst: Instruction,
    ) -> (r: Result<(), Error>)
        requires
            old(self).wf(),
            body_of(old(self), old(fun)).coherent(type_store.deep_view(), const_store.deep_view()),
        ensures
            final(self).wf(),
            r is Err ==> body_of(old(self), old(fun)).stopped(body_of(final(self), final(fun))),
            met_in_body(
                r,
                body_of(final(self), final(fun)),
                body_of(old(self), old(fun)).load(type_store.deep_view(), inst),
                type_store.deep_view(),
                const_store.deep_view(),
            ),
    {
        inst.expect_at_least(4)?;
        let result_type_id = self.next()?;
        let result_id = self.next()?;
        let pointer_id = self.next()?;
        if inst.wc != 4 {
            inst.expect(5)?;
            let _memory_access = self.next()?;
        }
        let (base_expr, base_type) = self.operand(pointer_id)?;
        match base_type.base_id {
            Some(pointee) => {
                if pointee != result_type_id {
                    return Err(Error::InvalidLoadType(result_type_id));
                }
            },
            None => {
                return Err(Error::InvalidLoadType(result_type_id));
            },
        }
        match type_store.get(base_type.token).inner {
            TypeInner::Pointer { .. } => {},
            _ => {
                return Err(Error::UnsupportedType(base_type.token));
            },
        }
        self.emit(
            fun,
            result_id,
            result_type_id,
            Expression::Load { pointer: base_expr.token },
            type_store,
            const_store,
        );
        Ok(())
    }

    /// Carries out the instruction `inst`, whose header was read, as
    /// `Body::store` says.
    pub fn store(
        &mut self,
        fun: &mut Function,
        type_store: &Storage<Type>,
        const_store: &Storage<Constant>,
        inst: Instruction,
    ) -> (r: Result<(), Error>)
        requires
            old(self).wf(),
            body_of(old(self), old(fun)).coherent(type_store.deep_view(), const_store.deep_view()),
        ensures
            final(self).wf(),
            r is Err ==> body_of(old(self), old(fun)).stopped(body_of(final(self), final(fun))),
            met_in_body(
                r,
                body_of(final(self), final(fun)),
                body_of(old(self), old(fun)).store(type_store.deep_view(), inst),
                type_store.deep_view(),
                const_store.deep_view(),
            ),
    {
        inst.expect_at_least(3)?;
        let pointer_id = self.next()?;
        let value_id = self.next()?;
        if inst.wc != 3 {
            inst.expect(4)?;
            let _memory_access = self.next()?;
        }
        let (base_expr, base_type) = self.operand(pointer_id)?;
        match type_store.get(base_type.token).inner {
            TypeInner::Pointer { .. } => {},
            _ => {
                return Err(Error::UnsupportedType(base_type.token));
            },
        }
        let value_expr = self.lookup_expression(value_id)?;
        match base_type.base_id {
            Some(pointee) => {
                if pointee != value_expr.type_id {
                    return Err(Error::InvalidStoreType(value_expr.type_id));
                }
            },
            None => {
                return Err(Error::InvalidStoreType(value_expr.type_id));
            },
        }
        fun.body.push(Statement::Store { pointer: base_expr.token, value: value_expr.token });
        Ok(())
    }

    /// Carries out the instruction `inst`, whose header was read, as
    /// `Body::vector_times_scalar` says.
    pub fn vector_times_scalar(
        &mut self,
        fun: &mut Function,
        type_store: &Storage<Type>,
        const_store: &Storage<Constant>,
        inst: Instruction,
    ) -> (r: Result<(), Error>)
        requires
            old(self).wf(),
            body_of(old(self), old(fun)).coherent(type_store.deep_view(), const_store.deep_view()),
        ensures
            final(self).wf(),
            r is Err ==> body_of(old(self), old(fun)).stopped(body_of(final(self), final(fun))),
            met_in_body(
                r,
                body_of(final(self), final(fun)),
                body_of(old(self), old(fun)).vector_times_scalar(type_store.deep_view(), inst),
                type_store.deep_view(),
                const_store.deep_view(),
            ),
    {
        inst.expect(5)?;
        let result_type_id = self.next()?;
        let result_type_lookup = self.lookup_type(result_type_id)?;
        let (res_size, res_width) = match type_store.get(result_type_lookup.token).inner {
            TypeInner::Vector { size, kind: ScalarKind::Float, width } => (size, width),
            _ => {
                return Err(Error::UnsupportedType(result_type_lookup.token));
            },
        };
        let result_id = self.next()?;
        let vector_id = self.next()?;
        let scalar_id = self.next()?;
        let (vector_lexp, vector_type_lookup) = self.operand(vector_id)?;
        let vector_fits = match type_store.get(vector_type_lookup.token).inner {
            TypeInner::Vector { size, kind: ScalarKind::Float, width } => size == res_size && width
                == res_width,
            _ => false,
        };
        if !vector_fits {
            return Err(Error::UnsupportedType(vector_type_lookup.token));
        }
        let (scalar_lexp, scalar_type_lookup) = self.operand(scalar_id)?;
        let scalar_fits = match type_store.get(scalar_type_lookup.token).inner {
            TypeInner::Scalar { kind: ScalarKind::Float, width } => width == res_width,
            _ => false,
        };
        if !scalar_fits {
            return Err(Error::UnsupportedType(scalar_type_lookup.token));
        }
        self.emit(
            fun,
            result_id,
            result_type_id,
            Expression::Mul(vector_lexp.token, scalar_lexp.token),
            type_store,
            const_store,
        );
        Ok(())
    }

    /// Carries out the instruction `inst`, whose header was read, as
    /// `Body::matrix_times_vector` says.
    pub fn matrix_times_vector(
        &mut self,
        fun: &mut Function,
        type_store: &Storage<Type>,
        const_store: &Storage<Constant>,
        inst: Instruction,
    ) -> (r: Result<(), Error>)
        requires
            old(self).wf(),
            body_of(old(self), old(fun)).coherent(type_store.deep_view(), const_store.deep_view()),
        ensures
            final(self).wf(),
            r is Err ==> body_of(old(self), old(fun)).stopped(body_of(final(self), final(fun))),
            met_in_body(
                r,
                body_of(final(self), final(fun)),
                body_of(old(self), old(fun)).matrix_times_vector(type_store.deep_view(), inst),
                type_store.deep_view(),
                const_store.deep_view(),
            ),
    {
        inst.expect(5)?;
        let result_type_id = self.next()?;
        let result_type_lookup = self.lookup_type(result_type_id)?;
        let (res_size, res_width) = match type_store.get(result_type_lookup.token).inner {
            TypeInner::Vector { size, kind: ScalarKind::Float, width } => (size, width),
            _ => {
                return Err(Error::UnsupportedType(result_type_lookup.token));
            },
        };
        let result_id = self.next()?;
        let matrix_id = self.next()?;
        let vector_id = self.next()?;
        let (matrix_lexp, matrix_type_lookup) = self.operand(matrix_id)?;
        let columns = match type_store.get(matrix_type_lookup.token).inner {
            TypeInner::Matrix { columns, rows, kind: ScalarKind::Float, width } => {
                if rows == res_size && width == res_width {
                    Some(columns)
                } else {
                    None
                }
            },
            _ => None,
        };
        let columns = match columns {
            Some(columns) => columns,
            None => {
                return Err(Error::UnsupportedType(matrix_type_lookup.token));
            },
        };
        let (vector_lexp, vector_type_lookup) = self.operand(vector_id)?;
        let vector_fits = match type_store.get(vector_type_lookup.token).inner {
            TypeInner::Vector { size, kind: ScalarKind::Float, width } => size == columns && width
                == res_width,
            _ => false,
        };
        if !vector_fits {
            return Err(Error::UnsupportedType(vector_type_lookup.token));
        }
        self.emit(
            fun,
            result_id,
            result_type_id,
            Expression::Mul(matrix_lexp.token, vector_lexp.token),
            type_store,
            const_store,
        );
        Ok(())
    }

    /// Carries out the instruction `inst`, whose header was read, as
    /// `Body::sampled_image` says.
    pub fn sampled_image(
        &mut self,
        fun: &mut Function,
        type_store: &Storage<Type>,
        const_store: &Storage<Constant>,
        inst: Instruction,
    ) -> (r: Result<(), Error>)
        requires
            old(self).wf(),
            body_of(old(self), old(fun)).coherent(type_store.deep_view(), const_store.deep_view()),
        ensures
            final(self).wf(),
            r is Err ==> body_of(old(self), old(fun)).stopped(body_of(final(self), final(fun))),
            met_in_body(
                r,
                body_of(final(self), final(fun)),
                body_of(old(self), old(fun)).sampled_image(inst),
                type_store.deep_view(),
                const_store.deep_view(),
            ),
    {
        inst.expect(5)?;
        let _result_type_id = self.next()?;
        let result_id = self.next()?;
        let image_id = self.next()?;
        let sampler_id = self.next()?;
        let image_lexp = self.lookup_expression(image_id)?;
        let sampler_lexp = self.lookup_expression(sampler_id)?;
        self.insert_sampled_image(
            result_id,
            LookupSampledImage { image: image_lexp.token, sampler: sampler_lexp.token },
        );
        Ok(())
    }

    /// Carries out the instruction `inst`, whose header was read, as
    /// `Body::image_sample` says.
    pub fn image_sample(
        &mut self,
        fun: &mut Function,
        type_store: &Storage<Type>,
        const_store: &Storage<Constant>,
        inst: Instruction,
    ) -> (r: Result<(), Error>)
        requires
            old(self).wf(),
            body_of(old(self), old(fun)).coherent(type_store.deep_view(), const_store.deep_view()),
        ensures
            final(self).wf(),
            r is Err ==> body_of(old(self), old(fun)).stopped(body_of(final(self), final(fun))),
            met_in_body(
                r,
                body_of(final(self), final(fun)),
                body_of(old(self), old(fun)).image_sample(type_store.deep_view(), inst),
                type_store.deep_view(),
                const_store.deep_view(),
            ),
    {
        inst.expect_at_least(5)?;
        let result_type_id = self.next()?;
        let result_id = self.next()?;
        let sampled_image_id = self.next()?;
        let coordinate_id = self.next()?;
        let si_lexp = self.lookup_sampled_image(sampled_image_id)?;
        let (coord_lexp, coord_type_lookup) = self.operand(coordinate_id)?;
        match type_store.get(coord_type_lookup.token).inner {
            TypeInner::Scalar { kind: ScalarKind::Float, .. } => {},
            TypeInner::Vector { kind: ScalarKind::Float, .. } => {},
            _ => {
                return Err(Error::UnsupportedType(coord_type_lookup.token));
            },
        }
        self.emit(
            fun,
            result_id,
            result_type_id,
            Expression::ImageSample {
                image: si_lexp.image,
                sampler: si_lexp.sampler,
                coordinate: coord_lexp.token,
            },
            type_store,
            const_store,
        );
        Ok(())
    }
}

} // verus!

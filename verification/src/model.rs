//! The model of a decoder at work: the state of the reader together with the
//! module that it builds, and what it means for the code to follow a step of
//! the model.

use crate::decoration::name_of;
use crate::error::{Error, ErrorView, ModuleState};
use crate::ir::{
    ConstantInner, ConstantView, GlobalVariableView, Module, ModuleView, Token, TypeInnerView,
    TypeView,
};
use crate::state::{
    LookupConstant, LookupExpression, LookupSampledImage, LookupType, LookupVariable, Parser,
    ParserView,
};
use crate::words::Word;
use vstd::prelude::*;

verus! {

/// A decoder between two instructions of a module.
#[verifier::ext_equal]
pub struct Decoder {
    /// The state of the parser.
    pub p: ParserView,
    /// The module as far as it is built.
    pub m: ModuleView,
}

/// The model of a parser and the module that it fills.
pub open spec fn decoder_of(parser: &Parser, module: &Module) -> Decoder {
    Decoder { p: parser@, m: module.deep_view() }
}

impl Decoder {
    /// Every handle in the tables is a handle of the module.
    pub open spec fn handles_valid(self) -> bool {
        &&& forall|id: Word| #[trigger]
            self.p.types.contains_key(id) ==> self.p.types[id].token.index < self.m.types.len()
        &&& forall|id: Word| #[trigger]
            self.p.constants.contains_key(id) ==> self.p.constants[id].token.index
                < self.m.constants.len()
        &&& forall|id: Word| #[trigger]
            self.p.variables.contains_key(id) ==> self.p.variables[id].token.index
                < self.m.global_variables.len()
        &&& forall|id: Word| #[trigger]
            self.p.functions.contains_key(id) ==> self.p.functions[id].index
                < self.m.functions.len()
    }

    /// What holds between two instructions of a module: the handles are
    /// valid, no expression of a function is left in the tables, and once
    /// the module holds a function, the decoder is in the phase of functions.
    pub open spec fn coherent(self) -> bool {
        &&& self.p.inv()
        &&& self.handles_valid()
        &&& self.m.valid()
        &&& self.m.functions.len() > 0 ==> self.p.state == ModuleState::Function
        &&& self.p.expressions == Map::<Word, LookupExpression>::empty()
        &&& self.p.sampled_images == Map::<Word, LookupSampledImage>::empty()
    }

    /// The decoder with the parser in the state `p`.
    pub open spec fn with_p(self, p: ParserView) -> Decoder {
        Decoder { p, ..self }
    }

    /// The type that `id` stands for, where it stands for one.
    pub open spec fn type_of(self, id: Word) -> TypeInnerView {
        self.m.types[self.p.types[id].token.index as int].inner
    }

    /// A type is appended under the name that was kept for `id`, and `id`
    /// stands for it from here on.
    pub open spec fn define_type(
        self,
        id: Word,
        inner: TypeInnerView,
        base_id: Option<Word>,
    ) -> Decoder {
        Decoder {
            p: self.p.without_decor(id).with_type(
                id,
                LookupType { token: Token::at(self.m.types.len() as int), base_id },
            ),
            m: ModuleView {
                types: self.m.types.push(TypeView { name: name_of(self.p.decor(id)), inner }),
                ..self.m
            },
        }
    }

    /// A constant is appended under the name that was kept for `id`, and `id`
    /// stands for it from here on.
    pub open spec fn define_constant(self, id: Word, type_id: Word, inner: ConstantInner) -> Decoder {
        Decoder {
            p: self.p.without_decor(id).with_constant(
                id,
                LookupConstant { token: Token::at(self.m.constants.len() as int), type_id },
            ),
            m: ModuleView {
                constants: self.m.constants.push(
                    ConstantView { name: name_of(self.p.decor(id)), specialization: None, inner },
                ),
                ..self.m
            },
        }
    }

    /// A global variable is appended, and `id` stands for it from here on.
    pub open spec fn define_variable(
        self,
        id: Word,
        type_id: Word,
        variable: GlobalVariableView,
    ) -> Decoder {
        Decoder {
            p: self.p.with_variable(
                id,
                LookupVariable { token: Token::at(self.m.global_variables.len() as int), type_id },
            ),
            m: ModuleView { global_variables: self.m.global_variables.push(variable), ..self.m },
        }
    }
}

/// The second sequence holds at each place of the first what the first holds.
pub open spec fn kept<T>(before: Seq<T>, after: Seq<T>) -> bool {
    &&& before.len() <= after.len()
    &&& forall|i: int| 0 <= i < before.len() ==> #[trigger] after[i] == before[i]
}

/// The second state is the first with more words read, and nothing else
/// changed.
pub open spec fn read_on(before: ParserView, after: ParserView) -> bool {
    after.pos >= before.pos && after == (ParserView { pos: after.pos, ..before })
}

/// `after` is what is left of the decoder `before` where an instruction
/// failed: the module is as it was, the words are the same, and none that
/// was read is unread. Of the tables it says nothing: what the instruction
/// took from them or put into them before it failed stays so.
pub open spec fn failed(before: Decoder, after: Decoder) -> bool {
    &&& after.m == before.m
    &&& after.p.words == before.p.words
    &&& after.p.pos >= before.p.pos
}

/// The code did what the model says of the step: it failed with the model's
/// error, or it succeeded and left the model's state, which is coherent.
pub open spec fn met(
    result: Result<(), Error>,
    after: Decoder,
    expected: Result<Decoder, ErrorView>,
) -> bool {
    match expected {
        Ok(d) => result is Ok && after.p =~= d.p && after.m =~= d.m && after.coherent(),
        Err(e) => result matches Err(x) && x.deep_view() == e,
    }
}

} // verus!

//! The decoder's phases, its errors, and the header of an instruction.

use crate::ir::{Expression, Token, Type};
use crate::words::{Capability, Op, StorageClass, Word};
use vstd::prelude::*;

verus! {

/// The phases of a module, in the order in which its instructions must come.
#[derive(Clone, Copy, Debug, PartialEq, Eq, PartialOrd, Structural)]
pub enum ModuleState {
    Empty,
    Capability,
    Extension,
    ExtInstImport,
    MemoryModel,
    EntryPoint,
    ExecutionMode,
    Source,
    Name,
    ModuleProcessed,
    Annotation,
    Type,
    Function,
}

impl ModuleState {
    /// The place of the phase in the order of phases.
    pub open spec fn rank(self) -> nat {
        match self {
            ModuleState::Empty => 0,
            ModuleState::Capability => 1,
            ModuleState::Extension => 2,
            ModuleState::ExtInstImport => 3,
            ModuleState::MemoryModel => 4,
            ModuleState::EntryPoint => 5,
            ModuleState::ExecutionMode => 6,
            ModuleState::Source => 7,
            ModuleState::Name => 8,
            ModuleState::ModuleProcessed => 9,
            ModuleState::Annotation => 10,
            ModuleState::Type => 11,
            ModuleState::Function => 12,
        }
    }

    /// The place of the phase in the order of phases.
    pub fn index(&self) -> (r: u8)
        ensures
            r == self.rank(),
    {
        match *self {
            ModuleState::Empty => 0,
            ModuleState::Capability => 1,
            ModuleState::Extension => 2,
            ModuleState::ExtInstImport => 3,
            ModuleState::MemoryModel => 4,
            ModuleState::EntryPoint => 5,
            ModuleState::ExecutionMode => 6,
            ModuleState::Source => 7,
            ModuleState::Name => 8,
            ModuleState::ModuleProcessed => 9,
            ModuleState::Annotation => 10,
            ModuleState::Type => 11,
            ModuleState::Function => 12,
        }
    }
}

/// Why a module was rejected.
#[derive(Debug, PartialEq, Eq)]
pub enum Error {
    /// The first word is not the magic number.
    InvalidHeader,
    /// An instruction says that it has no words at all.
    InvalidWordCount,
    /// An instruction code beyond the last known one.
    UnknownInstruction(u16),
    /// A capability beyond the last known one.
    UnknownCapability(u32),
    /// An instruction that has no place in the phase that the decoder is in.
    UnsupportedInstruction(ModuleState, Op),
    /// A known capability outside the supported profile.
    UnsupportedCapability(Capability),
    UnsupportedExtension(String),
    UnsupportedExtSet(String),
    /// A type of a shape that the instruction cannot work on.
    UnsupportedType(Token<Type>),
    UnsupportedExecutionModel(u32),
    UnsupportedStorageClass(u32),
    UnsupportedFunctionControl(u32),
    UnsupportedDim(u32),
    InvalidParameter(Op),
    /// An instruction with a word count that its code does not allow.
    InvalidOperandCount(Op, u16),
    InvalidOperand,
    InvalidDecoration(Word),
    /// An operand names an id that no earlier instruction defined.
    InvalidId(Word),
    InvalidTypeWidth(Word),
    InvalidSign(Word),
    InvalidInnerType(Word),
    InvalidVectorSize(Word),
    InvalidVariableClass(StorageClass),
    InvalidAccessType(Word),
    InvalidAccessIndex(Token<Expression>),
    InvalidLoadType(Word),
    InvalidStoreType(Word),
    InvalidBinding(Word),
    WrongFunctionResultType(Word),
    WrongFunctionParameterType(Word),
    /// A string without its end inside the instruction, or one that is not UTF-8.
    BadString,
    /// The words ended inside the header or an instruction.
    IncompleteData,
}

/// The model of an `Error`: the same variants, with a string as its characters.
pub enum ErrorView {
    InvalidHeader,
    InvalidWordCount,
    UnknownInstruction(u16),
    UnknownCapability(u32),
    UnsupportedInstruction(ModuleState, Op),
    UnsupportedCapability(Capability),
    UnsupportedExtension(Seq<char>),
    UnsupportedExtSet(Seq<char>),
    UnsupportedType(Token<Type>),
    UnsupportedExecutionModel(u32),
    UnsupportedStorageClass(u32),
    UnsupportedFunctionControl(u32),
    UnsupportedDim(u32),
    InvalidParameter(Op),
    InvalidOperandCount(Op, u16),
    InvalidOperand,
    InvalidDecoration(Word),
    InvalidId(Word),
    InvalidTypeWidth(Word),
    InvalidSign(Word),
    InvalidInnerType(Word),
    InvalidVectorSize(Word),
    InvalidVariableClass(StorageClass),
    InvalidAccessType(Word),
    InvalidAccessIndex(Token<Expression>),
    InvalidLoadType(Word),
    InvalidStoreType(Word),
    InvalidBinding(Word),
    WrongFunctionResultType(Word),
    WrongFunctionParameterType(Word),
    BadString,
    IncompleteData,
}

impl DeepView for Error {
    type V = ErrorView;

    open spec fn deep_view(&self) -> ErrorView {
        match *self {
            Error::InvalidHeader => ErrorView::InvalidHeader,
            Error::InvalidWordCount => ErrorView::InvalidWordCount,
            Error::UnknownInstruction(a) => ErrorView::UnknownInstruction(a),
            Error::UnknownCapability(a) => ErrorView::UnknownCapability(a),
            Error::UnsupportedInstruction(a, b) => ErrorView::UnsupportedInstruction(a, b),
            Error::UnsupportedCapability(a) => ErrorView::UnsupportedCapability(a),
            Error::UnsupportedExtension(a) => ErrorView::UnsupportedExtension(a@),
            Error::UnsupportedExtSet(a) => ErrorView::UnsupportedExtSet(a@),
            Error::UnsupportedType(a) => ErrorView::UnsupportedType(a),
            Error::UnsupportedExecutionModel(a) => ErrorView::UnsupportedExecutionModel(a),
            Error::UnsupportedStorageClass(a) => ErrorView::UnsupportedStorageClass(a),
            Error::UnsupportedFunctionControl(a) => ErrorView::UnsupportedFunctionControl(a),
            Error::UnsupportedDim(a) => ErrorView::UnsupportedDim(a),
            Error::InvalidParameter(a) => ErrorView::InvalidParameter(a),
            Error::InvalidOperandCount(a, b) => ErrorView::InvalidOperandCount(a, b),
            Error::InvalidOperand => ErrorView::InvalidOperand,
            Error::InvalidDecoration(a) => ErrorView::InvalidDecoration(a),
            Error::InvalidId(a) => ErrorView::InvalidId(a),
            Error::InvalidTypeWidth(a) => ErrorView::InvalidTypeWidth(a),
            Error::InvalidSign(a) => ErrorView::InvalidSign(a),
            Error::InvalidInnerType(a) => ErrorView::InvalidInnerType(a),
            Error::InvalidVectorSize(a) => ErrorView::InvalidVectorSize(a),
            Error::InvalidVariableClass(a) => ErrorView::InvalidVariableClass(a),
            Error::InvalidAccessType(a) => ErrorView::InvalidAccessType(a),
            Error::InvalidAccessIndex(a) => ErrorView::InvalidAccessIndex(a),
            Error::InvalidLoadType(a) => ErrorView::InvalidLoadType(a),
            Error::InvalidStoreType(a) => ErrorView::InvalidStoreType(a),
            Error::InvalidBinding(a) => ErrorView::InvalidBinding(a),
            Error::WrongFunctionResultType(a) => ErrorView::WrongFunctionResultType(a),
            Error::WrongFunctionParameterType(a) => ErrorView::WrongFunctionParameterType(a),
            Error::BadString => ErrorView::BadString,
            Error::IncompleteData => ErrorView::IncompleteData,
        }
    }
}

/// The model of a result that carries no value but may fail.
pub open spec fn outcome(result: Result<(), Error>) -> Result<(), ErrorView> {
    match result {
        Ok(()) => Ok(()),
        Err(e) => Err(e.deep_view()),
    }
}

/// The header of an instruction: its code and the number of words that it
/// spans, the header's own word counted in.
#[derive(Clone, Copy, Debug, PartialEq, Eq, Structural)]
pub struct Instruction {
    pub op: Op,
    pub wc: u16,
}

impl Instruction {
    /// The error that an instruction with a wrong word count is rejected with.
    pub open spec fn bad_count(self) -> ErrorView {
        ErrorView::InvalidOperandCount(self.op, self.wc)
    }

    /// Accepts the instruction if it spans `count` words.
    pub fn expect(&self, count: u16) -> (r: Result<(), Error>)
        ensures
            outcome(r) == (if self.wc == count {
                Ok::<(), ErrorView>(())
            } else {
                Err(self.bad_count())
            }),
    {
        if self.wc == count {
            Ok(())
        } else {
            Err(Error::InvalidOperandCount(self.op, self.wc))
        }
    }

    /// Accepts the instruction if it spans `count` words or more.
    pub fn expect_at_least(&self, count: u16) -> (r: Result<(), Error>)
        ensures
            outcome(r) == (if self.wc >= count {
                Ok::<(), ErrorView>(())
            } else {
                Err(self.bad_count())
            }),
    {
        if self.wc >= count {
            Ok(())
        } else {
            Err(Error::InvalidOperandCount(self.op, self.wc))
        }
    }
}

} // verus!

//! The enumerations of the binary format, each with a total mapping from the
//! number that encodes it.

use vstd::prelude::*;

verus! {

/// One 32-bit unit of a module's binary form.
pub type Word = u32;

/// The first word of every module.
pub const MAGIC_NUMBER: Word = 0x0723_0203;

/// The largest instruction code that the decoder knows of.
pub const LAST_KNOWN_OPCODE: u16 = 5633;

/// The largest capability that the decoder knows of.
pub const LAST_KNOWN_CAPABILITY: Word = 5346;

/// The largest decoration that the decoder knows of.
pub const LAST_KNOWN_DECORATION: Word = 5300;

/// The largest built-in that the decoder knows of.
pub const LAST_KNOWN_BUILT_IN: Word = 5264;

/// The decoration that marks a built-in variable; one operand.
pub const DECORATION_BUILT_IN: Word = 11;

/// The decoration that gives an interface location; one operand.
pub const DECORATION_LOCATION: Word = 30;

/// The decoration that gives the binding within a descriptor set; one operand.
pub const DECORATION_BINDING: Word = 33;

/// The decoration that gives the descriptor set; one operand.
pub const DECORATION_DESCRIPTOR_SET: Word = 34;

/// The bits of a function-control mask that have a meaning.
pub const FUNCTION_CONTROL_MASK: Word = 0xf;

/// An instruction code. The instructions that the decoder handles have a variant each.
#[derive(Clone, Copy, Debug, PartialEq, Eq, Structural)]
pub enum Op {
    Source,
    SourceExtension,
    Name,
    MemberName,
    Extension,
    ExtInstImport,
    MemoryModel,
    EntryPoint,
    ExecutionMode,
    Capability,
    TypeVoid,
    TypeInt,
    TypeFloat,
    TypeVector,
    TypeMatrix,
    TypeImage,
    TypeSampler,
    TypeSampledImage,
    TypeArray,
    TypeRuntimeArray,
    TypeStruct,
    TypePointer,
    TypeFunction,
    Constant,
    SpecConstant,
    Function,
    FunctionParameter,
    FunctionEnd,
    Variable,
    Load,
    Store,
    AccessChain,
    Decorate,
    MemberDecorate,
    CompositeConstruct,
    CompositeExtract,
    SampledImage,
    ImageSampleImplicitLod,
    VectorTimesScalar,
    MatrixTimesVector,
    Label,
    Return,
    /// Any other code up to `LAST_KNOWN_OPCODE`.
    Other(u16),
}

impl Op {
    /// The value that stands for `code`.
    pub open spec fn of_code(code: u16) -> Op {
        match code {
            3u16 => Op::Source,
            4u16 => Op::SourceExtension,
            5u16 => Op::Name,
            6u16 => Op::MemberName,
            10u16 => Op::Extension,
            11u16 => Op::ExtInstImport,
            14u16 => Op::MemoryModel,
            15u16 => Op::EntryPoint,
            16u16 => Op::ExecutionMode,
            17u16 => Op::Capability,
            19u16 => Op::TypeVoid,
            21u16 => Op::TypeInt,
            22u16 => Op::TypeFloat,
            23u16 => Op::TypeVector,
            24u16 => Op::TypeMatrix,
            25u16 => Op::TypeImage,
            26u16 => Op::TypeSampler,
            27u16 => Op::TypeSampledImage,
            28u16 => Op::TypeArray,
            29u16 => Op::TypeRuntimeArray,
            30u16 => Op::TypeStruct,
            32u16 => Op::TypePointer,
            33u16 => Op::TypeFunction,
            43u16 => Op::Constant,
            50u16 => Op::SpecConstant,
            54u16 => Op::Function,
            55u16 => Op::FunctionParameter,
            56u16 => Op::FunctionEnd,
            59u16 => Op::Variable,
            61u16 => Op::Load,
            62u16 => Op::Store,
            65u16 => Op::AccessChain,
            71u16 => Op::Decorate,
            72u16 => Op::MemberDecorate,
            80u16 => Op::CompositeConstruct,
            81u16 => Op::CompositeExtract,
            86u16 => Op::SampledImage,
            87u16 => Op::ImageSampleImplicitLod,
            142u16 => Op::VectorTimesScalar,
            145u16 => Op::MatrixTimesVector,
            248u16 => Op::Label,
            253u16 => Op::Return,
            _ => Op::Other(code),
        }
    }

    /// The number that the binary form uses for this value.
    pub open spec fn code(self) -> u16 {
        match self {
            Op::Source => 3,
            Op::SourceExtension => 4,
            Op::Name => 5,
            Op::MemberName => 6,
            Op::Extension => 10,
            Op::ExtInstImport => 11,
            Op::MemoryModel => 14,
            Op::EntryPoint => 15,
            Op::ExecutionMode => 16,
            Op::Capability => 17,
            Op::TypeVoid => 19,
            Op::TypeInt => 21,
            Op::TypeFloat => 22,
            Op::TypeVector => 23,
            Op::TypeMatrix => 24,
            Op::TypeImage => 25,
            Op::TypeSampler => 26,
            Op::TypeSampledImage => 27,
            Op::TypeArray => 28,
            Op::TypeRuntimeArray => 29,
            Op::TypeStruct => 30,
            Op::TypePointer => 32,
            Op::TypeFunction => 33,
            Op::Constant => 43,
            Op::SpecConstant => 50,
            Op::Function => 54,
            Op::FunctionParameter => 55,
            Op::FunctionEnd => 56,
            Op::Variable => 59,
            Op::Load => 61,
            Op::Store => 62,
            Op::AccessChain => 65,
            Op::Decorate => 71,
            Op::MemberDecorate => 72,
            Op::CompositeConstruct => 80,
            Op::CompositeExtract => 81,
            Op::SampledImage => 86,
            Op::ImageSampleImplicitLod => 87,
            Op::VectorTimesScalar => 142,
            Op::MatrixTimesVector => 145,
            Op::Label => 248,
            Op::Return => 253,
            Op::Other(code) => code,
        }
    }

    /// The instruction that `code` stands for.
    pub fn from_code(code: u16) -> (r: Op)
        ensures
            r == Op::of_code(code),
            r.code() == code,
    {
        match code {
            3 => Op::Source,
            4 => Op::SourceExtension,
            5 => Op::Name,
            6 => Op::MemberName,
            10 => Op::Extension,
            11 => Op::ExtInstImport,
            14 => Op::MemoryModel,
            15 => Op::EntryPoint,
            16 => Op::ExecutionMode,
            17 => Op::Capability,
            19 => Op::TypeVoid,
            21 => Op::TypeInt,
            22 => Op::TypeFloat,
            23 => Op::TypeVector,
            24 => Op::TypeMatrix,
            25 => Op::TypeImage,
            26 => Op::TypeSampler,
            27 => Op::TypeSampledImage,
            28 => Op::TypeArray,
            29 => Op::TypeRuntimeArray,
            30 => Op::TypeStruct,
            32 => Op::TypePointer,
            33 => Op::TypeFunction,
            43 => Op::Constant,
            50 => Op::SpecConstant,
            54 => Op::Function,
            55 => Op::FunctionParameter,
            56 => Op::FunctionEnd,
            59 => Op::Variable,
            61 => Op::Load,
            62 => Op::Store,
            65 => Op::AccessChain,
            71 => Op::Decorate,
            72 => Op::MemberDecorate,
            80 => Op::CompositeConstruct,
            81 => Op::CompositeExtract,
            86 => Op::SampledImage,
            87 => Op::ImageSampleImplicitLod,
            142 => Op::VectorTimesScalar,
            145 => Op::MatrixTimesVector,
            248 => Op::Label,
            253 => Op::Return,
            _ => Op::Other(code),
        }
    }

    /// The code of the instruction.
    pub fn to_code(&self) -> (code: u16)
        ensures
            code == self.code(),
    {
        match *self {
            Op::Source => 3,
            Op::SourceExtension => 4,
            Op::Name => 5,
            Op::MemberName => 6,
            Op::Extension => 10,
            Op::ExtInstImport => 11,
            Op::MemoryModel => 14,
            Op::EntryPoint => 15,
            Op::ExecutionMode => 16,
            Op::Capability => 17,
            Op::TypeVoid => 19,
            Op::TypeInt => 21,
            Op::TypeFloat => 22,
            Op::TypeVector => 23,
            Op::TypeMatrix => 24,
            Op::TypeImage => 25,
            Op::TypeSampler => 26,
            Op::TypeSampledImage => 27,
            Op::TypeArray => 28,
            Op::TypeRuntimeArray => 29,
            Op::TypeStruct => 30,
            Op::TypePointer => 32,
            Op::TypeFunction => 33,
            Op::Constant => 43,
            Op::SpecConstant => 50,
            Op::Function => 54,
            Op::FunctionParameter => 55,
            Op::FunctionEnd => 56,
            Op::Variable => 59,
            Op::Load => 61,
            Op::Store => 62,
            Op::AccessChain => 65,
            Op::Decorate => 71,
            Op::MemberDecorate => 72,
            Op::CompositeConstruct => 80,
            Op::CompositeExtract => 81,
            Op::SampledImage => 86,
            Op::ImageSampleImplicitLod => 87,
            Op::VectorTimesScalar => 142,
            Op::MatrixTimesVector => 145,
            Op::Label => 248,
            Op::Return => 253,
            Op::Other(code) => code,
        }
    }
}

/// A capability that a module declares.
#[derive(Clone, Copy, Debug, PartialEq, Eq, Structural)]
pub enum Capability {
    Matrix,
    Shader,
    Geometry,
    Tessellation,
    Addresses,
    Linkage,
    Kernel,
    /// Any other capability up to `LAST_KNOWN_CAPABILITY`.
    Other(u32),
}

impl Capability {
    /// The value that stands for `code`.
    pub open spec fn of_code(code: u32) -> Capability {
        match code {
            0u32 => Capability::Matrix,
            1u32 => Capability::Shader,
            2u32 => Capability::Geometry,
            3u32 => Capability::Tessellation,
            4u32 => Capability::Addresses,
            5u32 => Capability::Linkage,
            6u32 => Capability::Kernel,
            _ => Capability::Other(code),
        }
    }

    /// The number that the binary form uses for this value.
    pub open spec fn code(self) -> u32 {
        match self {
            Capability::Matrix => 0,
            Capability::Shader => 1,
            Capability::Geometry => 2,
            Capability::Tessellation => 3,
            Capability::Addresses => 4,
            Capability::Linkage => 5,
            Capability::Kernel => 6,
            Capability::Other(code) => code,
        }
    }

    /// The capability that `code` stands for.
    pub fn from_code(code: u32) -> (r: Capability)
        ensures
            r == Capability::of_code(code),
            r.code() == code,
    {
        match code {
            0 => Capability::Matrix,
            1 => Capability::Shader,
            2 => Capability::Geometry,
            3 => Capability::Tessellation,
            4 => Capability::Addresses,
            5 => Capability::Linkage,
            6 => Capability::Kernel,
            _ => Capability::Other(code),
        }
    }

    /// The code of the capability.
    pub fn to_code(&self) -> (code: u32)
        ensures
            code == self.code(),
    {
        match *self {
            Capability::Matrix => 0,
            Capability::Shader => 1,
            Capability::Geometry => 2,
            Capability::Tessellation => 3,
            Capability::Addresses => 4,
            Capability::Linkage => 5,
            Capability::Kernel => 6,
            Capability::Other(code) => code,
        }
    }
}

/// The memory region that a pointer or a variable lives in.
#[derive(Clone, Copy, Debug, PartialEq, Eq, Structural)]
pub enum StorageClass {
    UniformConstant,
    Input,
    Uniform,
    Output,
    Workgroup,
    CrossWorkgroup,
    Private,
    Function,
    Generic,
    PushConstant,
    AtomicCounter,
    Image,
    StorageBuffer,
}

impl StorageClass {
    /// The value that `word` stands for, if it stands for one.
    pub open spec fn of_word(word: Word) -> Option<StorageClass> {
        match word {
            0u32 => Some(StorageClass::UniformConstant),
            1u32 => Some(StorageClass::Input),
            2u32 => Some(StorageClass::Uniform),
            3u32 => Some(StorageClass::Output),
            4u32 => Some(StorageClass::Workgroup),
            5u32 => Some(StorageClass::CrossWorkgroup),
            6u32 => Some(StorageClass::Private),
            7u32 => Some(StorageClass::Function),
            8u32 => Some(StorageClass::Generic),
            9u32 => Some(StorageClass::PushConstant),
            10u32 => Some(StorageClass::AtomicCounter),
            11u32 => Some(StorageClass::Image),
            12u32 => Some(StorageClass::StorageBuffer),
            _ => None,
        }
    }

    /// The word that the binary form uses for this value.
    pub open spec fn word(self) -> Word {
        match self {
            StorageClass::UniformConstant => 0,
            StorageClass::Input => 1,
            StorageClass::Uniform => 2,
            StorageClass::Output => 3,
            StorageClass::Workgroup => 4,
            StorageClass::CrossWorkgroup => 5,
            StorageClass::Private => 6,
            StorageClass::Function => 7,
            StorageClass::Generic => 8,
            StorageClass::PushConstant => 9,
            StorageClass::AtomicCounter => 10,
            StorageClass::Image => 11,
            StorageClass::StorageBuffer => 12,
        }
    }

    /// The storage class that `word` stands for, if it stands for one.
    pub fn from_word(word: Word) -> (r: Option<StorageClass>)
        ensures
            r == StorageClass::of_word(word),
            r.is_some() == (word <= 12),
            r matches Some(v) ==> v.word() == word,
    {
        match word {
            0 => Some(StorageClass::UniformConstant),
            1 => Some(StorageClass::Input),
            2 => Some(StorageClass::Uniform),
            3 => Some(StorageClass::Output),
            4 => Some(StorageClass::Workgroup),
            5 => Some(StorageClass::CrossWorkgroup),
            6 => Some(StorageClass::Private),
            7 => Some(StorageClass::Function),
            8 => Some(StorageClass::Generic),
            9 => Some(StorageClass::PushConstant),
            10 => Some(StorageClass::AtomicCounter),
            11 => Some(StorageClass::Image),
            12 => Some(StorageClass::StorageBuffer),
            _ => None,
        }
    }
}

/// The shader stage of an entry point.
#[derive(Clone, Copy, Debug, PartialEq, Eq, Structural)]
pub enum ExecutionModel {
    Vertex,
    TessellationControl,
    TessellationEvaluation,
    Geometry,
    Fragment,
    GLCompute,
    Kernel,
}

impl ExecutionModel {
    /// The value that `word` stands for, if it stands for one.
    pub open spec fn of_word(word: Word) -> Option<ExecutionModel> {
        match word {
            0u32 => Some(ExecutionModel::Vertex),
            1u32 => Some(ExecutionModel::TessellationControl),
            2u32 => Some(ExecutionModel::TessellationEvaluation),
            3u32 => Some(ExecutionModel::Geometry),
            4u32 => Some(ExecutionModel::Fragment),
            5u32 => Some(ExecutionModel::GLCompute),
            6u32 => Some(ExecutionModel::Kernel),
            _ => None,
        }
    }

    /// The word that the binary form uses for this value.
    pub open spec fn word(self) -> Word {
        match self {
            ExecutionModel::Vertex => 0,
            ExecutionModel::TessellationControl => 1,
            ExecutionModel::TessellationEvaluation => 2,
            ExecutionModel::Geometry => 3,
            ExecutionModel::Fragment => 4,
            ExecutionModel::GLCompute => 5,
            ExecutionModel::Kernel => 6,
        }
    }

    /// The execution model that `word` stands for, if it stands for one.
    pub fn from_word(word: Word) -> (r: Option<ExecutionModel>)
        ensures
            r == ExecutionModel::of_word(word),
            r.is_some() == (word <= 6),
            r matches Some(v) ==> v.word() == word,
    {
        match word {
            0 => Some(ExecutionModel::Vertex),
            1 => Some(ExecutionModel::TessellationControl),
            2 => Some(ExecutionModel::TessellationEvaluation),
            3 => Some(ExecutionModel::Geometry),
            4 => Some(ExecutionModel::Fragment),
            5 => Some(ExecutionModel::GLCompute),
            6 => Some(ExecutionModel::Kernel),
            _ => None,
        }
    }
}

/// The dimensionality of an image.
#[derive(Clone, Copy, Debug, PartialEq, Eq, Structural)]
pub enum Dim {
    Dim1D,
    Dim2D,
    Dim3D,
    DimCube,
    DimRect,
    DimBuffer,
    DimSubpassData,
}

impl Dim {
    /// The value that `word` stands for, if it stands for one.
    pub open spec fn of_word(word: Word) -> Option<Dim> {
        match word {
            0u32 => Some(Dim::Dim1D),
            1u32 => Some(Dim::Dim2D),
            2u32 => Some(Dim::Dim3D),
            3u32 => Some(Dim::DimCube),
            4u32 => Some(Dim::DimRect),
            5u32 => Some(Dim::DimBuffer),
            6u32 => Some(Dim::DimSubpassData),
            _ => None,
        }
    }

    /// The word that the binary form uses for this value.
    pub open spec fn word(self) -> Word {
        match self {
            Dim::Dim1D => 0,
            Dim::Dim2D => 1,
            Dim::Dim3D => 2,
            Dim::DimCube => 3,
            Dim::DimRect => 4,
            Dim::DimBuffer => 5,
            Dim::DimSubpassData => 6,
        }
    }

    /// The dimensionality that `word` stands for, if it stands for one.
    pub fn from_word(word: Word) -> (r: Option<Dim>)
        ensures
            r == Dim::of_word(word),
            r.is_some() == (word <= 6),
            r matches Some(v) ==> v.word() == word,
    {
        match word {
            0 => Some(Dim::Dim1D),
            1 => Some(Dim::Dim2D),
            2 => Some(Dim::Dim3D),
            3 => Some(Dim::DimCube),
            4 => Some(Dim::DimRect),
            5 => Some(Dim::DimBuffer),
            6 => Some(Dim::DimSubpassData),
            _ => None,
        }
    }
}

/// A built-in role of a variable, kept as the word that names it.
#[derive(Clone, Copy, Debug, PartialEq, Eq, Structural)]
pub struct BuiltIn {
    pub word: Word,
}

/// The control mask of a function: inline, don't-inline, pure and const, from the lowest bit up.
#[derive(Clone, Copy, Debug, PartialEq, Eq, Structural)]
pub struct FunctionControl {
    pub bits: Word,
}

impl FunctionControl {
    /// The mask that `bits` stands for: there is none if a bit without a meaning is set.
    pub open spec fn of_bits(bits: Word) -> Option<FunctionControl> {
        if bits <= FUNCTION_CONTROL_MASK {
            Some(FunctionControl { bits })
        } else {
            None
        }
    }

    /// The mask with the bits `bits`, unless a bit without a meaning is set.
    pub fn from_bits(bits: Word) -> (r: Option<FunctionControl>)
        ensures
            r == FunctionControl::of_bits(bits),
    {
        if bits <= FUNCTION_CONTROL_MASK {
            Some(FunctionControl { bits })
        } else {
            None
        }
    }
}

/// Decoding a code and encoding the result gives the code back, and no two
/// codes decode to the same instruction.
pub proof fn op_code_round_trip(a: u16, b: u16)
    ensures
        Op::of_code(a).code() == a,
        Op::of_code(a) == Op::of_code(b) ==> a == b,
{
}

/// Decoding a capability and encoding the result gives the word back.
pub proof fn capability_code_round_trip(a: u32, b: u32)
    ensures
        Capability::of_code(a).code() == a,
        Capability::of_code(a) == Capability::of_code(b) ==> a == b,
{
}

} // verus!

//! The intermediate representation that the decoder produces: append-only
//! stores of types, constants, global variables and functions, linked by
//! handles.

use crate::words::{BuiltIn, Dim, ExecutionModel, FunctionControl, StorageClass, Word};
use std::marker::PhantomData;
use vstd::prelude::*;

verus! {

/// A handle to an item of a `Storage`: the position at which it was appended.
#[derive(Debug, PartialEq, Eq)]
pub struct Token<T> {
    pub index: usize,
    pub marker: PhantomData<T>,
}

impl<T> Clone for Token<T> {
    fn clone(&self) -> (r: Self)
        ensures
            r == *self,
    {
        Token { index: self.index, marker: PhantomData }
    }
}

impl<T> Copy for Token<T> {

}

impl<T> Token<T> {
    /// The handle of the item at `index`.
    pub open spec fn at(index: int) -> Token<T> {
        Token { index: index as usize, marker: PhantomData }
    }

    /// The handle of the item at `index`.
    pub fn new(index: usize) -> (r: Token<T>)
        ensures
            r == Token::<T>::at(index as int),
            r.index == index,
    {
        Token { index, marker: PhantomData }
    }
}

/// An append-only store. Its model is the sequence of the models of its items.
#[derive(Debug, PartialEq, Eq)]
pub struct Storage<T> {
    items: Vec<T>,
}

impl<T: DeepView> DeepView for Storage<T> {
    type V = Seq<T::V>;

    closed spec fn deep_view(&self) -> Seq<T::V> {
        self.items.deep_view()
    }
}

impl<T: DeepView> Storage<T> {
    /// A store without items.
    pub fn new() -> (r: Self)
        ensures
            r.deep_view() == Seq::<T::V>::empty(),
    {
        let r = Storage { items: Vec::new() };
        assert(r.items.deep_view() =~= Seq::<T::V>::empty());
        r
    }

    /// The number of items.
    pub fn len(&self) -> (n: usize)
        ensures
            n == self.deep_view().len(),
    {
        self.items.len()
    }

    /// Adds `value` behind the items that are there and hands out its handle.
    pub fn append(&mut self, value: T) -> (token: Token<T>)
        ensures
            final(self).deep_view() == old(self).deep_view().push(value.deep_view()),
            token == Token::<T>::at(old(self).deep_view().len() as int),
            token.index == old(self).deep_view().len(),
    {
        let index = self.items.len();
        self.items.push(value);
        assert(self.items.deep_view() =~= old(self).items.deep_view().push(value.deep_view()));
        Token { index, marker: PhantomData }
    }

    /// The item that `token` stands for.
    pub fn get(&self, token: Token<T>) -> (item: &T)
        requires
            token.index < self.deep_view().len(),
        ensures
            item.deep_view() == self.deep_view()[token.index as int],
    {
        &self.items[token.index]
    }
}

/// What the bits of a scalar stand for.
#[derive(Clone, Copy, Debug, PartialEq, Eq, Structural)]
pub enum ScalarKind {
    Sint,
    Uint,
    Float,
}

/// The number of components of a vector: two, three or four.
#[derive(Clone, Copy, Debug, PartialEq, Eq, Structural)]
pub enum VectorSize {
    Bi,
    Tri,
    Quad,
}

/// The length of an array: a fixed number, or one known at run time only.
#[derive(Clone, Copy, Debug, PartialEq, Eq, Structural)]
pub enum ArraySize {
    Static(Word),
    Dynamic,
}

/// What is known of an image type beyond its dimensionality.
#[derive(Clone, Copy, Debug, PartialEq, Eq, Structural)]
pub struct ImageFlags {
    pub arrayed: bool,
    pub multisampled: bool,
    pub sampled: bool,
    pub can_load: bool,
    pub can_store: bool,
}

/// How a variable or a struct member is bound to the pipeline.
#[derive(Clone, Copy, Debug, PartialEq, Eq, Structural)]
pub enum Binding {
    BuiltIn(BuiltIn),
    Location(Word),
    Descriptor { set: Word, binding: Word },
}

/// A member of a struct type.
#[derive(Debug, PartialEq, Eq)]
pub struct StructMember {
    pub name: Option<String>,
    pub binding: Option<Binding>,
    pub ty: Token<Type>,
}

/// The model of a `StructMember`.
pub struct StructMemberView {
    pub name: Option<Seq<char>>,
    pub binding: Option<Binding>,
    pub ty: Token<Type>,
}

impl DeepView for StructMember {
    type V = StructMemberView;

    open spec fn deep_view(&self) -> StructMemberView {
        StructMemberView { name: self.name.deep_view(), binding: self.binding, ty: self.ty }
    }
}

/// The shape of a type. Widths are counted in bits.
#[allow(inconsistent_fields)]
#[derive(Debug, PartialEq, Eq)]
pub enum TypeInner {
    Scalar { kind: ScalarKind, width: u8 },
    Vector { size: VectorSize, kind: ScalarKind, width: u8 },
    Matrix { columns: VectorSize, rows: VectorSize, kind: ScalarKind, width: u8 },
    Pointer { base: Token<Type>, class: StorageClass },
    Array { base: Token<Type>, size: ArraySize },
    Struct { members: Vec<StructMember> },
    Image { base: Token<Type>, dim: Dim, flags: ImageFlags },
    Sampler,
}

/// The model of a `TypeInner`.
#[allow(inconsistent_fields)]
pub enum TypeInnerView {
    Scalar { kind: ScalarKind, width: u8 },
    Vector { size: VectorSize, kind: ScalarKind, width: u8 },
    Matrix { columns: VectorSize, rows: VectorSize, kind: ScalarKind, width: u8 },
    Pointer { base: Token<Type>, class: StorageClass },
    Array { base: Token<Type>, size: ArraySize },
    Struct { members: Seq<StructMemberView> },
    Image { base: Token<Type>, dim: Dim, flags: ImageFlags },
    Sampler,
}

impl TypeInnerView {
    /// Every type that the shape is built on is one of the first `count`.
    pub open spec fn built_on_first(self, count: int) -> bool {
        match self {
            TypeInnerView::Pointer { base, .. } => base.index < count,
            TypeInnerView::Array { base, .. } => base.index < count,
            TypeInnerView::Image { base, .. } => base.index < count,
            TypeInnerView::Struct { members } => forall|i: int|
                0 <= i < members.len() ==> (#[trigger] members[i]).ty.index < count,
            _ => true,
        }
    }
}

impl DeepView for TypeInner {
    type V = TypeInnerView;

    open spec fn deep_view(&self) -> TypeInnerView {
        match *self {
            TypeInner::Scalar { kind, width } => TypeInnerView::Scalar { kind, width },
            TypeInner::Vector { size, kind, width } => TypeInnerView::Vector { size, kind, width },
            TypeInner::Matrix { columns, rows, kind, width } => TypeInnerView::Matrix {
                columns,
                rows,
                kind,
                width,
            },
            TypeInner::Pointer { base, class } => TypeInnerView::Pointer { base, class },
            TypeInner::Array { base, size } => TypeInnerView::Array { base, size },
            TypeInner::Struct { members } => TypeInnerView::Struct {
                members: members.deep_view(),
            },
            TypeInner::Image { base, dim, flags } => TypeInnerView::Image { base, dim, flags },
            TypeInner::Sampler => TypeInnerView::Sampler,
        }
    }
}

/// A type, with the name that the module gives it.
#[derive(Debug, PartialEq, Eq)]
pub struct Type {
    pub name: Option<String>,
    pub inner: TypeInner,
}

/// The model of a `Type`.
pub struct TypeView {
    pub name: Option<Seq<char>>,
    pub inner: TypeInnerView,
}

impl DeepView for Type {
    type V = TypeView;

    open spec fn deep_view(&self) -> TypeView {
        TypeView { name: self.name.deep_view(), inner: self.inner.deep_view() }
    }
}

/// The value of a constant. A float is held as the bits of its
/// double-precision form.
#[derive(Clone, Copy, Debug, PartialEq, Eq, Structural)]
pub enum ConstantInner {
    Sint(i64),
    Uint(u64),
    Float(u64),
}

/// A constant of a scalar type.
#[derive(Debug, PartialEq, Eq)]
pub struct Constant {
    pub name: Option<String>,
    pub specialization: Option<Word>,
    pub inner: ConstantInner,
}

/// The model of a `Constant`.
pub struct ConstantView {
    pub name: Option<Seq<char>>,
    pub specialization: Option<Word>,
    pub inner: ConstantInner,
}

impl DeepView for Constant {
    type V = ConstantView;

    open spec fn deep_view(&self) -> ConstantView {
        ConstantView {
            name: self.name.deep_view(),
            specialization: self.specialization,
            inner: self.inner,
        }
    }
}

/// A variable of the module.
#[derive(Debug, PartialEq, Eq)]
pub struct GlobalVariable {
    pub name: Option<String>,
    pub class: StorageClass,
    pub binding: Option<Binding>,
    pub ty: Token<Type>,
}

/// The model of a `GlobalVariable`.
pub struct GlobalVariableView {
    pub name: Option<Seq<char>>,
    pub class: StorageClass,
    pub binding: Option<Binding>,
    pub ty: Token<Type>,
}

impl DeepView for GlobalVariable {
    type V = GlobalVariableView;

    open spec fn deep_view(&self) -> GlobalVariableView {
        GlobalVariableView {
            name: self.name.deep_view(),
            class: self.class,
            binding: self.binding,
            ty: self.ty,
        }
    }
}

/// A node of the expression graph of a function. It refers to other nodes by their handles.
#[allow(inconsistent_fields)]
#[derive(Debug, PartialEq, Eq)]
pub enum Expression {
    GlobalVariable(Token<GlobalVariable>),
    Constant(Token<Constant>),
    Access { base: Token<Expression>, index: Token<Expression> },
    AccessIndex { base: Token<Expression>, index: u32 },
    Load { pointer: Token<Expression> },
    Compose { ty: Token<Type>, components: Vec<Token<Expression>> },
    Mul(Token<Expression>, Token<Expression>),
    ImageSample {
        image: Token<Expression>,
        sampler: Token<Expression>,
        coordinate: Token<Expression>,
    },
}

/// The model of an `Expression`.
#[allow(inconsistent_fields)]
pub enum ExpressionView {
    GlobalVariable(Token<GlobalVariable>),
    Constant(Token<Constant>),
    Access { base: Token<Expression>, index: Token<Expression> },
    AccessIndex { base: Token<Expression>, index: u32 },
    Load { pointer: Token<Expression> },
    Compose { ty: Token<Type>, components: Seq<Token<Expression>> },
    Mul(Token<Expression>, Token<Expression>),
    ImageSample {
        image: Token<Expression>,
        sampler: Token<Expression>,
        coordinate: Token<Expression>,
    },
}

impl ExpressionView {
    /// Every expression that this one refers to is one of the first
    /// `expressions`, and so for what it refers to in the other stores.
    pub open spec fn refers_within(
        self,
        expressions: int,
        types: int,
        constants: int,
        globals: int,
    ) -> bool {
        match self {
            ExpressionView::GlobalVariable(token) => token.index < globals,
            ExpressionView::Constant(token) => token.index < constants,
            ExpressionView::Access { base, index } => base.index < expressions && index.index
                < expressions,
            ExpressionView::AccessIndex { base, .. } => base.index < expressions,
            ExpressionView::Load { pointer } => pointer.index < expressions,
            ExpressionView::Compose { ty, components } => ty.index < types && forall|i: int|
                0 <= i < components.len() ==> (#[trigger] components[i]).index < expressions,
            ExpressionView::Mul(left, right) => left.index < expressions && right.index
                < expressions,
            ExpressionView::ImageSample { image, sampler, coordinate } => image.index
                < expressions && sampler.index < expressions && coordinate.index < expressions,
        }
    }
}

impl DeepView for Expression {
    type V = ExpressionView;

    open spec fn deep_view(&self) -> ExpressionView {
        match *self {
            Expression::GlobalVariable(token) => ExpressionView::GlobalVariable(token),
            Expression::Constant(token) => ExpressionView::Constant(token),
            Expression::Access { base, index } => ExpressionView::Access { base, index },
            Expression::AccessIndex { base, index } => ExpressionView::AccessIndex { base, index },
            Expression::Load { pointer } => ExpressionView::Load { pointer },
            Expression::Compose { ty, components } => ExpressionView::Compose {
                ty,
                components: components@,
            },
            Expression::Mul(left, right) => ExpressionView::Mul(left, right),
            Expression::ImageSample { image, sampler, coordinate } => ExpressionView::ImageSample {
                image,
                sampler,
                coordinate,
            },
        }
    }
}

/// A statement of a function body.
#[allow(inconsistent_fields)]
#[derive(Clone, Copy, Debug, PartialEq, Eq)]
pub enum Statement {
    Store { pointer: Token<Expression>, value: Token<Expression> },
    Return { value: Option<Token<Expression>> },
}

impl Statement {
    /// Every expression that the statement refers to is one of the first
    /// `expressions`.
    pub open spec fn refers_within(self, expressions: int) -> bool {
        match self {
            Statement::Store { pointer, value } => pointer.index < expressions && value.index
                < expressions,
            Statement::Return { value } => value matches Some(token) ==> token.index
                < expressions,
        }
    }
}

/// A function: its signature, its expressions, and its statements in their order.
#[derive(Debug, PartialEq, Eq)]
pub struct Function {
    pub name: Option<String>,
    pub control: FunctionControl,
    pub parameter_types: Vec<Token<Type>>,
    pub return_type: Option<Token<Type>>,
    pub expressions: Storage<Expression>,
    pub body: Vec<Statement>,
}

/// The model of a `Function`.
#[verifier::ext_equal]
pub struct FunctionView {
    pub name: Option<Seq<char>>,
    pub control: FunctionControl,
    pub parameter_types: Seq<Token<Type>>,
    pub return_type: Option<Token<Type>>,
    pub expressions: Seq<ExpressionView>,
    pub body: Seq<Statement>,
}

impl FunctionView {
    /// Every handle in the function is a handle of a store of so many items,
    /// and an expression refers to earlier expressions only.
    pub open spec fn valid(self, types: int, constants: int, globals: int) -> bool {
        &&& forall|i: int|
            0 <= i < self.parameter_types.len() ==> (#[trigger] self.parameter_types[i]).index
                < types
        &&& self.return_type matches Some(token) ==> token.index < types
        &&& forall|i: int|
            0 <= i < self.expressions.len() ==> (#[trigger] self.expressions[i]).refers_within(
                i,
                types,
                constants,
                globals,
            )
        &&& forall|i: int|
            0 <= i < self.body.len() ==> (#[trigger] self.body[i]).refers_within(
                self.expressions.len() as int,
            )
    }
}

impl DeepView for Function {
    type V = FunctionView;

    open spec fn deep_view(&self) -> FunctionView {
        FunctionView {
            name: self.name.deep_view(),
            control: self.control,
            parameter_types: self.parameter_types@,
            return_type: self.return_type,
            expressions: self.expressions.deep_view(),
            body: self.body@,
        }
    }
}

/// A function that a pipeline stage starts with, and the variables through which it takes and gives data.
#[derive(Debug, PartialEq, Eq)]
pub struct EntryPoint {
    pub exec_model: ExecutionModel,
    pub name: String,
    pub function: Token<Function>,
    pub inputs: Vec<Token<GlobalVariable>>,
    pub outputs: Vec<Token<GlobalVariable>>,
}

/// The model of an `EntryPoint`.
#[verifier::ext_equal]
pub struct EntryPointView {
    pub exec_model: ExecutionModel,
    pub name: Seq<char>,
    pub function: Token<Function>,
    pub inputs: Seq<Token<GlobalVariable>>,
    pub outputs: Seq<Token<GlobalVariable>>,
}

impl EntryPointView {
    /// The function is one of the first `functions`, and every input and
    /// output one of the first `globals` variables.
    pub open spec fn valid(self, functions: int, globals: int) -> bool {
        &&& self.function.index < functions
        &&& forall|i: int| 0 <= i < self.inputs.len() ==> (#[trigger] self.inputs[i]).index < globals
        &&& forall|i: int|
            0 <= i < self.outputs.len() ==> (#[trigger] self.outputs[i]).index < globals
    }
}

impl DeepView for EntryPoint {
    type V = EntryPointView;

    open spec fn deep_view(&self) -> EntryPointView {
        EntryPointView {
            exec_model: self.exec_model,
            name: self.name@,
            function: self.function,
            inputs: self.inputs@,
            outputs: self.outputs@,
        }
    }
}

/// What a module's first words say of it: the version as major, minor and
/// patch, and the generator's number.
#[derive(Clone, Copy, Debug, PartialEq, Eq)]
pub struct Header {
    pub version: (u8, u8, u8),
    pub generator: Word,
}

/// A shader module.
#[derive(Debug, PartialEq, Eq)]
pub struct Module {
    pub header: Header,
    pub types: Storage<Type>,
    pub constants: Storage<Constant>,
    pub global_variables: Storage<GlobalVariable>,
    pub functions: Storage<Function>,
    pub entry_points: Vec<EntryPoint>,
}

/// The model of a `Module`.
#[verifier::ext_equal]
pub struct ModuleView {
    pub header: Header,
    pub types: Seq<TypeView>,
    pub constants: Seq<ConstantView>,
    pub global_variables: Seq<GlobalVariableView>,
    pub functions: Seq<FunctionView>,
    pub entry_points: Seq<EntryPointView>,
}

impl ModuleView {
    /// Every handle in the module is a handle of the module: a type is built
    /// on earlier types, a variable has a type of the module, and the
    /// functions and the entry points refer to what the module holds.
    pub open spec fn valid(self) -> bool {
        &&& forall|i: int|
            0 <= i < self.types.len() ==> (#[trigger] self.types[i]).inner.built_on_first(i)
        &&& forall|i: int|
            0 <= i < self.global_variables.len() ==> (#[trigger] self.global_variables[i]).ty.index
                < self.types.len()
        &&& forall|i: int|
            0 <= i < self.functions.len() ==> (#[trigger] self.functions[i]).valid(
                self.types.len() as int,
                self.constants.len() as int,
                self.global_variables.len() as int,
            )
        &&& forall|i: int|
            0 <= i < self.entry_points.len() ==> (#[trigger] self.entry_points[i]).valid(
                self.functions.len() as int,
                self.global_variables.len() as int,
            )
    }

    /// The module that holds nothing but its header.
    pub open spec fn empty(header: Header) -> ModuleView {
        ModuleView {
            header,
            types: Seq::empty(),
            constants: Seq::empty(),
            global_variables: Seq::empty(),
            functions: Seq::empty(),
            entry_points: Seq::empty(),
        }
    }
}

impl DeepView for Module {
    type V = ModuleView;

    open spec fn deep_view(&self) -> ModuleView {
        ModuleView {
            header: self.header,
            types: self.types.deep_view(),
            constants: self.constants.deep_view(),
            global_variables: self.global_variables.deep_view(),
            functions: self.functions.deep_view(),
            entry_points: self.entry_points.deep_view(),
        }
    }
}

impl Module {
    /// The module that holds nothing but its header.
    pub fn from_header(header: Header) -> (module: Module)
        ensures
            module.deep_view() == ModuleView::empty(header),
    {
        let module = Module {
            header,
            types: Storage::new(),
            constants: Storage::new(),
            global_variables: Storage::new(),
            functions: Storage::new(),
            entry_points: Vec::new(),
        };
        assert(module.entry_points.deep_view() =~= Seq::<EntryPointView>::empty());
        module
    }
}

} // verus!

//! The decoder's state: the words that are left to read, the phase, and the
//! tables that lead from the ids of the binary form to the handles of the
//! representation. `ParserView` is its model; the methods here are the only
//! code that touches the tables themselves.

use crate::decoration::{Decoration, DecorationView};
use crate::error::{Error, ErrorView, ModuleState};
use crate::ir::{Constant, Expression, Function, GlobalVariable, Token, Type};
use crate::words::{ExecutionModel, Word};
use std::collections::{HashMap, HashSet};
use vstd::prelude::*;

verus! {

broadcast use vstd::std_specs::hash::group_hash_axioms;

/// A type of the binary form: its handle, and the id of the type that it
/// is built on (the component of a vector, the pointee of a pointer).
#[derive(Clone, Copy, Debug, PartialEq, Eq)]
pub struct LookupType {
    pub token: Token<Type>,
    pub base_id: Option<Word>,
}

/// A constant of the binary form: its handle, and the id of its type.
#[derive(Clone, Copy, Debug, PartialEq, Eq)]
pub struct LookupConstant {
    pub token: Token<Constant>,
    pub type_id: Word,
}

/// A variable of the binary form: its handle, and the id of its type.
#[derive(Clone, Copy, Debug, PartialEq, Eq)]
pub struct LookupVariable {
    pub token: Token<GlobalVariable>,
    pub type_id: Word,
}

/// An expression of the function that is being read: its handle, and the id of its type.
#[derive(Clone, Copy, Debug, PartialEq, Eq)]
pub struct LookupExpression {
    pub token: Token<Expression>,
    pub type_id: Word,
}

/// An image together with the sampler that it is sampled with.
#[derive(Clone, Copy, Debug, PartialEq, Eq)]
pub struct LookupSampledImage {
    pub image: Token<Expression>,
    pub sampler: Token<Expression>,
}

/// A function type of the binary form: the ids of the types of the parameters and of the result.
#[derive(Debug, PartialEq, Eq)]
pub struct LookupFunctionType {
    pub parameter_type_ids: Vec<Word>,
    pub return_type_id: Word,
}

/// The model of a `LookupFunctionType`.
pub struct LookupFunctionTypeView {
    pub parameter_type_ids: Seq<Word>,
    pub return_type_id: Word,
}

impl DeepView for LookupFunctionType {
    type V = LookupFunctionTypeView;

    open spec fn deep_view(&self) -> LookupFunctionTypeView {
        LookupFunctionTypeView {
            parameter_type_ids: self.parameter_type_ids@,
            return_type_id: self.return_type_id,
        }
    }
}

/// An entry point as its instruction gives it, before its function and its
/// variables are known.
#[derive(Debug, PartialEq, Eq)]
pub struct RawEntryPoint {
    pub exec_model: ExecutionModel,
    pub name: String,
    pub function_id: Word,
    pub variable_ids: Vec<Word>,
}

/// The model of a `RawEntryPoint`.
pub struct RawEntryPointView {
    pub exec_model: ExecutionModel,
    pub name: Seq<char>,
    pub function_id: Word,
    pub variable_ids: Seq<Word>,
}

impl DeepView for RawEntryPoint {
    type V = RawEntryPointView;

    open spec fn deep_view(&self) -> RawEntryPointView {
        RawEntryPointView {
            exec_model: self.exec_model,
            name: self.name@,
            function_id: self.function_id,
            variable_ids: self.variable_ids@,
        }
    }
}

/// What a table gives for `key`: the entry, or the error for an id that was
/// never defined.
pub open spec fn lookup_in<T>(table: Map<Word, T>, key: Word) -> Result<T, ErrorView> {
    if table.contains_key(key) {
        Ok(table[key])
    } else {
        Err(ErrorView::InvalidId(key))
    }
}

/// Finds the entry that was stored under `key`.
pub fn lookup<'a, T>(table: &'a HashMap<Word, T>, key: Word) -> (r: Result<&'a T, Error>)
    ensures
        match r {
            Ok(entry) => lookup_in(table@, key) == Ok::<T, ErrorView>(*entry),
            Err(e) => lookup_in(table@, key) == Err::<T, ErrorView>(e.deep_view()),
        },
{
    match table.get(&key) {
        Some(entry) => Ok(entry),
        None => Err(Error::InvalidId(key)),
    }
}

/// The list holds the ids of the set, and no others, each once.
pub open spec fn lists(ids: Seq<Word>, set: Set<Word>) -> bool {
    &&& forall|i: int| 0 <= i < ids.len() ==> set.contains(#[trigger] ids[i])
    &&& forall|i: int, j: int|
        0 <= i < j < ids.len() ==> #[trigger] ids[i] != #[trigger] ids[j]
    &&& forall|id: Word|
        set.contains(id) ==> exists|i: int| 0 <= i < ids.len() && #[trigger] ids[i] == id
}

/// A list stays one when an id that the set lacks joins both, and when an
/// id that the set holds joins the set again.
pub proof fn lists_insert(ids: Seq<Word>, set: Set<Word>, id: Word)
    requires
        lists(ids, set),
    ensures
        set.contains(id) ==> lists(ids, set.insert(id)),
        !set.contains(id) ==> lists(ids.push(id), set.insert(id)),
{
    if set.contains(id) {
        assert(set.insert(id) =~= set);
    } else {
        let more = ids.push(id);
        assert forall|k: Word| set.insert(id).contains(k) implies exists|i: int|
            0 <= i < more.len() && #[trigger] more[i] == k by {
            if k == id {
                assert(more[ids.len() as int] == id);
            } else {
                let i = choose|i: int| 0 <= i < ids.len() && #[trigger] ids[i] == k;
                assert(more[i] == k);
            }
        }
    }
}

/// The model of the decoder's state.
#[verifier::ext_equal]
pub struct ParserView {
    /// All the words of the module.
    pub words: Seq<Word>,
    /// How many of them have been read.
    pub pos: int,
    pub state: ModuleState,
    pub future_decor: Map<Word, DecorationView>,
    pub future_member_decor: Map<(Word, Word), DecorationView>,
    /// For a struct's id and a member's index, the id of the member's type.
    pub member_type_ids: Map<(Word, Word), Word>,
    pub types: Map<Word, LookupType>,
    pub void_types: Set<Word>,
    pub constants: Map<Word, LookupConstant>,
    /// The ids of the constants, each once, in the order of their definition.
    pub constant_ids: Seq<Word>,
    pub variables: Map<Word, LookupVariable>,
    /// The ids of the variables, each once, in the order of their definition.
    pub variable_ids: Seq<Word>,
    pub expressions: Map<Word, LookupExpression>,
    pub sampled_images: Map<Word, LookupSampledImage>,
    pub function_types: Map<Word, LookupFunctionTypeView>,
    pub functions: Map<Word, Token<Function>>,
    pub entry_points: Seq<RawEntryPointView>,
}

impl ParserView {
    /// The state before anything was read from position `pos` on.
    pub open spec fn fresh(words: Seq<Word>, pos: int) -> ParserView {
        ParserView {
            words,
            pos,
            state: ModuleState::Empty,
            future_decor: Map::empty(),
            future_member_decor: Map::empty(),
            member_type_ids: Map::empty(),
            types: Map::empty(),
            void_types: Set::empty(),
            constants: Map::empty(),
            constant_ids: Seq::empty(),
            variables: Map::empty(),
            variable_ids: Seq::empty(),
            expressions: Map::empty(),
            sampled_images: Map::empty(),
            function_types: Map::empty(),
            functions: Map::empty(),
            entry_points: Seq::empty(),
        }
    }

    /// The position lies within the words, and the two lists of ids hold
    /// the ids that have an entry in their table, and no others, each once.
    pub open spec fn inv(self) -> bool {
        &&& 0 <= self.pos <= self.words.len()
        &&& lists(self.variable_ids, self.variables.dom())
        &&& lists(self.constant_ids, self.constants.dom())
    }

    /// The number of words that are left to read.
    pub open spec fn remaining(self) -> int {
        self.words.len() - self.pos
    }

    /// The word that is read `k` words from here.
    pub open spec fn word(self, k: int) -> Word {
        self.words[self.pos + k]
    }

    /// The state after `n` more words were read.
    pub open spec fn advance(self, n: int) -> ParserView {
        ParserView { pos: self.pos + n, ..self }
    }

    /// The state in the phase `state`.
    pub open spec fn with_state(self, state: ModuleState) -> ParserView {
        ParserView { state, ..self }
    }

    /// What is kept for `id`, if anything.
    pub open spec fn decor(self, id: Word) -> Option<DecorationView> {
        if self.future_decor.contains_key(id) {
            Some(self.future_decor[id])
        } else {
            None
        }
    }

    /// The state with nothing kept for `id`.
    pub open spec fn without_decor(self, id: Word) -> ParserView {
        ParserView { future_decor: self.future_decor.remove(id), ..self }
    }

    /// The state with `decoration` kept for `id`.
    pub open spec fn with_decor(self, id: Word, decoration: DecorationView) -> ParserView {
        ParserView { future_decor: self.future_decor.insert(id, decoration), ..self }
    }

    /// What is kept for member `index` of struct `id`, if anything.
    pub open spec fn member_decor(self, id: Word, index: Word) -> Option<DecorationView> {
        if self.future_member_decor.contains_key((id, index)) {
            Some(self.future_member_decor[(id, index)])
        } else {
            None
        }
    }

    /// The state with nothing kept for member `index` of struct `id`.
    pub open spec fn without_member_decor(self, id: Word, index: Word) -> ParserView {
        ParserView { future_member_decor: self.future_member_decor.remove((id, index)), ..self }
    }

    /// The state with `decoration` kept for member `index` of struct `id`.
    pub open spec fn with_member_decor(
        self,
        id: Word,
        index: Word,
        decoration: DecorationView,
    ) -> ParserView {
        ParserView {
            future_member_decor: self.future_member_decor.insert((id, index), decoration),
            ..self
        }
    }

    /// The state with nothing kept for any id or member.
    pub open spec fn without_decorations(self) -> ParserView {
        ParserView { future_decor: Map::empty(), future_member_decor: Map::empty(), ..self }
    }

    /// The state in which member `index` of struct `id` has the type `type_id`.
    pub open spec fn with_member_type(self, id: Word, index: Word, type_id: Word) -> ParserView {
        ParserView { member_type_ids: self.member_type_ids.insert((id, index), type_id), ..self }
    }

    /// The state in which `id` stands for the type `entry`.
    pub open spec fn with_type(self, id: Word, entry: LookupType) -> ParserView {
        ParserView { types: self.types.insert(id, entry), ..self }
    }

    /// The state in which `id` stands for the type of nothing.
    pub open spec fn with_void_type(self, id: Word) -> ParserView {
        ParserView { void_types: self.void_types.insert(id), ..self }
    }

    /// The entry is stored; the id joins the list unless it is in it.
    pub open spec fn with_constant(self, id: Word, entry: LookupConstant) -> ParserView {
        ParserView {
            constants: self.constants.insert(id, entry),
            constant_ids: if self.constants.contains_key(id) {
                self.constant_ids
            } else {
                self.constant_ids.push(id)
            },
            ..self
        }
    }

    /// The entry is stored; the id joins the list unless it is in it.
    pub open spec fn with_variable(self, id: Word, entry: LookupVariable) -> ParserView {
        ParserView {
            variables: self.variables.insert(id, entry),
            variable_ids: if self.variables.contains_key(id) {
                self.variable_ids
            } else {
                self.variable_ids.push(id)
            },
            ..self
        }
    }

    /// The state in which `id` stands for the expression `entry`.
    pub open spec fn with_expression(self, id: Word, entry: LookupExpression) -> ParserView {
        ParserView { expressions: self.expressions.insert(id, entry), ..self }
    }

    /// The state in which `id` stands for the sampled image `entry`.
    pub open spec fn with_sampled_image(self, id: Word, entry: LookupSampledImage) -> ParserView {
        ParserView { sampled_images: self.sampled_images.insert(id, entry), ..self }
    }

    /// The state between two functions: nothing of the last one's expressions
    /// is left.
    pub open spec fn without_function_tables(self) -> ParserView {
        ParserView { expressions: Map::empty(), sampled_images: Map::empty(), ..self }
    }

    /// The state in which `id` stands for the function type `entry`.
    pub open spec fn with_function_type(
        self,
        id: Word,
        entry: LookupFunctionTypeView,
    ) -> ParserView {
        ParserView { function_types: self.function_types.insert(id, entry), ..self }
    }

    /// The state in which `id` stands for the function `token`.
    pub open spec fn with_function(self, id: Word, token: Token<Function>) -> ParserView {
        ParserView { functions: self.functions.insert(id, token), ..self }
    }

    /// The state with one more entry point read.
    pub open spec fn with_entry_point(self, entry: RawEntryPointView) -> ParserView {
        ParserView { entry_points: self.entry_points.push(entry), ..self }
    }

    /// The words from here on, `count` of them or as many as are left.
    pub open spec fn taken(self, count: int) -> Seq<Word> {
        self.words.subrange(self.pos, self.pos + self.take_len(count))
    }

    /// The smaller of `count` and the number of words that are left.
    pub open spec fn take_len(self, count: int) -> int {
        if count <= self.remaining() {
            count
        } else {
            self.remaining()
        }
    }
}

/// The key under which the tables hold what belongs to member `index` of
/// struct `id`.
pub open spec fn pair_key(id: Word, index: Word) -> u64 {
    (id * 0x1_0000_0000 + index) as u64
}

/// No two members share a key.
pub proof fn pair_key_is_injective(id: Word, index: Word, other_id: Word, other_index: Word)
    ensures
        pair_key(id, index) == pair_key(other_id, other_index) ==> id == other_id && index
            == other_index,
{
}

fn member_key(id: Word, index: Word) -> (key: u64)
    ensures
        key == pair_key(id, index),
{
    id as u64 * 0x1_0000_0000 + index as u64
}

/// A table that is kept under the keys of members, as a map from the members.
spec fn pairs<V>(table: Map<u64, V>) -> Map<(Word, Word), V> {
    Map::new(
        |k: (Word, Word)| table.contains_key(pair_key(k.0, k.1)),
        |k: (Word, Word)| table[pair_key(k.0, k.1)],
    )
}

/// The models of the records of a table.
spec fn decorations(table: Map<Word, Decoration>) -> Map<Word, DecorationView> {
    Map::new(|k: Word| table.contains_key(k), |k: Word| table[k].deep_view())
}

/// The models of the records that are kept under the keys of members.
spec fn member_decorations(table: Map<u64, Decoration>) -> Map<
    (Word, Word),
    DecorationView,
> {
    Map::new(
        |k: (Word, Word)| table.contains_key(pair_key(k.0, k.1)),
        |k: (Word, Word)| table[pair_key(k.0, k.1)].deep_view(),
    )
}

/// The models of the entries of a table.
spec fn function_types(table: Map<Word, LookupFunctionType>) -> Map<
    Word,
    LookupFunctionTypeView,
> {
    Map::new(|k: Word| table.contains_key(k), |k: Word| table[k].deep_view())
}

/// The decoder. It reads the words of one module from front to back.
pub struct Parser {
    data: Vec<Word>,
    pos: usize,
    state: ModuleState,
    future_decor: HashMap<Word, Decoration>,
    future_member_decor: HashMap<u64, Decoration>,
    lookup_member_type_id: HashMap<u64, Word>,
    lookup_type: HashMap<Word, LookupType>,
    lookup_void_type: HashSet<Word>,
    lookup_constant: HashMap<Word, LookupConstant>,
    constant_order: Vec<Word>,
    lookup_variable: HashMap<Word, LookupVariable>,
    variable_order: Vec<Word>,
    lookup_expression: HashMap<Word, LookupExpression>,
    lookup_sampled_image: HashMap<Word, LookupSampledImage>,
    lookup_function_type: HashMap<Word, LookupFunctionType>,
    lookup_function: HashMap<Word, Token<Function>>,
    entry_points: Vec<RawEntryPoint>,
}

impl View for Parser {
    type V = ParserView;

    closed spec fn view(&self) -> ParserView {
        ParserView {
            words: self.data@,
            pos: self.pos as int,
            state: self.state,
            future_decor: decorations(self.future_decor@),
            future_member_decor: member_decorations(self.future_member_decor@),
            member_type_ids: pairs(self.lookup_member_type_id@),
            types: self.lookup_type@,
            void_types: self.lookup_void_type@,
            constants: self.lookup_constant@,
            constant_ids: self.constant_order@,
            variables: self.lookup_variable@,
            variable_ids: self.variable_order@,
            expressions: self.lookup_expression@,
            sampled_images: self.lookup_sampled_image@,
            function_types: function_types(self.lookup_function_type@),
            functions: self.lookup_function@,
            entry_points: self.entry_points.deep_view(),
        }
    }
}

impl Parser {
    /// The state is one that the methods of this type leave behind.
    pub open spec fn wf(&self) -> bool {
        self@.inv()
    }

    /// A decoder for the words of one module.
    pub fn new(data: Vec<Word>) -> (parser: Parser)
        ensures
            parser.wf(),
            parser@ == ParserView::fresh(data@, 0),
    {
        let parser = Parser {
            data,
            pos: 0,
            state: ModuleState::Empty,
            future_decor: HashMap::new(),
            future_member_decor: HashMap::new(),
            lookup_member_type_id: HashMap::new(),
            lookup_type: HashMap::new(),
            lookup_void_type: HashSet::new(),
            lookup_constant: HashMap::new(),
            constant_order: Vec::new(),
            lookup_variable: HashMap::new(),
            variable_order: Vec::new(),
            lookup_expression: HashMap::new(),
            lookup_sampled_image: HashMap::new(),
            lookup_function_type: HashMap::new(),
            lookup_function: HashMap::new(),
            entry_points: Vec::new(),
        };
        proof {
            let fresh = ParserView::fresh(data@, 0);
            assert(parser@.future_decor =~= fresh.future_decor);
            assert(parser@.future_member_decor =~= fresh.future_member_decor);
            assert(parser@.member_type_ids =~= fresh.member_type_ids);
            assert(parser@.function_types =~= fresh.function_types);
            assert(parser@.entry_points =~= fresh.entry_points);
        }
        parser
    }

    /// Forgets everything but the words and the place in them.
    pub(crate) fn reset(&mut self)
        requires
            old(self).wf(),
        ensures
            final(self).wf(),
            final(self)@ == ParserView::fresh(old(self)@.words, old(self)@.pos),
    {
        self.state = ModuleState::Empty;
        self.future_decor = HashMap::new();
        self.future_member_decor = HashMap::new();
        self.lookup_member_type_id = HashMap::new();
        self.lookup_type = HashMap::new();
        self.lookup_void_type = HashSet::new();
        self.lookup_constant = HashMap::new();
        self.constant_order = Vec::new();
        self.lookup_variable = HashMap::new();
        self.variable_order = Vec::new();
        self.lookup_expression = HashMap::new();
        self.lookup_sampled_image = HashMap::new();
        self.lookup_function_type = HashMap::new();
        self.lookup_function = HashMap::new();
        self.entry_points = Vec::new();
        proof {
            let fresh = ParserView::fresh(old(self)@.words, old(self)@.pos);
            assert(self@.future_decor =~= fresh.future_decor);
            assert(self@.future_member_decor =~= fresh.future_member_decor);
            assert(self@.member_type_ids =~= fresh.member_type_ids);
            assert(self@.function_types =~= fresh.function_types);
            assert(self@.entry_points =~= fresh.entry_points);
        }
    }

    /// Reads one word.
    pub fn next(&mut self) -> (r: Result<Word, Error>)
        requires
            old(self).wf(),
        ensures
            final(self).wf(),
            match r {
                Ok(word) => {
                    &&& old(self)@.remaining() > 0
                    &&& word == old(self)@.word(0)
                    &&& final(self)@ == old(self)@.advance(1)
                },
                Err(e) => {
                    &&& old(self)@.remaining() <= 0
                    &&& e.deep_view() == ErrorView::IncompleteData
                    &&& final(self)@ == old(self)@
                },
            },
    {
        if self.pos < self.data.len() {
            let word = self.data[self.pos];
            self.pos = self.pos + 1;
            Ok(word)
        } else {
            Err(Error::IncompleteData)
        }
    }

    /// Reads `count` words and drops them. Where fewer are left, those are
    /// read.
    pub(crate) fn skip(&mut self, count: usize) -> (r: Result<(), Error>)
        requires
            old(self).wf(),
        ensures
            final(self).wf(),
            match r {
                Ok(()) => {
                    &&& old(self)@.remaining() >= count
                    &&& final(self)@ == old(self)@.advance(count as int)
                },
                Err(e) => {
                    &&& old(self)@.remaining() < count
                    &&& e.deep_view() == ErrorView::IncompleteData
                    &&& final(self)@ == old(self)@.advance(old(self)@.remaining())
                },
            },
    {
        if self.data.len() - self.pos >= count {
            self.pos = self.pos + count;
            Ok(())
        } else {
            self.pos = self.data.len();
            Err(Error::IncompleteData)
        }
    }

    /// Reads `count` words, or the words that are left if they are fewer.
    pub(crate) fn take(&mut self, count: usize) -> (words: Vec<Word>)
        requires
            old(self).wf(),
        ensures
            final(self).wf(),
            words@ == old(self)@.taken(count as int),
            final(self)@ == old(self)@.advance(old(self)@.take_len(count as int)),
    {
        let left = self.data.len() - self.pos;
        let n = if count <= left {
            count
        } else {
            left
        };
        let mut words: Vec<Word> = Vec::new();
        let start = self.pos;
        let mut i: usize = 0;
        while i < n
            invariant
                i <= n,
                start + n <= self.data.len(),
                self.pos == start,
                words@ == self.data@.subrange(start as int, start + i),
            decreases n - i,
        {
            words.push(self.data[start + i]);
            i = i + 1;
        }
        self.pos = start + n;
        words
    }

    /// The number of words that are left to read.
    pub fn remaining(&self) -> (n: usize)
        requires
            self.wf(),
        ensures
            n == self@.remaining(),
    {
        self.data.len() - self.pos
    }

    /// The phase that the decoder is in.
    pub fn state(&self) -> (state: ModuleState)
        ensures
            state == self@.state,
    {
        self.state
    }

    /// Moves to the phase `state`.
    pub(crate) fn set_state(&mut self, state: ModuleState)
        requires
            old(self).wf(),
        ensures
            final(self).wf(),
            final(self)@ == old(self)@.with_state(state),
    {
        self.state = state;
    }

    /// Takes away what is kept for `id`.
    pub(crate) fn take_decoration(&mut self, id: Word) -> (r: Option<Decoration>)
        requires
            old(self).wf(),
        ensures
            final(self).wf(),
            r.deep_view() == old(self)@.decor(id),
            final(self)@ == old(self)@.without_decor(id),
    {
        let r = self.future_decor.remove(&id);
        proof {
            assert(self@.future_decor =~= old(self)@.future_decor.remove(id));
        }
        r
    }

    /// Keeps `decoration` for `id`.
    pub(crate) fn put_decoration(&mut self, id: Word, decoration: Decoration)
        requires
            old(self).wf(),
        ensures
            final(self).wf(),
            final(self)@ == old(self)@.with_decor(id, decoration.deep_view()),
    {
        self.future_decor.insert(id, decoration);
        proof {
            assert(self@.future_decor =~= old(self)@.future_decor.insert(
                id,
                decoration.deep_view(),
            ));
        }
    }

    /// Takes away what is kept for member `index` of struct `id`.
    pub(crate) fn take_member_decoration(&mut self, id: Word, index: Word) -> (r: Option<Decoration>)
        requires
            old(self).wf(),
        ensures
            final(self).wf(),
            r.deep_view() == old(self)@.member_decor(id, index),
            final(self)@ == old(self)@.without_member_decor(id, index),
    {
        let key = member_key(id, index);
        let r = self.future_member_decor.remove(&key);
        proof {
            assert(self@.future_member_decor =~= old(self)@.future_member_decor.remove(
                (id, index),
            ));
        }
        r
    }

    /// Keeps `decoration` for member `index` of struct `id`.
    pub(crate) fn put_member_decoration(&mut self, id: Word, index: Word, decoration: Decoration)
        requires
            old(self).wf(),
        ensures
            final(self).wf(),
            final(self)@ == old(self)@.with_member_decor(id, index, decoration.deep_view()),
    {
        let key = member_key(id, index);
        self.future_member_decor.insert(key, decoration);
        proof {
            assert(self@.future_member_decor =~= old(self)@.future_member_decor.insert(
                (id, index),
                decoration.deep_view(),
            ));
        }
    }

    /// Drops the decorations that no definition took.
    pub(crate) fn clear_decorations(&mut self)
        requires
            old(self).wf(),
        ensures
            final(self).wf(),
            final(self)@ == old(self)@.without_decorations(),
    {
        self.future_decor.clear();
        self.future_member_decor.clear();
        proof {
            assert(self@.future_decor =~= Map::<Word, DecorationView>::empty());
            assert(self@.future_member_decor =~= Map::<(Word, Word), DecorationView>::empty());
        }
    }

    /// The id of the type of member `index` of struct `id`.
    pub fn member_type_id(&self, id: Word, index: Word) -> (r: Option<Word>)
        requires
            self.wf(),
        ensures
            r == (if self@.member_type_ids.contains_key((id, index)) {
                Some(self@.member_type_ids[(id, index)])
            } else {
                None
            }),
    {
        let key = member_key(id, index);
        match self.lookup_member_type_id.get(&key) {
            Some(type_id) => Some(*type_id),
            None => None,
        }
    }

    /// Records the id of the type of member `index` of struct `id`.
    pub(crate) fn insert_member_type_id(&mut self, id: Word, index: Word, type_id: Word)
        requires
            old(self).wf(),
        ensures
            final(self).wf(),
            final(self)@ == old(self)@.with_member_type(id, index, type_id),
    {
        let key = member_key(id, index);
        self.lookup_member_type_id.insert(key, type_id);
        proof {
            assert(self@.member_type_ids =~= old(self)@.member_type_ids.insert(
                (id, index),
                type_id,
            ));
        }
    }

    /// The type that `id` stands for.
    pub fn lookup_type(&self, id: Word) -> (r: Result<LookupType, Error>)
        requires
            self.wf(),
        ensures
            match r {
                Ok(entry) => lookup_in(self@.types, id) == Ok::<LookupType, ErrorView>(entry),
                Err(e) => lookup_in(self@.types, id) == Err::<LookupType, ErrorView>(
                    e.deep_view(),
                ),
            },
    {
        match lookup(&self.lookup_type, id) {
            Ok(entry) => Ok(*entry),
            Err(e) => Err(e),
        }
    }

    /// Lets `id` stand for the type `entry`.
    pub(crate) fn insert_type(&mut self, id: Word, entry: LookupType)
        requires
            old(self).wf(),
        ensures
            final(self).wf(),
            final(self)@ == old(self)@.with_type(id, entry),
    {
        self.lookup_type.insert(id, entry);
    }

    /// Whether `id` stands for the type of nothing.
    pub fn is_void_type(&self, id: Word) -> (r: bool)
        requires
            self.wf(),
        ensures
            r == self@.void_types.contains(id),
    {
        self.lookup_void_type.contains(&id)
    }

    /// Lets `id` stand for the type of nothing.
    pub(crate) fn insert_void_type(&mut self, id: Word)
        requires
            old(self).wf(),
        ensures
            final(self).wf(),
            final(self)@ == old(self)@.with_void_type(id),
    {
        self.lookup_void_type.insert(id);
    }

    /// The constant that `id` stands for.
    pub fn lookup_constant(&self, id: Word) -> (r: Result<LookupConstant, Error>)
        requires
            self.wf(),
        ensures
            match r {
                Ok(entry) => lookup_in(self@.constants, id) == Ok::<LookupConstant, ErrorView>(
                    entry,
                ),
                Err(e) => lookup_in(self@.constants, id) == Err::<LookupConstant, ErrorView>(
                    e.deep_view(),
                ),
            },
    {
        match lookup(&self.lookup_constant, id) {
            Ok(entry) => Ok(*entry),
            Err(e) => Err(e),
        }
    }

    /// Lets `id` stand for the constant `entry`.
    pub(crate) fn insert_constant(&mut self, id: Word, entry: LookupConstant)
        requires
            old(self).wf(),
        ensures
            final(self).wf(),
            final(self)@ == old(self)@.with_constant(id, entry),
    {
        proof {
            lists_insert(self@.constant_ids, self@.constants.dom(), id);
            assert(self@.constants.insert(id, entry).dom() =~= self@.constants.dom().insert(id));
        }
        if !self.lookup_constant.contains_key(&id) {
            self.constant_order.push(id);
        }
        self.lookup_constant.insert(id, entry);
    }

    /// The number of ids that stand for a constant.
    pub fn constant_count(&self) -> (n: usize)
        requires
            self.wf(),
        ensures
            n == self@.constant_ids.len(),
    {
        self.constant_order.len()
    }

    /// The constant that was defined as number `i` among the constants, with its id.
    pub fn constant_at(&self, i: usize) -> (r: (Word, LookupConstant))
        requires
            self.wf(),
            i < self@.constant_ids.len(),
        ensures
            r.0 == self@.constant_ids[i as int],
            self@.constants.contains_key(r.0),
            r.1 == self@.constants[r.0],
    {
        let id = self.constant_order[i];
        assert(self@.constants.contains_key(self@.constant_ids[i as int]));
        match self.lookup_constant.get(&id) {
            Some(entry) => (id, *entry),
            None => unreached(),
        }
    }

    /// The variable that `id` stands for.
    pub fn lookup_variable(&self, id: Word) -> (r: Result<LookupVariable, Error>)
        requires
            self.wf(),
        ensures
            match r {
                Ok(entry) => lookup_in(self@.variables, id) == Ok::<LookupVariable, ErrorView>(
                    entry,
                ),
                Err(e) => lookup_in(self@.variables, id) == Err::<LookupVariable, ErrorView>(
                    e.deep_view(),
                ),
            },
    {
        match lookup(&self.lookup_variable, id) {
            Ok(entry) => Ok(*entry),
            Err(e) => Err(e),
        }
    }

    /// Lets `id` stand for the variable `entry`.
    pub(crate) fn insert_variable(&mut self, id: Word, entry: LookupVariable)
        requires
            old(self).wf(),
        ensures
            final(self).wf(),
            final(self)@ == old(self)@.with_variable(id, entry),
    {
        proof {
            lists_insert(self@.variable_ids, self@.variables.dom(), id);
            assert(self@.variables.insert(id, entry).dom() =~= self@.variables.dom().insert(id));
        }
        if !self.lookup_variable.contains_key(&id) {
            self.variable_order.push(id);
        }
        self.lookup_variable.insert(id, entry);
    }

    /// The number of ids that stand for a variable.
    pub fn variable_count(&self) -> (n: usize)
        requires
            self.wf(),
        ensures
            n == self@.variable_ids.len(),
    {
        self.variable_order.len()
    }

    /// The variable that was defined as number `i` among the variables, with its id.
    pub fn variable_at(&self, i: usize) -> (r: (Word, LookupVariable))
        requires
            self.wf(),
            i < self@.variable_ids.len(),
        ensures
            r.0 == self@.variable_ids[i as int],
            self@.variables.contains_key(r.0),
            r.1 == self@.variables[r.0],
    {
        let id = self.variable_order[i];
        assert(self@.variables.contains_key(self@.variable_ids[i as int]));
        match self.lookup_variable.get(&id) {
            Some(entry) => (id, *entry),
            None => unreached(),
        }
    }

    /// The expression that `id` stands for.
    pub fn lookup_expression(&self, id: Word) -> (r: Result<LookupExpression, Error>)
        requires
            self.wf(),
        ensures
            match r {
                Ok(entry) => lookup_in(self@.expressions, id) == Ok::<
                    LookupExpression,
                    ErrorView,
                >(entry),
                Err(e) => lookup_in(self@.expressions, id) == Err::<LookupExpression, ErrorView>(
                    e.deep_view(),
                ),
            },
    {
        match lookup(&self.lookup_expression, id) {
            Ok(entry) => Ok(*entry),
            Err(e) => Err(e),
        }
    }

    /// Lets `id` stand for the expression `entry`.
    pub(crate) fn insert_expression(&mut self, id: Word, entry: LookupExpression)
        requires
            old(self).wf(),
        ensures
            final(self).wf(),
            final(self)@ == old(self)@.with_expression(id, entry),
    {
        self.lookup_expression.insert(id, entry);
    }

    /// The sampled image that `id` stands for.
    pub fn lookup_sampled_image(&self, id: Word) -> (r: Result<LookupSampledImage, Error>)
        requires
            self.wf(),
        ensures
            match r {
                Ok(entry) => lookup_in(self@.sampled_images, id) == Ok::<
                    LookupSampledImage,
                    ErrorView,
                >(entry),
                Err(e) => lookup_in(self@.sampled_images, id) == Err::<
                    LookupSampledImage,
                    ErrorView,
                >(e.deep_view()),
            },
    {
        match lookup(&self.lookup_sampled_image, id) {
            Ok(entry) => Ok(*entry),
            Err(e) => Err(e),
        }
    }

    /// Lets `id` stand for the sampled image `entry`.
    pub(crate) fn insert_sampled_image(&mut self, id: Word, entry: LookupSampledImage)
        requires
            old(self).wf(),
        ensures
            final(self).wf(),
            final(self)@ == old(self)@.with_sampled_image(id, entry),
    {
        self.lookup_sampled_image.insert(id, entry);
    }

    /// Forgets the expressions and the sampled images of the function that
    /// was read last.
    pub(crate) fn clear_function_tables(&mut self)
        requires
            old(self).wf(),
        ensures
            final(self).wf(),
            final(self)@ == old(self)@.without_function_tables(),
    {
        self.lookup_expression.clear();
        self.lookup_sampled_image.clear();
    }

    /// The function type that `id` stands for.
    pub fn lookup_function_type(&self, id: Word) -> (r: Result<&LookupFunctionType, Error>)
        requires
            self.wf(),
        ensures
            match r {
                Ok(entry) => lookup_in(self@.function_types, id) == Ok::<
                    LookupFunctionTypeView,
                    ErrorView,
                >(entry.deep_view()),
                Err(e) => lookup_in(self@.function_types, id) == Err::<
                    LookupFunctionTypeView,
                    ErrorView,
                >(e.deep_view()),
            },
    {
        lookup(&self.lookup_function_type, id)
    }

    /// Lets `id` stand for the function type `entry`.
    pub(crate) fn insert_function_type(&mut self, id: Word, entry: LookupFunctionType)
        requires
            old(self).wf(),
        ensures
            final(self).wf(),
            final(self)@ == old(self)@.with_function_type(id, entry.deep_view()),
    {
        self.lookup_function_type.insert(id, entry);
        proof {
            assert(self@.function_types =~= old(self)@.function_types.insert(
                id,
                entry.deep_view(),
            ));
        }
    }

    /// The function that `id` stands for.
    pub fn lookup_function(&self, id: Word) -> (r: Result<Token<Function>, Error>)
        requires
            self.wf(),
        ensures
            match r {
                Ok(token) => lookup_in(self@.functions, id) == Ok::<Token<Function>, ErrorView>(
                    token,
                ),
                Err(e) => lookup_in(self@.functions, id) == Err::<Token<Function>, ErrorView>(
                    e.deep_view(),
                ),
            },
    {
        match lookup(&self.lookup_function, id) {
            Ok(token) => Ok(*token),
            Err(e) => Err(e),
        }
    }

    /// Lets `id` stand for the function `token`.
    pub(crate) fn insert_function(&mut self, id: Word, token: Token<Function>)
        requires
            old(self).wf(),
        ensures
            final(self).wf(),
            final(self)@ == old(self)@.with_function(id, token),
    {
        self.lookup_function.insert(id, token);
    }

    /// Keeps an entry point until the module is read.
    pub(crate) fn push_entry_point(&mut self, entry: RawEntryPoint)
        requires
            old(self).wf(),
        ensures
            final(self).wf(),
            final(self)@ == old(self)@.with_entry_point(entry.deep_view()),
    {
        self.entry_points.push(entry);
        proof {
            assert(self@.entry_points =~= old(self)@.entry_points.push(entry.deep_view()));
        }
    }

    /// The entry points that were read, in their order.
    pub fn entry_points(&self) -> (r: &Vec<RawEntryPoint>)
        requires
            self.wf(),
        ensures
            r.deep_view() == self@.entry_points,
    {
        &self.entry_points
    }
}

} // verus!

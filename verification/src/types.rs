//! The instructions that declare types.

use crate::decoration::{into_name, or_empty, unwrap_or_default};
use crate::error::{Error, ErrorView, Instruction, ModuleState};
use crate::ir::{
    ArraySize, ImageFlags, Module, ScalarKind, StructMember, StructMemberView, Type, TypeInner,
    TypeInnerView, VectorSize,
};
use crate::model::{decoder_of, failed, met, Decoder};
use crate::reader::{may_switch, out_of_phase};
use crate::state::{
    LookupFunctionType, LookupFunctionTypeView, LookupType, Parser, ParserView,
};
use crate::words::{Dim, StorageClass, Word};
use vstd::prelude::*;

verus! {

/// The number of components that `word` asks for, if a vector can have so many.
pub open spec fn vector_size_of(word: Word) -> Option<VectorSize> {
    match word {
        2u32 => Some(VectorSize::Bi),
        3u32 => Some(VectorSize::Tri),
        4u32 => Some(VectorSize::Quad),
        _ => None,
    }
}

/// The size of a vector of `word` components.
pub fn map_vector_size(word: Word) -> (r: Result<VectorSize, Error>)
    ensures
        match r {
            Ok(size) => vector_size_of(word) == Some(size),
            Err(e) => vector_size_of(word).is_none() && e.deep_view() == ErrorView::InvalidVectorSize(
                word,
            ),
        },
{
    match word {
        2 => Ok(VectorSize::Bi),
        3 => Ok(VectorSize::Tri),
        4 => Ok(VectorSize::Quad),
        _ => Err(Error::InvalidVectorSize(word)),
    }
}

/// The storage class that `word` stands for.
pub fn map_storage_class(word: Word) -> (r: Result<StorageClass, Error>)
    ensures
        match r {
            Ok(class) => StorageClass::of_word(word) == Some(class),
            Err(e) => StorageClass::of_word(word).is_none() && e.deep_view()
                == ErrorView::UnsupportedStorageClass(word),
        },
{
    match StorageClass::from_word(word) {
        Some(class) => Ok(class),
        None => Err(Error::UnsupportedStorageClass(word)),
    }
}

/// What an image's access qualifier and its three flag words say of it. The
/// qualifier 0 allows reading, 1 writing, 2 both; without one neither is known.
pub open spec fn image_flags(
    arrayed: Word,
    multisampled: Word,
    sampled: Word,
    access: Option<Word>,
) -> ImageFlags {
    ImageFlags {
        arrayed: arrayed != 0,
        multisampled: multisampled != 0,
        sampled: sampled != 0,
        can_load: access == Some(0u32) || access == Some(2u32),
        can_store: access == Some(1u32) || access == Some(2u32),
    }
}

/// The members of struct `id` from member `index` on, read one word each, up
/// to member `count`: each names a known type and takes along what was kept
/// for it. `done` holds the members before `index`.
pub open spec fn struct_members(
    p: ParserView,
    id: Word,
    index: nat,
    count: nat,
    done: Seq<StructMemberView>,
) -> Result<(ParserView, Seq<StructMemberView>), ErrorView>
    decreases count - index,
{
    if index >= count {
        Ok((p, done))
    } else if p.remaining() < 1 {
        Err(ErrorView::IncompleteData)
    } else if !p.types.contains_key(p.word(0)) {
        Err(ErrorView::InvalidId(p.word(0)))
    } else {
        let kept = or_empty(p.member_decor(id, index as Word));
        struct_members(
            p.advance(1).with_member_type(id, index as Word, p.word(0)).without_member_decor(
                id,
                index as Word,
            ),
            id,
            index + 1,
            count,
            done.push(
                StructMemberView {
                    name: kept.name,
                    binding: kept.binding(),
                    ty: p.types[p.word(0)].token,
                },
            ),
        )
    }
}

impl Decoder {
    /// Operand: id, which stands for the type of nothing from here on.
    pub open spec fn type_void(self, inst: Instruction) -> Result<Decoder, ErrorView> {
        let p = self.p;
        if !may_switch(p, ModuleState::Type) {
            Err(out_of_phase(p, inst.op))
        } else if inst.wc != 2 {
            Err(inst.bad_count())
        } else if p.remaining() < 1 {
            Err(ErrorView::IncompleteData)
        } else {
            Ok(self.with_p(p.with_state(ModuleState::Type).advance(1).with_void_type(p.word(0))))
        }
    }

    /// Operands: id, width, signedness (0 or 1).
    pub open spec fn type_int(self, inst: Instruction) -> Result<Decoder, ErrorView> {
        let p = self.p;
        if !may_switch(p, ModuleState::Type) {
            Err(out_of_phase(p, inst.op))
        } else if inst.wc != 4 {
            Err(inst.bad_count())
        } else if p.remaining() < 3 {
            Err(ErrorView::IncompleteData)
        } else if p.word(2) > 1 {
            Err(ErrorView::InvalidSign(p.word(2)))
        } else if p.word(1) > u8::MAX {
            Err(ErrorView::InvalidTypeWidth(p.word(1)))
        } else {
            Ok(
                self.with_p(p.with_state(ModuleState::Type).advance(3)).define_type(
                    p.word(0),
                    TypeInnerView::Scalar {
                        kind: if p.word(2) == 0 {
                            ScalarKind::Uint
                        } else {
                            ScalarKind::Sint
                        },
                        width: p.word(1) as u8,
                    },
                    None,
                ),
            )
        }
    }

    /// Operands: id, width.
    pub open spec fn type_float(self, inst: Instruction) -> Result<Decoder, ErrorView> {
        let p = self.p;
        if !may_switch(p, ModuleState::Type) {
            Err(out_of_phase(p, inst.op))
        } else if inst.wc != 3 {
            Err(inst.bad_count())
        } else if p.remaining() < 2 {
            Err(ErrorView::IncompleteData)
        } else if p.word(1) > u8::MAX {
            Err(ErrorView::InvalidTypeWidth(p.word(1)))
        } else {
            Ok(
                self.with_p(p.with_state(ModuleState::Type).advance(2)).define_type(
                    p.word(0),
                    TypeInnerView::Scalar { kind: ScalarKind::Float, width: p.word(1) as u8 },
                    None,
                ),
            )
        }
    }

    /// Operands: id, the id of a scalar type, the number of components.
    pub open spec fn type_vector(self, inst: Instruction) -> Result<Decoder, ErrorView> {
        let p = self.p;
        if !may_switch(p, ModuleState::Type) {
            Err(out_of_phase(p, inst.op))
        } else if inst.wc != 4 {
            Err(inst.bad_count())
        } else if p.remaining() < 2 {
            Err(ErrorView::IncompleteData)
        } else if !p.types.contains_key(p.word(1)) {
            Err(ErrorView::InvalidId(p.word(1)))
        } else {
            match self.type_of(p.word(1)) {
                TypeInnerView::Scalar { kind, width } => {
                    if p.remaining() < 3 {
                        Err(ErrorView::IncompleteData)
                    } else {
                        match vector_size_of(p.word(2)) {
                            Some(size) => Ok(
                                self.with_p(
                                    p.with_state(ModuleState::Type).advance(3),
                                ).define_type(
                                    p.word(0),
                                    TypeInnerView::Vector { size, kind, width },
                                    Some(p.word(1)),
                                ),
                            ),
                            None => Err(ErrorView::InvalidVectorSize(p.word(2))),
                        }
                    }
                },
                _ => Err(ErrorView::InvalidInnerType(p.word(1))),
            }
        }
    }

    /// Operands: id, the id of a vector type (the columns), the number of columns.
    pub open spec fn type_matrix(self, inst: Instruction) -> Result<Decoder, ErrorView> {
        let p = self.p;
        if !may_switch(p, ModuleState::Type) {
            Err(out_of_phase(p, inst.op))
        } else if inst.wc != 4 {
            Err(inst.bad_count())
        } else if p.remaining() < 3 {
            Err(ErrorView::IncompleteData)
        } else if !p.types.contains_key(p.word(1)) {
            Err(ErrorView::InvalidId(p.word(1)))
        } else {
            match self.type_of(p.word(1)) {
                TypeInnerView::Vector { size, kind, width } => match vector_size_of(p.word(2)) {
                    Some(columns) => Ok(
                        self.with_p(p.with_state(ModuleState::Type).advance(3)).define_type(
                            p.word(0),
                            TypeInnerView::Matrix { columns, rows: size, kind, width },
                            Some(p.word(1)),
                        ),
                    ),
                    None => Err(ErrorView::InvalidVectorSize(p.word(2))),
                },
                _ => Err(ErrorView::InvalidInnerType(p.word(1))),
            }
        }
    }

    /// Operands: id, the id of the result's type, then the ids of the
    /// parameters' types, as many as the instruction has words left for. Where
    /// the words end before that, the parameters are those that were there.
    pub open spec fn type_function(self, inst: Instruction) -> Result<Decoder, ErrorView> {
        let p = self.p;
        if !may_switch(p, ModuleState::Type) {
            Err(out_of_phase(p, inst.op))
        } else if inst.wc < 3 {
            Err(inst.bad_count())
        } else if p.remaining() < 2 {
            Err(ErrorView::IncompleteData)
        } else {
            let q = p.with_state(ModuleState::Type).advance(2);
            Ok(
                self.with_p(
                    q.advance(q.take_len(inst.wc - 3)).with_function_type(
                        p.word(0),
                        LookupFunctionTypeView {
                            parameter_type_ids: q.taken(inst.wc - 3),
                            return_type_id: p.word(1),
                        },
                    ),
                ),
            )
        }
    }

    /// Operands: id, storage class, the id of the pointee's type.
    pub open spec fn type_pointer(self, inst: Instruction) -> Result<Decoder, ErrorView> {
        let p = self.p;
        if !may_switch(p, ModuleState::Type) {
            Err(out_of_phase(p, inst.op))
        } else if inst.wc != 4 {
            Err(inst.bad_count())
        } else if p.remaining() < 3 {
            Err(ErrorView::IncompleteData)
        } else if !p.types.contains_key(p.word(2)) {
            Err(ErrorView::InvalidId(p.word(2)))
        } else {
            match StorageClass::of_word(p.word(1)) {
                Some(class) => Ok(
                    self.with_p(p.with_state(ModuleState::Type).advance(3)).define_type(
                        p.word(0),
                        TypeInnerView::Pointer { base: p.types[p.word(2)].token, class },
                        Some(p.word(2)),
                    ),
                ),
                None => Err(ErrorView::UnsupportedStorageClass(p.word(1))),
            }
        }
    }

    /// Operands: id, the id of the elements' type, the length.
    pub open spec fn type_array(self, inst: Instruction) -> Result<Decoder, ErrorView> {
        let p = self.p;
        if !may_switch(p, ModuleState::Type) {
            Err(out_of_phase(p, inst.op))
        } else if inst.wc != 4 {
            Err(inst.bad_count())
        } else if p.remaining() < 3 {
            Err(ErrorView::IncompleteData)
        } else if !p.types.contains_key(p.word(1)) {
            Err(ErrorView::InvalidId(p.word(1)))
        } else {
            Ok(
                self.with_p(p.with_state(ModuleState::Type).advance(3)).define_type(
                    p.word(0),
                    TypeInnerView::Array {
                        base: p.types[p.word(1)].token,
                        size: ArraySize::Static(p.word(2)),
                    },
                    Some(p.word(1)),
                ),
            )
        }
    }

    /// Operands: id, the id of the elements' type. The instruction must span
    /// four words, of which the last is left unread.
    pub open spec fn type_runtime_array(self, inst: Instruction) -> Result<Decoder, ErrorView> {
        let p = self.p;
        if !may_switch(p, ModuleState::Type) {
            Err(out_of_phase(p, inst.op))
        } else if inst.wc != 4 {
            Err(inst.bad_count())
        } else if p.remaining() < 2 {
            Err(ErrorView::IncompleteData)
        } else if !p.types.contains_key(p.word(1)) {
            Err(ErrorView::InvalidId(p.word(1)))
        } else {
            Ok(
                self.with_p(p.with_state(ModuleState::Type).advance(2)).define_type(
                    p.word(0),
                    TypeInnerView::Array {
                        base: p.types[p.word(1)].token,
                        size: ArraySize::Dynamic,
                    },
                    Some(p.word(1)),
                ),
            )
        }
    }

    /// Operands: id, then the id of each member's type.
    pub open spec fn type_struct(self, inst: Instruction) -> Result<Decoder, ErrorView> {
        let p = self.p;
        if !may_switch(p, ModuleState::Type) {
            Err(out_of_phase(p, inst.op))
        } else if inst.wc < 2 {
            Err(inst.bad_count())
        } else if p.remaining() < 1 {
            Err(ErrorView::IncompleteData)
        } else {
            match struct_members(
                p.with_state(ModuleState::Type).advance(1),
                p.word(0),
                0,
                (inst.wc - 2) as nat,
                Seq::empty(),
            ) {
                Ok((q, members)) => Ok(
                    self.with_p(q).define_type(
                        p.word(0),
                        TypeInnerView::Struct { members },
                        None,
                    ),
                ),
                Err(e) => Err(e),
            }
        }
    }

    /// Operands: id, the id of the sampled type, dimensionality, depth,
    /// arrayed, multisampled, sampled, format, and then an access qualifier
    /// or nothing.
    pub open spec fn type_image(self, inst: Instruction) -> Result<Decoder, ErrorView> {
        let p = self.p;
        if !may_switch(p, ModuleState::Type) {
            Err(out_of_phase(p, inst.op))
        } else if inst.wc < 9 {
            Err(inst.bad_count())
        } else if p.remaining() < 8 {
            Err(ErrorView::IncompleteData)
        } else if inst.wc > 10 {
            Err(inst.bad_count())
        } else if inst.wc == 10 && p.remaining() < 9 {
            Err(ErrorView::IncompleteData)
        } else if !p.types.contains_key(p.word(1)) {
            Err(ErrorView::InvalidId(p.word(1)))
        } else {
            match Dim::of_word(p.word(2)) {
                Some(dim) => Ok(
                    self.with_p(p.with_state(ModuleState::Type).advance(inst.wc - 1)).define_type(
                        p.word(0),
                        TypeInnerView::Image {
                            base: p.types[p.word(1)].token,
                            dim,
                            flags: image_flags(
                                p.word(4),
                                p.word(5),
                                p.word(6),
                                if inst.wc == 10 {
                                    Some(p.word(8))
                                } else {
                                    None
                                },
                            ),
                        },
                        Some(p.word(1)),
                    ),
                ),
                None => Err(ErrorView::UnsupportedDim(p.word(2))),
            }
        }
    }

    /// Operands: id, the id of an image type. The id stands for the image's
    /// own type from here on.
    pub open spec fn type_sampled_image(self, inst: Instruction) -> Result<Decoder, ErrorView> {
        let p = self.p;
        if !may_switch(p, ModuleState::Type) {
            Err(out_of_phase(p, inst.op))
        } else if inst.wc != 3 {
            Err(inst.bad_count())
        } else if p.remaining() < 2 {
            Err(ErrorView::IncompleteData)
        } else if !p.types.contains_key(p.word(1)) {
            Err(ErrorView::InvalidId(p.word(1)))
        } else {
            Ok(
                self.with_p(
                    p.with_state(ModuleState::Type).advance(2).with_type(
                        p.word(0),
                        LookupType { token: p.types[p.word(1)].token, base_id: Some(p.word(1)) },
                    ),
                ),
            )
        }
    }

    /// Operand: id.
    pub open spec fn type_sampler(self, inst: Instruction) -> Result<Decoder, ErrorView> {
        let p = self.p;
        if !may_switch(p, ModuleState::Type) {
            Err(out_of_phase(p, inst.op))
        } else if inst.wc != 2 {
            Err(inst.bad_count())
        } else if p.remaining() < 1 {
            Err(ErrorView::IncompleteData)
        } else {
            Ok(
                self.with_p(p.with_state(ModuleState::Type).advance(1)).define_type(
                    p.word(0),
                    TypeInnerView::Sampler,
                    None,
                ),
            )
        }
    }
}

impl Parser {
    /// Appends a type to the module under the name that was kept for `id`,
    /// and lets `id` stand for it.
    pub fn define_type(
        &mut self,
        module: &mut Module,
        id: Word,
        inner: TypeInner,
        base_id: Option<Word>,
    )
        requires
            old(self).wf(),
            decoder_of(old(self), old(module)).coherent(),
            may_switch(old(self)@, ModuleState::Type),
            inner.deep_view().built_on_first(old(module).deep_view().types.len() as int),
        ensures
            final(self).wf(),
            decoder_of(final(self), final(module)) == decoder_of(old(self), old(module)).define_type(
                id,
                inner.deep_view(),
                base_id,
            ),
            decoder_of(final(self), final(module)).coherent(),
    {
        let name = into_name(self.take_decoration(id));
        let token = module.types.append(Type { name, inner });
        self.insert_type(id, LookupType { token, base_id });
    }

    /// Carries out the instruction `inst`, whose header was read, as `Decoder::type_void`
    /// says.
    pub fn type_void(&mut self, module: &mut Module, inst: Instruction) -> (r: Result<(), Error>)
        requires
            old(self).wf(),
            decoder_of(old(self), old(module)).coherent(),
        ensures
            final(self).wf(),
            r is Err ==> failed(
                decoder_of(old(self), old(module)),
                decoder_of(final(self), final(module)),
            ),
            met(
                r,
                decoder_of(final(self), final(module)),
                decoder_of(old(self), old(module)).type_void(inst),
            ),
    {
        self.switch(ModuleState::Type, inst.op)?;
        inst.expect(2)?;
        let id = self.next()?;
        self.insert_void_type(id);
        Ok(())
    }

    /// Carries out the instruction `inst`, whose header was read, as `Decoder::type_int`
    /// says.
    pub fn type_int(&mut self, module: &mut Module, inst: Instruction) -> (r: Result<(), Error>)
        requires
            old(self).wf(),
            decoder_of(old(self), old(module)).coherent(),
        ensures
            final(self).wf(),
            r is Err ==> failed(
                decoder_of(old(self), old(module)),
                decoder_of(final(self), final(module)),
            ),
            met(
                r,
                decoder_of(final(self), final(module)),
                decoder_of(old(self), old(module)).type_int(inst),
            ),
    {
        self.switch(ModuleState::Type, inst.op)?;
        inst.expect(4)?;
        let id = self.next()?;
        let width = self.next()?;
        let sign = self.next()?;
        let kind = match sign {
            0 => ScalarKind::Uint,
            1 => ScalarKind::Sint,
            _ => {
                return Err(Error::InvalidSign(sign));
            },
        };
        if width > 255 {
            return Err(Error::InvalidTypeWidth(width));
        }
        self.define_type(module, id, TypeInner::Scalar { kind, width: width as u8 }, None);
        Ok(())
    }

    /// Carries out the instruction `inst`, whose header was read, as `Decoder::type_float`
    /// says.
    pub fn type_float(&mut self, module: &mut Module, inst: Instruction) -> (r: Result<(), Error>)
        requires
            old(self).wf(),
            decoder_of(old(self), old(module)).coherent(),
        ensures
            final(self).wf(),
            r is Err ==> failed(
                decoder_of(old(self), old(module)),
                decoder_of(final(self), final(module)),
            ),
            met(
                r,
                decoder_of(final(self), final(module)),
                decoder_of(old(self), old(module)).type_float(inst),
            ),
    {
        self.switch(ModuleState::Type, inst.op)?;
        inst.expect(3)?;
        let id = self.next()?;
        let width = self.next()?;
        if width > 255 {
            return Err(Error::InvalidTypeWidth(width));
        }
        self.define_type(
            module,
            id,
            TypeInner::Scalar { kind: ScalarKind::Float, width: width as u8 },
            None,
        );
        Ok(())
    }

    /// Carries out the instruction `inst`, whose header was read, as `Decoder::type_vector`
    /// says.
    pub fn type_vector(&mut self, module: &mut Module, inst: Instruction) -> (r: Result<(), Error>)
        requires
            old(self).wf(),
            decoder_of(old(self), old(module)).coherent(),
        ensures
            final(self).wf(),
            r is Err ==> failed(
                decoder_of(old(self), old(module)),
                decoder_of(final(self), final(module)),
            ),
            met(
                r,
                decoder_of(final(self), final(module)),
                decoder_of(old(self), old(module)).type_vector(inst),
            ),
    {
        self.switch(ModuleState::Type, inst.op)?;
        inst.expect(4)?;
        let id = self.next()?;
        let type_id = self.next()?;
        let type_lookup = self.lookup_type(type_id)?;
        let (kind, width) = match module.types.get(type_lookup.token).inner {
            TypeInner::Scalar { kind, width } => (kind, width),
            _ => {
                return Err(Error::InvalidInnerType(type_id));
            },
        };
        let component_count = self.next()?;
        let size = map_vector_size(component_count)?;
        self.define_type(module, id, TypeInner::Vector { size, kind, width }, Some(type_id));
        Ok(())
    }

    /// Carries out the instruction `inst`, whose header was read, as `Decoder::type_matrix`
    /// says.
    pub fn type_matrix(&mut self, module: &mut Module, inst: Instruction) -> (r: Result<(), Error>)
        requires
            old(self).wf(),
            decoder_of(old(self), old(module)).coherent(),
        ensures
            final(self).wf(),
            r is Err ==> failed(
                decoder_of(old(self), old(module)),
                decoder_of(final(self), final(module)),
            ),
            met(
                r,
                decoder_of(final(self), final(module)),
                decoder_of(old(self), old(module)).type_matrix(inst),
            ),
    {
        self.switch(ModuleState::Type, inst.op)?;
        inst.expect(4)?;
        let id = self.next()?;
        let vector_type_id = self.next()?;
        let num_columns = self.next()?;
        let vector_type_lookup = self.lookup_type(vector_type_id)?;
        let inner = match module.types.get(vector_type_lookup.token).inner {
            TypeInner::Vector { size, kind, width } => TypeInner::Matrix {
                columns: map_vector_size(num_columns)?,
                rows: size,
                kind,
                width,
            },
            _ => {
                return Err(Error::InvalidInnerType(vector_type_id));
            },
        };
        self.define_type(module, id, inner, Some(vector_type_id));
        Ok(())
    }

    /// Carries out the instruction `inst`, whose header was read, as `Decoder::type_function`
    /// says.
    pub fn type_function(&mut self, module: &mut Module, inst: Instruction) -> (r: Result<
        (),
        Error,
    >)
        requires
            old(self).wf(),
            decoder_of(old(self), old(module)).coherent(),
        ensures
            final(self).wf(),
            r is Err ==> failed(
                decoder_of(old(self), old(module)),
                decoder_of(final(self), final(module)),
            ),
            met(
                r,
                decoder_of(final(self), final(module)),
                decoder_of(old(self), old(module)).type_function(inst),
            ),
    {
        self.switch(ModuleState::Type, inst.op)?;
        inst.expect_at_least(3)?;
        let id = self.next()?;
        let return_type_id = self.next()?;
        let parameter_type_ids = self.take((inst.wc - 3) as usize);
        self.insert_function_type(id, LookupFunctionType { parameter_type_ids, return_type_id });
        Ok(())
    }

    /// Carries out the instruction `inst`, whose header was read, as `Decoder::type_pointer`
    /// says.
    pub fn type_pointer(&mut self, module: &mut Module, inst: Instruction) -> (r: Result<
        (),
        Error,
    >)
        requires
            old(self).wf(),
            decoder_of(old(self), old(module)).coherent(),
        ensures
            final(self).wf(),
            r is Err ==> failed(
                decoder_of(old(self), old(module)),
                decoder_of(final(self), final(module)),
            ),
            met(
                r,
                decoder_of(final(self), final(module)),
                decoder_of(old(self), old(module)).type_pointer(inst),
            ),
    {
        self.switch(ModuleState::Type, inst.op)?;
        inst.expect(4)?;
        let id = self.next()?;
        let storage = self.next()?;
        let type_id = self.next()?;
        let base = self.lookup_type(type_id)?.token;
        let class = map_storage_class(storage)?;
        self.define_type(module, id, TypeInner::Pointer { base, class }, Some(type_id));
        Ok(())
    }

    /// Carries out the instruction `inst`, whose header was read, as `Decoder::type_array`
    /// says.
    pub fn type_array(&mut self, module: &mut Module, inst: Instruction) -> (r: Result<(), Error>)
        requires
            old(self).wf(),
            decoder_of(old(self), old(module)).coherent(),
        ensures
            final(self).wf(),
            r is Err ==> failed(
                decoder_of(old(self), old(module)),
                decoder_of(final(self), final(module)),
            ),
            met(
                r,
                decoder_of(final(self), final(module)),
                decoder_of(old(self), old(module)).type_array(inst),
            ),
    {
        self.switch(ModuleState::Type, inst.op)?;
        inst.expect(4)?;
        let id = self.next()?;
        let type_id = self.next()?;
        let length = self.next()?;
        let base = self.lookup_type(type_id)?.token;
        self.define_type(
            module,
            id,
            TypeInner::Array { base, size: ArraySize::Static(length) },
            Some(type_id),
        );
        Ok(())
    }

    /// Carries out the instruction `inst`, whose header was read, as `Decoder::type_runtime_array`
    /// says.
    pub fn type_runtime_array(&mut self, module: &mut Module, inst: Instruction) -> (r: Result<
        (),
        Error,
    >)
        requires
            old(self).wf(),
            decoder_of(old(self), old(module)).coherent(),
        ensures
            final(self).wf(),
            r is Err ==> failed(
                decoder_of(old(self), old(module)),
                decoder_of(final(self), final(module)),
            ),
            met(
                r,
                decoder_of(final(self), final(module)),
                decoder_of(old(self), old(module)).type_runtime_array(inst),
            ),
    {
        self.switch(ModuleState::Type, inst.op)?;
        inst.expect(4)?;
        let id = self.next()?;
        let type_id = self.next()?;
        let base = self.lookup_type(type_id)?.token;
        self.define_type(
            module,
            id,
            TypeInner::Array { base, size: ArraySize::Dynamic },
            Some(type_id),
        );
        Ok(())
    }

    /// Carries out the instruction `inst`, whose header was read, as `Decoder::type_struct`
    /// says.
    #[verifier::loop_isolation(false)]
    pub fn type_struct(&mut self, module: &mut Module, inst: Instruction) -> (r: Result<(), Error>)
        requires
            old(self).wf(),
            decoder_of(old(self), old(module)).coherent(),
        ensures
            final(self).wf(),
            r is Err ==> failed(
                decoder_of(old(self), old(module)),
                decoder_of(final(self), final(module)),
            ),
            met(
                r,
                decoder_of(final(self), final(module)),
                decoder_of(old(self), old(module)).type_struct(inst),
            ),
    {
        self.switch(ModuleState::Type, inst.op)?;
        inst.expect_at_least(2)?;
        let id = self.next()?;
        let count: u32 = inst.wc as u32 - 2;
        let mut members: Vec<StructMember> = Vec::new();
        let ghost start = self@;
        assert(members.deep_view() =~= Seq::<StructMemberView>::empty());
        let mut i: u32 = 0;
        while i < count
            invariant
                i <= count,
                self.wf(),
                decoder_of(self, module).coherent(),
                *module == *old(module),
                self@.state == ModuleState::Type,
                self@.words == old(self)@.words,
                self@.pos >= old(self)@.pos,
                forall|k: int|
                    0 <= k < members.deep_view().len() ==> (#[trigger] members.deep_view()[k]).ty.index
                        < module.deep_view().types.len(),
                struct_members(start, id, 0, count as nat, Seq::empty()) == struct_members(
                    self@,
                    id,
                    i as nat,
                    count as nat,
                    members.deep_view(),
                ),
            decreases count - i,
        {
            let ghost done = members.deep_view();
            let type_id = self.next()?;
            let ty = self.lookup_type(type_id)?.token;
            self.insert_member_type_id(id, i, type_id);
            let decor = unwrap_or_default(self.take_member_decoration(id, i));
            let binding = decor.get_binding();
            let member = StructMember { name: decor.name, binding, ty };
            members.push(member);
            proof {
                assert(members.deep_view() =~= done.push(member.deep_view()));
            }
            i = i + 1;
        }
        self.define_type(module, id, TypeInner::Struct { members }, None);
        Ok(())
    }

    /// Carries out the instruction `inst`, whose header was read, as `Decoder::type_image`
    /// says.
    pub fn type_image(&mut self, module: &mut Module, inst: Instruction) -> (r: Result<(), Error>)
        requires
            old(self).wf(),
            decoder_of(old(self), old(module)).coherent(),
        ensures
            final(self).wf(),
            r is Err ==> failed(
                decoder_of(old(self), old(module)),
                decoder_of(final(self), final(module)),
            ),
            met(
                r,
                decoder_of(final(self), final(module)),
                decoder_of(old(self), old(module)).type_image(inst),
            ),
    {
        self.switch(ModuleState::Type, inst.op)?;
        inst.expect_at_least(9)?;
        let id = self.next()?;
        let sample_type_id = self.next()?;
        let dim_word = self.next()?;
        let _is_depth = self.next()?;
        let arrayed = self.next()? != 0;
        let multisampled = self.next()? != 0;
        let sampled = self.next()? != 0;
        let _format = self.next()?;
        let mut can_load = false;
        let mut can_store = false;
        if inst.wc > 9 {
            inst.expect(10)?;
            let access = self.next()?;
            can_load = access == 0 || access == 2;
            can_store = access == 1 || access == 2;
        }
        let base = self.lookup_type(sample_type_id)?.token;
        let dim = match Dim::from_word(dim_word) {
            Some(dim) => dim,
            None => {
                return Err(Error::UnsupportedDim(dim_word));
            },
        };
        let flags = ImageFlags { arrayed, multisampled, sampled, can_load, can_store };
        self.define_type(module, id, TypeInner::Image { base, dim, flags }, Some(sample_type_id));
        Ok(())
    }

    /// Carries out the instruction `inst`, whose header was read, as `Decoder::type_sampled_image`
    /// says.
    pub fn type_sampled_image(&mut self, module: &mut Module, inst: Instruction) -> (r: Result<
        (),
        Error,
    >)
        requires
            old(self).wf(),
            decoder_of(old(self), old(module)).coherent(),
        ensures
            final(self).wf(),
            r is Err ==> failed(
                decoder_of(old(self), old(module)),
                decoder_of(final(self), final(module)),
            ),
            met(
                r,
                decoder_of(final(self), final(module)),
                decoder_of(old(self), old(module)).type_sampled_image(inst),
            ),
    {
        self.switch(ModuleState::Type, inst.op)?;
        inst.expect(3)?;
        let id = self.next()?;
        let image_id = self.next()?;
        let token = self.lookup_type(image_id)?.token;
        self.insert_type(id, LookupType { token, base_id: Some(image_id) });
        Ok(())
    }

    /// Carries out the instruction `inst`, whose header was read, as `Decoder::type_sampler`
    /// says.
    pub fn type_sampler(&mut self, module: &mut Module, inst: Instruction) -> (r: Result<
        (),
        Error,
    >)
        requires
            old(self).wf(),
            decoder_of(old(self), old(module)).coherent(),
        ensures
            final(self).wf(),
            r is Err ==> failed(
                decoder_of(old(self), old(module)),
                decoder_of(final(self), final(module)),
            ),
            met(
                r,
                decoder_of(final(self), final(module)),
                decoder_of(old(self), old(module)).type_sampler(inst),
            ),
    {
        self.switch(ModuleState::Type, inst.op)?;
        inst.expect(2)?;
        let id = self.next()?;
        self.define_type(module, id, TypeInner::Sampler, None);
        Ok(())
    }
}

} // verus!

//! Constants and global variables: how the words of a literal become a
//! value, and how a variable comes by its binding.

use crate::decoration::{into_name, or_empty, unwrap_or_default, DecorationView};
use crate::error::{Error, ErrorView, Instruction, ModuleState};
use crate::ir::{
    Binding, Constant, ConstantInner, GlobalVariable, GlobalVariableView, Module, ScalarKind,
    StructMember, StructMemberView, Token, Type, TypeInner, TypeInnerView, TypeView,
};
use crate::model::{decoder_of, failed, met, Decoder};
use crate::reader::{word_span, may_switch, out_of_phase};
use crate::state::{LookupConstant, LookupVariable, Parser, ParserView};
use crate::types::map_storage_class;
use crate::words::{StorageClass, Word};
use vstd::arithmetic::power2::{
    lemma2_to64, lemma_pow2_strictly_increases, lemma_pow2_unfold, pow2,
};
use vstd::prelude::*;

verus! {

/// The 64-bit pattern whose lower half is `low` and whose upper half is `high`.
pub open spec fn joined(low: Word, high: Word) -> u64 {
    (high * 0x1_0000_0000 + low) as u64
}

/// The number that a 32-bit pattern stands for in two's complement.
pub open spec fn signed_32(bits: Word) -> i64 {
    if bits < 0x8000_0000 {
        bits as i64
    } else {
        (bits - 0x1_0000_0000) as i64
    }
}

/// The number that a 64-bit pattern stands for in two's complement.
pub open spec fn signed_64(bits: u64) -> i64 {
    if bits < 0x8000_0000_0000_0000 {
        bits as i64
    } else {
        (bits - 0x1_0000_0000_0000_0000) as i64
    }
}

/// The lower 32 bits of a number in two's complement.
pub open spec fn low_word(value: int) -> Word {
    (value % 0x1_0000_0000) as Word
}

/// A fraction of a single-precision number without its leading bit is
/// doubled until that bit, the one of weight 2^23, is set. The result is the
/// exponent, lowered by one for each doubling, and the fraction below that bit.
pub open spec fn normalized(exponent: int, fraction: int) -> (int, int)
    decreases 0x100_0000 - fraction,
{
    if 0 < fraction < 0x80_0000 {
        normalized(exponent - 1, fraction * 2)
    } else {
        (exponent, fraction - 0x80_0000)
    }
}

/// The exponent field and the fraction field of the double-precision number
/// that equals the single-precision number with the fields `exponent` and
/// `fraction`. An infinity stays one; a NaN stays one, and comes out quiet.
pub open spec fn widened_fields(exponent: int, fraction: int) -> (int, int) {
    if exponent == 0 {
        if fraction == 0 {
            (0, 0)
        } else {
            let (e, f) = normalized(897, fraction);
            (e, f * 0x2000_0000)
        }
    } else if exponent == 0xff {
        if fraction == 0 {
            (0x7ff, 0)
        } else {
            (0x7ff, (fraction % 0x40_0000 + 0x40_0000) * 0x2000_0000)
        }
    } else {
        (exponent + 896, fraction * 0x2000_0000)
    }
}

/// The bits of the double-precision number that has the value of the
/// single-precision number with the bits `bits`.
pub open spec fn widened(bits: Word) -> u64 {
    let sign = bits / 0x8000_0000;
    let (exponent, fraction) = widened_fields(
        (bits / 0x80_0000 % 0x100) as int,
        (bits % 0x80_0000) as int,
    );
    (sign * 0x8000_0000_0000_0000 + exponent * 0x10_0000_0000_0000 + fraction) as u64
}

/// The size of the finite single-precision number with the bits `bits`, in
/// units of 2^-149, the size of the smallest.
pub open spec fn single_size(bits: Word) -> int {
    let exponent = bits / 0x80_0000 % 0x100;
    let fraction = bits % 0x80_0000;
    if exponent == 0 {
        fraction as int
    } else {
        (0x80_0000 + fraction) * pow2((exponent - 1) as nat)
    }
}

/// The size of the finite double-precision number with the bits `bits`, in
/// units of 2^-1074, the size of the smallest.
pub open spec fn double_size(bits: u64) -> int {
    let exponent = bits / 0x10_0000_0000_0000 % 0x800;
    let fraction = bits % 0x10_0000_0000_0000;
    if exponent == 0 {
        fraction as int
    } else {
        (0x10_0000_0000_0000 + fraction) * pow2((exponent - 1) as nat)
    }
}

/// The value of a constant of at most 32 bits from its one word.
pub open spec fn narrow_value(kind: ScalarKind, low: Word) -> ConstantInner {
    match kind {
        ScalarKind::Uint => ConstantInner::Uint(low as u64),
        ScalarKind::Sint => ConstantInner::Sint(signed_32(low)),
        ScalarKind::Float => ConstantInner::Float(widened(low)),
    }
}

/// The value of a constant of more than 32 bits from its two words, the lower first.
pub open spec fn wide_value(kind: ScalarKind, low: Word, high: Word) -> ConstantInner {
    match kind {
        ScalarKind::Uint => ConstantInner::Uint(joined(low, high)),
        ScalarKind::Sint => ConstantInner::Sint(signed_64(joined(low, high))),
        ScalarKind::Float => ConstantInner::Float(joined(low, high)),
    }
}

/// The literal of a constant whose type has the given kind and width, with
/// the number of words that it takes. A signed or a floating-point constant
/// needs 32 bits at least; one of more than 32 bits has two words, in an
/// instruction of four.
pub open spec fn literal_at(p: ParserView, inst: Instruction, kind: ScalarKind, width: u8) -> Result<
    (ConstantInner, int),
    ErrorView,
> {
    if p.remaining() < 1 {
        Err(ErrorView::IncompleteData)
    } else if kind != ScalarKind::Uint && width < 32 {
        Err(ErrorView::InvalidTypeWidth(width as Word))
    } else if width > 32 {
        if inst.wc != 4 {
            Err(inst.bad_count())
        } else if p.remaining() < 2 {
            Err(ErrorView::IncompleteData)
        } else {
            Ok((wide_value(kind, p.word(0), p.word(1)), 2))
        }
    } else {
        Ok((narrow_value(kind, p.word(0)), 1))
    }
}

/// Every member has a binding.
pub open spec fn all_bound(members: Seq<StructMemberView>) -> bool {
    forall|i: int| 0 <= i < members.len() ==> (#[trigger] members[i]).binding.is_some()
}

/// The binding of a variable of type `ty` (a handle of `types`) for which
/// `record` was kept: `None` where it needs none, an error where it lacks the
/// one that it needs. A pointer to a struct in the input or the output class
/// needs none of its own, but each member of the struct needs one.
pub open spec fn binding_for(
    types: Seq<TypeView>,
    ty: Token<Type>,
    record: DecorationView,
) -> Result<Option<Binding>, ()> {
    let own = match record.binding() {
        Some(binding) => Ok(Some(binding)),
        None => Err(()),
    };
    match types[ty.index as int].inner {
        TypeInnerView::Pointer { base, class } => if class == StorageClass::Input || class
            == StorageClass::Output {
            match types[base.index as int].inner {
                TypeInnerView::Struct { members } => if all_bound(members) {
                    Ok(None)
                } else {
                    Err(())
                },
                _ => own,
            }
        } else {
            own
        },
        _ => own,
    }
}

impl Decoder {
    /// Operands: the id of the type, id, the literal.
    pub open spec fn constant(self, inst: Instruction) -> Result<Decoder, ErrorView> {
        let p = self.p;
        if !may_switch(p, ModuleState::Type) {
            Err(out_of_phase(p, inst.op))
        } else if inst.wc < 3 {
            Err(inst.bad_count())
        } else if p.remaining() < 2 {
            Err(ErrorView::IncompleteData)
        } else if !p.types.contains_key(p.word(0)) {
            Err(ErrorView::InvalidId(p.word(0)))
        } else {
            match self.type_of(p.word(0)) {
                TypeInnerView::Scalar { kind, width } => match literal_at(
                    p.advance(2),
                    inst,
                    kind,
                    width,
                ) {
                    Ok((value, used)) => Ok(
                        self.with_p(
                            p.with_state(ModuleState::Type).advance(2 + used),
                        ).define_constant(p.word(1), p.word(0), value),
                    ),
                    Err(e) => Err(e),
                },
                _ => Err(ErrorView::UnsupportedType(p.types[p.word(0)].token)),
            }
        }
    }

    /// Operands: the id of the type, id, storage class, and then an
    /// initializer or nothing. Where nothing was kept for the id, the empty
    /// record stands for it.
    pub open spec fn variable(self, inst: Instruction) -> Result<Decoder, ErrorView> {
        let p = self.p;
        if !may_switch(p, ModuleState::Type) {
            Err(out_of_phase(p, inst.op))
        } else if inst.wc < 4 {
            Err(inst.bad_count())
        } else if p.remaining() < 3 {
            Err(ErrorView::IncompleteData)
        } else if inst.wc > 5 {
            Err(inst.bad_count())
        } else if p.remaining() < inst.wc - 1 {
            Err(ErrorView::IncompleteData)
        } else if !p.types.contains_key(p.word(0)) {
            Err(ErrorView::InvalidId(p.word(0)))
        } else {
            let record = or_empty(p.decor(p.word(1)));
            match binding_for(self.m.types, p.types[p.word(0)].token, record) {
                Err(_) => Err(ErrorView::InvalidBinding(p.word(1))),
                Ok(binding) => match StorageClass::of_word(p.word(2)) {
                    None => Err(ErrorView::UnsupportedStorageClass(p.word(2))),
                    Some(class) => Ok(
                        self.with_p(
                            p.with_state(ModuleState::Type).advance(inst.wc - 1).without_decor(
                                p.word(1),
                            ),
                        ).define_variable(
                            p.word(1),
                            p.word(0),
                            GlobalVariableView {
                                name: record.name,
                                class,
                                binding,
                                ty: p.types[p.word(0)].token,
                            },
                        ),
                    ),
                },
            }
        }
    }
}

/// Joins the two words of a wide literal, the lower first.
pub fn join_words(low: Word, high: Word) -> (bits: u64)
    ensures
        bits == joined(low, high),
{
    high as u64 * 0x1_0000_0000 + low as u64
}

/// Reads a 32-bit pattern as a number in two's complement.
pub fn to_signed_32(bits: Word) -> (value: i64)
    ensures
        value == signed_32(bits),
{
    if bits < 0x8000_0000 {
        bits as i64
    } else {
        bits as i64 - 0x1_0000_0000
    }
}

/// Reads a 64-bit pattern as a number in two's complement.
pub fn to_signed_64(bits: u64) -> (value: i64)
    ensures
        value == signed_64(bits),
{
    if bits < 0x8000_0000_0000_0000 {
        bits as i64
    } else {
        (bits - 0x8000_0000_0000_0000) as i64 - 0x4000_0000_0000_0000 - 0x4000_0000_0000_0000
    }
}

/// The lower 32 bits of an unsigned value.
pub fn low_word_of_unsigned(value: u64) -> (word: Word)
    ensures
        word == low_word(value as int),
{
    (value % 0x1_0000_0000) as Word
}

/// The lower 32 bits of a signed value in two's complement.
pub fn low_word_of_signed(value: i64) -> (word: Word)
    ensures
        word == low_word(value as int),
{
    if value >= 0 {
        (value as u64 % 0x1_0000_0000) as Word
    } else {
        let shifted: u64 = (value + 0x4000_0000_0000_0000 + 0x4000_0000_0000_0000) as u64;
        (shifted % 0x1_0000_0000) as Word
    }
}

/// Widens the bits of a single-precision number to those of the
/// double-precision number of the same value.
pub fn widen(bits: Word) -> (wide: u64)
    ensures
        wide == widened(bits),
{
    let sign: u64 = (bits / 0x8000_0000) as u64;
    let exponent: u64 = (bits / 0x80_0000 % 0x100) as u64;
    let fraction: u64 = (bits % 0x80_0000) as u64;
    let mut e: u64 = 0;
    let mut f: u64 = 0;
    if exponent == 0 {
        if fraction != 0 {
            e = 897;
            f = fraction;
            proof {
                lemma2_to64();
            }
            while f < 0x80_0000
                invariant
                    0 < f < 0x100_0000,
                    e <= 897,
                    f >= pow2((897 - e) as nat),
                    normalized(897, fraction as int) == normalized(e as int, f as int),
                decreases 0x100_0000 - f,
            {
                proof {
                    lemma2_to64();
                    if e <= 874 {
                        if 897 - e > 23 {
                            lemma_pow2_strictly_increases(23, (897 - e) as nat);
                        }
                        assert(false);
                    }
                    lemma_pow2_unfold((897 - e + 1) as nat);
                }
                e = e - 1;
                f = f * 2;
            }
            proof {
                lemma2_to64();
                if e < 874 {
                    lemma_pow2_strictly_increases(24, (897 - e) as nat);
                }
            }
            f = (f - 0x80_0000) * 0x2000_0000;
        }
    } else if exponent == 0xff {
        e = 0x7ff;
        if fraction != 0 {
            f = (fraction % 0x40_0000 + 0x40_0000) * 0x2000_0000;
        }
    } else {
        e = exponent + 896;
        f = fraction * 0x2000_0000;
    }
    sign * 0x8000_0000_0000_0000 + e * 0x10_0000_0000_0000 + f
}

fn every_member_bound(members: &Vec<StructMember>) -> (r: bool)
    ensures
        r == all_bound(members.deep_view()),
{
    let mut i: usize = 0;
    while i < members.len()
        invariant
            i <= members.len(),
            forall|j: int| 0 <= j < i ==> (#[trigger] members.deep_view()[j]).binding.is_some(),
        decreases members.len() - i,
    {
        if members[i].binding.is_none() {
            assert(members.deep_view()[i as int].binding.is_none());
            return false;
        }
        i = i + 1;
    }
    true
}

impl Parser {
    /// Reads the literal of a constant whose type has the given kind and
    /// width. Where it fails, the first word is read if there is one, and no
    /// other.
    pub fn next_literal(&mut self, inst: Instruction, kind: ScalarKind, width: u8) -> (r: Result<
        ConstantInner,
        Error,
    >)
        requires
            old(self).wf(),
        ensures
            final(self).wf(),
            r is Err ==> final(self)@ == old(self)@.advance(word_span(old(self)@)),
            match literal_at(old(self)@, inst, kind, width) {
                Ok((value, used)) => r == Ok::<ConstantInner, Error>(value) && final(self)@ == old(
                    self,
                )@.advance(used),
                Err(e) => r matches Err(x) && x.deep_view() == e,
            },
    {
        let low = self.next()?;
        match kind {
            ScalarKind::Uint => {},
            _ => {
                if width < 32 {
                    return Err(Error::InvalidTypeWidth(width as Word));
                }
            },
        }
        if width > 32 {
            inst.expect(4)?;
            let high = self.next()?;
            let bits = join_words(low, high);
            Ok(
                match kind {
                    ScalarKind::Uint => ConstantInner::Uint(bits),
                    ScalarKind::Sint => ConstantInner::Sint(to_signed_64(bits)),
                    ScalarKind::Float => ConstantInner::Float(bits),
                },
            )
        } else {
            Ok(
                match kind {
                    ScalarKind::Uint => ConstantInner::Uint(low as u64),
                    ScalarKind::Sint => ConstantInner::Sint(to_signed_32(low)),
                    ScalarKind::Float => ConstantInner::Float(widen(low)),
                },
            )
        }
    }

    /// Carries out the instruction `inst`, whose header was read, as `Decoder::constant`
    /// says.
    pub fn constant(&mut self, module: &mut Module, inst: Instruction) -> (r: Result<(), Error>)
        requires
            old(self).wf(),
            decoder_of(old(self), old(module)).coherent(),
        ensures
            final(self).wf(),
            r is Err ==> failed(
                decoder_of(old(self), old(module)),
                decoder_of(final(self), final(module)),
            ),
            met(
                r,
                decoder_of(final(self), final(module)),
                decoder_of(old(self), old(module)).constant(inst),
            ),
    {
        self.switch(ModuleState::Type, inst.op)?;
        inst.expect_at_least(3)?;
        let type_id = self.next()?;
        let id = self.next()?;
        let type_lookup = self.lookup_type(type_id)?;
        let (kind, width) = match module.types.get(type_lookup.token).inner {
            TypeInner::Scalar { kind, width } => (kind, width),
            _ => {
                return Err(Error::UnsupportedType(type_lookup.token));
            },
        };
        let inner = self.next_literal(inst, kind, width)?;
        let name = into_name(self.take_decoration(id));
        let token = module.constants.append(Constant { name, specialization: None, inner });
        self.insert_constant(id, LookupConstant { token, type_id });
        Ok(())
    }

    /// Carries out the instruction `inst`, whose header was read, as `Decoder::variable`
    /// says.
    pub fn variable(&mut self, module: &mut Module, inst: Instruction) -> (r: Result<(), Error>)
        requires
            old(self).wf(),
            decoder_of(old(self), old(module)).coherent(),
        ensures
            final(self).wf(),
            r is Err ==> failed(
                decoder_of(old(self), old(module)),
                decoder_of(final(self), final(module)),
            ),
            met(
                r,
                decoder_of(final(self), final(module)),
                decoder_of(old(self), old(module)).variable(inst),
            ),
    {
        self.switch(ModuleState::Type, inst.op)?;
        inst.expect_at_least(4)?;
        let type_id = self.next()?;
        let id = self.next()?;
        let storage = self.next()?;
        if inst.wc != 4 {
            inst.expect(5)?;
            let _init = self.next()?;
        }
        let lookup_type = self.lookup_type(type_id)?;
        let dec = unwrap_or_default(self.take_decoration(id));
        let needs_own = match &module.types.get(lookup_type.token).inner {
            TypeInner::Pointer { base, class } => {
                match class {
                    StorageClass::Input | StorageClass::Output => {
                        match &module.types.get(*base).inner {
                            TypeInner::Struct { members } => {
                                if !every_member_bound(members) {
                                    return Err(Error::InvalidBinding(id));
                                }
                                false
                            },
                            _ => true,
                        }
                    },
                    _ => true,
                }
            },
            _ => true,
        };
        let binding = if needs_own {
            match dec.get_binding() {
                Some(binding) => Some(binding),
                None => {
                    return Err(Error::InvalidBinding(id));
                },
            }
        } else {
            None
        };
        let class = map_storage_class(storage)?;
        let var = GlobalVariable { name: dec.name, class, binding, ty: lookup_type.token };
        let token = module.global_variables.append(var);
        self.insert_variable(id, LookupVariable { token, type_id });
        Ok(())
    }
}

} // verus!

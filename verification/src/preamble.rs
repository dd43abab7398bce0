//! The instructions that come before the types: capabilities, imports, the
//! memory model, entry points, debug names and decorations.

use crate::decoration::{or_empty, unwrap_or_default, Decoration, DecorationView};
use crate::error::{Error, ErrorView, Instruction, ModuleState};
use crate::ir::Module;
use crate::model::{decoder_of, failed, met, Decoder};
use crate::reader::{may_switch, out_of_phase, string_at};
use crate::state::{Parser, ParserView, RawEntryPoint, RawEntryPointView};
use crate::words::{
    BuiltIn, Capability, ExecutionModel, Word, DECORATION_BINDING, DECORATION_BUILT_IN,
    DECORATION_DESCRIPTOR_SET, DECORATION_LOCATION, LAST_KNOWN_BUILT_IN, LAST_KNOWN_CAPABILITY,
    LAST_KNOWN_DECORATION,
};
use vstd::prelude::*;

verus! {

/// The one set of extended instructions that a module may import.
pub open spec fn supported_ext_set(name: Seq<char>) -> bool {
    name == "GLSL.std.450"@
}

/// A decoration that the decoder acts on; each has one operand.
pub open spec fn interpreted(decoration: Word) -> bool {
    ||| decoration == DECORATION_BUILT_IN
    ||| decoration == DECORATION_LOCATION
    ||| decoration == DECORATION_DESCRIPTOR_SET
    ||| decoration == DECORATION_BINDING
}

/// The record after the decoration `decoration` with operand `value` was
/// applied to it. A built-in beyond the last known one leaves it as it is.
pub open spec fn decorated(record: DecorationView, decoration: Word, value: Word) -> DecorationView {
    if decoration == DECORATION_BUILT_IN {
        if value > LAST_KNOWN_BUILT_IN {
            record
        } else {
            DecorationView { built_in: Some(BuiltIn { word: value }), ..record }
        }
    } else if decoration == DECORATION_LOCATION {
        DecorationView { location: Some(value), ..record }
    } else if decoration == DECORATION_DESCRIPTOR_SET {
        DecorationView { desc_set: Some(value), ..record }
    } else if decoration == DECORATION_BINDING {
        DecorationView { desc_index: Some(value), ..record }
    } else {
        record
    }
}

/// The number of words that an instruction of `wc` words has behind its
/// first `taken` ones.
pub open spec fn words_behind(wc: u16, taken: int) -> int {
    if wc > taken {
        wc - taken
    } else {
        0
    }
}

/// One decoration is read and applied to `record`, in an instruction that has
/// `base_words` words before the decoration. One that the decoder does not
/// act on is passed over with all its operands.
pub open spec fn decoration_at(
    p: ParserView,
    inst: Instruction,
    base_words: u16,
    record: DecorationView,
) -> Result<(ParserView, DecorationView), ErrorView> {
    if p.remaining() < 1 {
        Err(ErrorView::IncompleteData)
    } else if p.word(0) > LAST_KNOWN_DECORATION {
        Err(ErrorView::InvalidDecoration(p.word(0)))
    } else if interpreted(p.word(0)) {
        if inst.wc != base_words + 2 {
            Err(inst.bad_count())
        } else if p.remaining() < 2 {
            Err(ErrorView::IncompleteData)
        } else {
            Ok((p.advance(2), decorated(record, p.word(0), p.word(1))))
        }
    } else if p.remaining() - 1 < words_behind(inst.wc, base_words + 1) {
        Err(ErrorView::IncompleteData)
    } else {
        Ok((p.advance(1 + words_behind(inst.wc, base_words + 1)), record))
    }
}

/// The number of words that are read for a decoration, whether it is
/// applied or not: none where no word is left, and where the operands to be
/// passed over are not all there, every word that is left.
pub open spec fn decoration_span(p: ParserView, inst: Instruction, base_words: u16) -> int {
    if p.remaining() < 1 {
        0
    } else if p.word(0) > LAST_KNOWN_DECORATION {
        1
    } else if interpreted(p.word(0)) {
        if inst.wc != base_words + 2 || p.remaining() < 2 {
            1
        } else {
            2
        }
    } else if p.remaining() - 1 < words_behind(inst.wc, base_words + 1) {
        p.remaining()
    } else {
        1 + words_behind(inst.wc, base_words + 1)
    }
}

impl Decoder {
    /// Operand: the capability. Only `Shader` is accepted.
    pub open spec fn capability(self, inst: Instruction) -> Result<Decoder, ErrorView> {
        let p = self.p;
        if !may_switch(p, ModuleState::Capability) {
            Err(out_of_phase(p, inst.op))
        } else if inst.wc != 2 {
            Err(inst.bad_count())
        } else if p.remaining() < 1 {
            Err(ErrorView::IncompleteData)
        } else if p.word(0) > LAST_KNOWN_CAPABILITY {
            Err(ErrorView::UnknownCapability(p.word(0)))
        } else if Capability::of_code(p.word(0)) != Capability::Shader {
            Err(ErrorView::UnsupportedCapability(Capability::of_code(p.word(0))))
        } else {
            Ok(self.with_p(p.with_state(ModuleState::Capability).advance(1)))
        }
    }

    /// Operand: the extension's name. No extension is supported, so the
    /// instruction is rejected whatever it names.
    pub open spec fn extension(self, inst: Instruction) -> Result<Decoder, ErrorView> {
        let p = self.p;
        if !may_switch(p, ModuleState::Extension) {
            Err(out_of_phase(p, inst.op))
        } else if inst.wc < 2 {
            Err(inst.bad_count())
        } else {
            match string_at(p, (inst.wc - 1) as nat) {
                Ok((name, used)) => if used != inst.wc - 1 {
                    Err(ErrorView::InvalidOperand)
                } else {
                    Err(ErrorView::UnsupportedExtension(name))
                },
                Err(e) => Err(e),
            }
        }
    }

    /// Operands: id, the name of the instruction set.
    pub open spec fn ext_inst_import(self, inst: Instruction) -> Result<Decoder, ErrorView> {
        let p = self.p;
        if !may_switch(p, ModuleState::Extension) {
            Err(out_of_phase(p, inst.op))
        } else if inst.wc < 3 {
            Err(inst.bad_count())
        } else if p.remaining() < 1 {
            Err(ErrorView::IncompleteData)
        } else {
            match string_at(p.advance(1), (inst.wc - 2) as nat) {
                Ok((name, used)) => if used != inst.wc - 2 {
                    Err(ErrorView::InvalidOperand)
                } else if !supported_ext_set(name) {
                    Err(ErrorView::UnsupportedExtSet(name))
                } else {
                    Ok(self.with_p(p.with_state(ModuleState::Extension).advance(1 + used)))
                },
                Err(e) => Err(e),
            }
        }
    }

    /// Operands: addressing model, memory model. Neither is looked at.
    pub open spec fn memory_model(self, inst: Instruction) -> Result<Decoder, ErrorView> {
        let p = self.p;
        if !may_switch(p, ModuleState::MemoryModel) {
            Err(out_of_phase(p, inst.op))
        } else if inst.wc != 3 {
            Err(inst.bad_count())
        } else if p.remaining() < 2 {
            Err(ErrorView::IncompleteData)
        } else {
            Ok(self.with_p(p.with_state(ModuleState::MemoryModel).advance(2)))
        }
    }

    /// Operands: execution model, the function's id, the name, and then the
    /// ids of the variables that make up the interface: the words that the
    /// instruction has left behind the name, or those of them that are there.
    pub open spec fn entry_point(self, inst: Instruction) -> Result<Decoder, ErrorView> {
        let p = self.p;
        if !may_switch(p, ModuleState::EntryPoint) {
            Err(out_of_phase(p, inst.op))
        } else if inst.wc < 4 {
            Err(inst.bad_count())
        } else if p.remaining() < 1 {
            Err(ErrorView::IncompleteData)
        } else {
            match ExecutionModel::of_word(p.word(0)) {
                None => Err(ErrorView::UnsupportedExecutionModel(p.word(0))),
                Some(exec_model) => if p.remaining() < 2 {
                    Err(ErrorView::IncompleteData)
                } else {
                    match string_at(p.advance(2), (inst.wc - 3) as nat) {
                        Ok((name, used)) => {
                            let q = p.with_state(ModuleState::EntryPoint).advance(2 + used);
                            let left = inst.wc - 3 - used;
                            Ok(
                                self.with_p(
                                    q.advance(q.take_len(left)).with_entry_point(
                                        RawEntryPointView {
                                            exec_model,
                                            name,
                                            function_id: p.word(1),
                                            variable_ids: q.taken(left),
                                        },
                                    ),
                                ),
                            )
                        },
                        Err(e) => Err(e),
                    }
                },
            }
        }
    }

    /// Operands: the entry point's id, the mode, and the mode's own operands.
    /// All are read and dropped.
    pub open spec fn execution_mode(self, inst: Instruction) -> Result<Decoder, ErrorView> {
        let p = self.p;
        if !may_switch(p, ModuleState::ExecutionMode) {
            Err(out_of_phase(p, inst.op))
        } else if inst.wc < 3 {
            Err(inst.bad_count())
        } else if p.remaining() < inst.wc - 1 {
            Err(ErrorView::IncompleteData)
        } else {
            Ok(self.with_p(p.with_state(ModuleState::ExecutionMode).advance(inst.wc - 1)))
        }
    }

    /// All operands are read and dropped.
    pub open spec fn source(self, inst: Instruction) -> Result<Decoder, ErrorView> {
        let p = self.p;
        if !may_switch(p, ModuleState::Source) {
            Err(out_of_phase(p, inst.op))
        } else if p.remaining() < words_behind(inst.wc, 1) {
            Err(ErrorView::IncompleteData)
        } else {
            Ok(self.with_p(p.with_state(ModuleState::Source).advance(words_behind(inst.wc, 1))))
        }
    }

    /// Operand: a string, which is read and dropped. Words of the
    /// instruction behind the string's end are left unread.
    pub open spec fn source_extension(self, inst: Instruction) -> Result<Decoder, ErrorView> {
        let p = self.p;
        if !may_switch(p, ModuleState::Source) {
            Err(out_of_phase(p, inst.op))
        } else if inst.wc < 2 {
            Err(inst.bad_count())
        } else {
            match string_at(p, (inst.wc - 1) as nat) {
                Ok((name, used)) => Ok(
                    self.with_p(p.with_state(ModuleState::Source).advance(used)),
                ),
                Err(e) => Err(e),
            }
        }
    }

    /// Operands: id, name. The name is kept for the id.
    pub open spec fn name(self, inst: Instruction) -> Result<Decoder, ErrorView> {
        let p = self.p;
        if !may_switch(p, ModuleState::Name) {
            Err(out_of_phase(p, inst.op))
        } else if inst.wc < 3 {
            Err(inst.bad_count())
        } else if p.remaining() < 1 {
            Err(ErrorView::IncompleteData)
        } else {
            match string_at(p.advance(1), (inst.wc - 2) as nat) {
                Ok((name, used)) => if used != inst.wc - 2 {
                    Err(ErrorView::InvalidOperand)
                } else {
                    Ok(
                        self.with_p(
                            p.with_state(ModuleState::Name).advance(1 + used).with_decor(
                                p.word(0),
                                DecorationView { name: Some(name), ..or_empty(p.decor(p.word(0))) },
                            ),
                        ),
                    )
                },
                Err(e) => Err(e),
            }
        }
    }

    /// Operands: the struct's id, the member's index, name. The name is kept
    /// for the member.
    pub open spec fn member_name(self, inst: Instruction) -> Result<Decoder, ErrorView> {
        let p = self.p;
        if !may_switch(p, ModuleState::Name) {
            Err(out_of_phase(p, inst.op))
        } else if inst.wc < 4 {
            Err(inst.bad_count())
        } else if p.remaining() < 2 {
            Err(ErrorView::IncompleteData)
        } else {
            match string_at(p.advance(2), (inst.wc - 3) as nat) {
                Ok((name, used)) => if used != inst.wc - 3 {
                    Err(ErrorView::InvalidOperand)
                } else {
                    Ok(
                        self.with_p(
                            p.with_state(ModuleState::Name).advance(2 + used).with_member_decor(
                                p.word(0),
                                p.word(1),
                                DecorationView {
                                    name: Some(name),
                                    ..or_empty(p.member_decor(p.word(0), p.word(1)))
                                },
                            ),
                        ),
                    )
                },
                Err(e) => Err(e),
            }
        }
    }

    /// Operands: id, decoration, the decoration's operands. The decoration is
    /// added to what is kept for the id.
    pub open spec fn decorate(self, inst: Instruction) -> Result<Decoder, ErrorView> {
        let p = self.p;
        if !may_switch(p, ModuleState::Annotation) {
            Err(out_of_phase(p, inst.op))
        } else if inst.wc < 3 {
            Err(inst.bad_count())
        } else if p.remaining() < 1 {
            Err(ErrorView::IncompleteData)
        } else {
            match decoration_at(
                p.with_state(ModuleState::Annotation).advance(1),
                inst,
                2,
                or_empty(p.decor(p.word(0))),
            ) {
                Ok((q, record)) => Ok(self.with_p(q.with_decor(p.word(0), record))),
                Err(e) => Err(e),
            }
        }
    }

    /// Operands: the struct's id, the member's index, decoration, the
    /// decoration's operands.
    pub open spec fn member_decorate(self, inst: Instruction) -> Result<Decoder, ErrorView> {
        let p = self.p;
        if !may_switch(p, ModuleState::Annotation) {
            Err(out_of_phase(p, inst.op))
        } else if inst.wc < 4 {
            Err(inst.bad_count())
        } else if p.remaining() < 2 {
            Err(ErrorView::IncompleteData)
        } else {
            match decoration_at(
                p.with_state(ModuleState::Annotation).advance(2),
                inst,
                3,
                or_empty(p.member_decor(p.word(0), p.word(1))),
            ) {
                Ok((q, record)) => Ok(
                    self.with_p(q.with_member_decor(p.word(0), p.word(1), record)),
                ),
                Err(e) => Err(e),
            }
        }
    }
}

impl Parser {
    /// Reads one decoration with its operands and applies it to `dec`. Where
    /// it fails, `dec` is as it was.
    pub fn next_decoration(&mut self, inst: Instruction, base_words: u16, dec: &mut Decoration) -> (r:
        Result<(), Error>)
        requires
            old(self).wf(),
        ensures
            final(self).wf(),
            final(self)@ == old(self)@.advance(decoration_span(old(self)@, inst, base_words)),
            r is Err ==> *final(dec) == *old(dec),
            match decoration_at(old(self)@, inst, base_words, old(dec).deep_view()) {
                Ok((p, record)) => r is Ok && final(self)@ == p && final(dec).deep_view() == record,
                Err(e) => r matches Err(x) && x.deep_view() == e,
            },
    {
        let raw = self.next()?;
        if raw > LAST_KNOWN_DECORATION {
            return Err(Error::InvalidDecoration(raw));
        }
        if raw == DECORATION_BUILT_IN || raw == DECORATION_LOCATION || raw
            == DECORATION_DESCRIPTOR_SET || raw == DECORATION_BINDING {
            if inst.wc as u32 != base_words as u32 + 2 {
                return Err(Error::InvalidOperandCount(inst.op, inst.wc));
            }
            let value = self.next()?;
            if raw == DECORATION_BUILT_IN {
                if value <= LAST_KNOWN_BUILT_IN {
                    dec.built_in = Some(BuiltIn { word: value });
                }
            } else if raw == DECORATION_LOCATION {
                dec.location = Some(value);
            } else if raw == DECORATION_DESCRIPTOR_SET {
                dec.desc_set = Some(value);
            } else {
                dec.desc_index = Some(value);
            }
        } else {
            let taken: u32 = base_words as u32 + 1;
            let behind: u32 = if inst.wc as u32 > taken {
                inst.wc as u32 - taken
            } else {
                0
            };
            self.skip(behind as usize)?;
        }
        Ok(())
    }

    /// Carries out the instruction `inst`, whose header was read, as `Decoder::capability`
    /// says.
    pub fn capability(&mut self, module: &mut Module, inst: Instruction) -> (r: Result<(), Error>)
        requires
            old(self).wf(),
            decoder_of(old(self), old(module)).coherent(),
        ensures
            final(self).wf(),
            r is Err ==> failed(
                decoder_of(old(self), old(module)),
                decoder_of(final(self), final(module)),
            ),
            met(
                r,
                decoder_of(final(self), final(module)),
                decoder_of(old(self), old(module)).capability(inst),
            ),
    {
        self.switch(ModuleState::Capability, inst.op)?;
        inst.expect(2)?;
        let capability = self.next()?;
        if capability > LAST_KNOWN_CAPABILITY {
            return Err(Error::UnknownCapability(capability));
        }
        let cap = Capability::from_code(capability);
        match cap {
            Capability::Shader => {},
            _ => {
                return Err(Error::UnsupportedCapability(cap));
            },
        }
        Ok(())
    }

    /// Carries out the instruction `inst`, whose header was read, as `Decoder::extension`
    /// says.
    pub fn extension(&mut self, module: &mut Module, inst: Instruction) -> (r: Result<(), Error>)
        requires
            old(self).wf(),
            decoder_of(old(self), old(module)).coherent(),
        ensures
            final(self).wf(),
            r is Err ==> failed(
                decoder_of(old(self), old(module)),
                decoder_of(final(self), final(module)),
            ),
            met(
                r,
                decoder_of(final(self), final(module)),
                decoder_of(old(self), old(module)).extension(inst),
            ),
    {
        self.switch(ModuleState::Extension, inst.op)?;
        inst.expect_at_least(2)?;
        let (name, left) = self.next_string(inst.wc - 1)?;
        if left != 0 {
            return Err(Error::InvalidOperand);
        }
        Err(Error::UnsupportedExtension(name))
    }

    /// Carries out the instruction `inst`, whose header was read, as `Decoder::ext_inst_import`
    /// says.
    pub fn ext_inst_import(&mut self, module: &mut Module, inst: Instruction) -> (r: Result<
        (),
        Error,
    >)
        requires
            old(self).wf(),
            decoder_of(old(self), old(module)).coherent(),
        ensures
            final(self).wf(),
            r is Err ==> failed(
                decoder_of(old(self), old(module)),
                decoder_of(final(self), final(module)),
            ),
            met(
                r,
                decoder_of(final(self), final(module)),
                decoder_of(old(self), old(module)).ext_inst_import(inst),
            ),
    {
        self.switch(ModuleState::Extension, inst.op)?;
        inst.expect_at_least(3)?;
        let _result = self.next()?;
        let (name, left) = self.next_string(inst.wc - 2)?;
        if left != 0 {
            return Err(Error::InvalidOperand);
        }
        let supported = "GLSL.std.450".to_owned();
        if name != supported {
            return Err(Error::UnsupportedExtSet(name));
        }
        Ok(())
    }

    /// Carries out the instruction `inst`, whose header was read, as `Decoder::memory_model`
    /// says.
    pub fn memory_model(&mut self, module: &mut Module, inst: Instruction) -> (r: Result<
        (),
        Error,
    >)
        requires
            old(self).wf(),
            decoder_of(old(self), old(module)).coherent(),
        ensures
            final(self).wf(),
            r is Err ==> failed(
                decoder_of(old(self), old(module)),
                decoder_of(final(self), final(module)),
            ),
            met(
                r,
                decoder_of(final(self), final(module)),
                decoder_of(old(self), old(module)).memory_model(inst),
            ),
    {
        self.switch(ModuleState::MemoryModel, inst.op)?;
        inst.expect(3)?;
        let _addressing_model = self.next()?;
        let _memory_model = self.next()?;
        Ok(())
    }

    /// Carries out the instruction `inst`, whose header was read, as `Decoder::entry_point`
    /// says.
    pub fn entry_point(&mut self, module: &mut Module, inst: Instruction) -> (r: Result<(), Error>)
        requires
            old(self).wf(),
            decoder_of(old(self), old(module)).coherent(),
        ensures
            final(self).wf(),
            r is Err ==> failed(
                decoder_of(old(self), old(module)),
                decoder_of(final(self), final(module)),
            ),
            met(
                r,
                decoder_of(final(self), final(module)),
                decoder_of(old(self), old(module)).entry_point(inst),
            ),
    {
        self.switch(ModuleState::EntryPoint, inst.op)?;
        inst.expect_at_least(4)?;
        let exec_model_word = self.next()?;
        let exec_model = match ExecutionModel::from_word(exec_model_word) {
            Some(exec_model) => exec_model,
            None => {
                return Err(Error::UnsupportedExecutionModel(exec_model_word));
            },
        };
        let function_id = self.next()?;
        let (name, left) = self.next_string(inst.wc - 3)?;
        let variable_ids = self.take(left as usize);
        self.push_entry_point(RawEntryPoint { exec_model, name, function_id, variable_ids });
        Ok(())
    }

    /// Carries out the instruction `inst`, whose header was read, as `Decoder::execution_mode`
    /// says.
    pub fn execution_mode(&mut self, module: &mut Module, inst: Instruction) -> (r: Result<
        (),
        Error,
    >)
        requires
            old(self).wf(),
            decoder_of(old(self), old(module)).coherent(),
        ensures
            final(self).wf(),
            r is Err ==> failed(
                decoder_of(old(self), old(module)),
                decoder_of(final(self), final(module)),
            ),
            met(
                r,
                decoder_of(final(self), final(module)),
                decoder_of(old(self), old(module)).execution_mode(inst),
            ),
    {
        self.switch(ModuleState::ExecutionMode, inst.op)?;
        inst.expect_at_least(3)?;
        let _ep_id = self.next()?;
        let _mode = self.next()?;
        self.skip((inst.wc - 3) as usize)?;
        Ok(())
    }

    /// Carries out the instruction `inst`, whose header was read, as `Decoder::source`
    /// says.
    pub fn source(&mut self, module: &mut Module, inst: Instruction) -> (r: Result<(), Error>)
        requires
            old(self).wf(),
            decoder_of(old(self), old(module)).coherent(),
        ensures
            final(self).wf(),
            r is Err ==> failed(
                decoder_of(old(self), old(module)),
                decoder_of(final(self), final(module)),
            ),
            met(
                r,
                decoder_of(final(self), final(module)),
                decoder_of(old(self), old(module)).source(inst),
            ),
    {
        self.switch(ModuleState::Source, inst.op)?;
        let behind: u16 = if inst.wc > 1 {
            inst.wc - 1
        } else {
            0
        };
        self.skip(behind as usize)?;
        Ok(())
    }

    /// Carries out the instruction `inst`, whose header was read, as `Decoder::source_extension`
    /// says.
    pub fn source_extension(&mut self, module: &mut Module, inst: Instruction) -> (r: Result<
        (),
        Error,
    >)
        requires
            old(self).wf(),
            decoder_of(old(self), old(module)).coherent(),
        ensures
            final(self).wf(),
            r is Err ==> failed(
                decoder_of(old(self), old(module)),
                decoder_of(final(self), final(module)),
            ),
            met(
                r,
                decoder_of(final(self), final(module)),
                decoder_of(old(self), old(module)).source_extension(inst),
            ),
    {
        self.switch(ModuleState::Source, inst.op)?;
        inst.expect_at_least(2)?;
        let (_name, _left) = self.next_string(inst.wc - 1)?;
        Ok(())
    }

    /// Carries out the instruction `inst`, whose header was read, as `Decoder::name`
    /// says.
    pub fn name(&mut self, module: &mut Module, inst: Instruction) -> (r: Result<(), Error>)
        requires
            old(self).wf(),
            decoder_of(old(self), old(module)).coherent(),
        ensures
            final(self).wf(),
            r is Err ==> failed(
                decoder_of(old(self), old(module)),
                decoder_of(final(self), final(module)),
            ),
            met(
                r,
                decoder_of(final(self), final(module)),
                decoder_of(old(self), old(module)).name(inst),
            ),
    {
        self.switch(ModuleState::Name, inst.op)?;
        inst.expect_at_least(3)?;
        let id = self.next()?;
        let (name, left) = self.next_string(inst.wc - 2)?;
        if left != 0 {
            return Err(Error::InvalidOperand);
        }
        let mut dec = unwrap_or_default(self.take_decoration(id));
        dec.name = Some(name);
        self.put_decoration(id, dec);
        Ok(())
    }

    /// Carries out the instruction `inst`, whose header was read, as `Decoder::member_name`
    /// says.
    pub fn member_name(&mut self, module: &mut Module, inst: Instruction) -> (r: Result<(), Error>)
        requires
            old(self).wf(),
            decoder_of(old(self), old(module)).coherent(),
        ensures
            final(self).wf(),
            r is Err ==> failed(
                decoder_of(old(self), old(module)),
                decoder_of(final(self), final(module)),
            ),
            met(
                r,
                decoder_of(final(self), final(module)),
                decoder_of(old(self), old(module)).member_name(inst),
            ),
    {
        self.switch(ModuleState::Name, inst.op)?;
        inst.expect_at_least(4)?;
        let id = self.next()?;
        let member = self.next()?;
        let (name, left) = self.next_string(inst.wc - 3)?;
        if left != 0 {
            return Err(Error::InvalidOperand);
        }
        let mut dec = unwrap_or_default(self.take_member_decoration(id, member));
        dec.name = Some(name);
        self.put_member_decoration(id, member, dec);
        Ok(())
    }

    /// Carries out the instruction `inst`, whose header was read, as `Decoder::decorate`
    /// says.
    pub fn decorate(&mut self, module: &mut Module, inst: Instruction) -> (r: Result<(), Error>)
        requires
            old(self).wf(),
            decoder_of(old(self), old(module)).coherent(),
        ensures
            final(self).wf(),
            r is Err ==> failed(
                decoder_of(old(self), old(module)),
                decoder_of(final(self), final(module)),
            ),
            met(
                r,
                decoder_of(final(self), final(module)),
                decoder_of(old(self), old(module)).decorate(inst),
            ),
    {
        self.switch(ModuleState::Annotation, inst.op)?;
        inst.expect_at_least(3)?;
        let id = self.next()?;
        let mut dec = unwrap_or_default(self.take_decoration(id));
        self.next_decoration(inst, 2, &mut dec)?;
        self.put_decoration(id, dec);
        Ok(())
    }

    /// Carries out the instruction `inst`, whose header was read, as `Decoder::member_decorate`
    /// says.
    pub fn member_decorate(&mut self, module: &mut Module, inst: Instruction) -> (r: Result<
        (),
        Error,
    >)
        requires
            old(self).wf(),
            decoder_of(old(self), old(module)).coherent(),
        ensures
            final(self).wf(),
            r is Err ==> failed(
                decoder_of(old(self), old(module)),
                decoder_of(final(self), final(module)),
            ),
            met(
                r,
                decoder_of(final(self), final(module)),
                decoder_of(old(self), old(module)).member_decorate(inst),
            ),
    {
        self.switch(ModuleState::Annotation, inst.op)?;
        inst.expect_at_least(4)?;
        let id = self.next()?;
        let member = self.next()?;
        let mut dec = unwrap_or_default(self.take_member_decoration(id, member));
        self.next_decoration(inst, 3, &mut dec)?;
        self.put_member_decoration(id, member, dec);
        Ok(())
    }
}

} // verus!

//! Reading the stream: instruction headers, strings, and the guard on the
//! order of phases.

use crate::error::{Error, ErrorView, Instruction, ModuleState};
use crate::state::{Parser, ParserView};
use crate::words::{Op, Word, LAST_KNOWN_OPCODE};
use vstd::prelude::*;
use vstd::utf8::{decode_utf8, valid_utf8};

verus! {

/// The error with which `std::str::from_utf8` rejects bytes.
#[verifier::external_type_specification]
#[verifier::external_body]
pub struct ExUtf8Error(std::str::Utf8Error);

/// `std::str::from_utf8` accepts exactly the byte sequences that are valid
/// UTF-8, and the string that it gives holds the characters that they encode.
pub assume_specification<'a>[ std::str::from_utf8 ](v: &'a [u8]) -> (r: Result<
    &'a str,
    std::str::Utf8Error,
>)
    ensures
        r.is_ok() == valid_utf8(v@),
        r matches Ok(s) ==> s@ == decode_utf8(v@),
;

/// The four bytes of a word, the lowest first.
pub open spec fn word_bytes(word: Word) -> Seq<u8> {
    seq![
        (word % 0x100) as u8,
        (word / 0x100 % 0x100) as u8,
        (word / 0x1_0000 % 0x100) as u8,
        (word / 0x100_0000) as u8,
    ]
}

/// One of the word's bytes is zero: a string ends in this word.
pub open spec fn ends_text(word: Word) -> bool {
    exists|i: int| 0 <= i < 4 && word_bytes(word)[i] == 0
}

/// The bytes of the word that come before its first zero byte.
pub open spec fn text_bytes(word: Word) -> Seq<u8> {
    let bytes = word_bytes(word);
    if bytes[0] == 0 {
        bytes.take(0)
    } else if bytes[1] == 0 {
        bytes.take(1)
    } else if bytes[2] == 0 {
        bytes.take(2)
    } else if bytes[3] == 0 {
        bytes.take(3)
    } else {
        bytes
    }
}

/// The bytes of the string that starts at word `pos` and may span `count`
/// words, with the number of words that it spans.
pub open spec fn string_bytes(words: Seq<Word>, pos: int, count: nat) -> Result<
    (Seq<u8>, int),
    ErrorView,
>
    decreases count,
{
    if count == 0 {
        Err(ErrorView::BadString)
    } else if pos >= words.len() {
        Err(ErrorView::IncompleteData)
    } else if ends_text(words[pos]) {
        Ok((text_bytes(words[pos]), 1))
    } else {
        match string_bytes(words, pos + 1, (count - 1) as nat) {
            Ok((bytes, used)) => Ok((word_bytes(words[pos]) + bytes, used + 1)),
            Err(e) => Err(e),
        }
    }
}

/// The string that is read next where it may span `count` words, with the
/// number of words that it spans.
pub open spec fn string_at(p: ParserView, count: nat) -> Result<(Seq<char>, int), ErrorView> {
    match string_bytes(p.words, p.pos, count) {
        Ok((bytes, used)) => if valid_utf8(bytes) {
            Ok((decode_utf8(bytes), used))
        } else {
            Err(ErrorView::BadString)
        },
        Err(e) => Err(e),
    }
}

/// The number of words that are read for a string that starts at word
/// `pos` and may span `count` words, whether there is such a string or not:
/// the words up to the one in which the string ends, or to the last that is
/// there, or to the last that the string may span.
pub open spec fn string_span(words: Seq<Word>, pos: int, count: nat) -> int
    decreases count,
{
    if count == 0 || pos >= words.len() {
        0
    } else if ends_text(words[pos]) {
        1
    } else {
        1 + string_span(words, pos + 1, (count - 1) as nat)
    }
}

/// The number of words that reading one word takes: one, if a word is left.
pub open spec fn word_span(p: ParserView) -> int {
    if p.remaining() > 0 {
        1
    } else {
        0
    }
}

/// The header that is read next.
pub open spec fn instruction_at(p: ParserView) -> Result<Instruction, ErrorView> {
    if p.remaining() <= 0 {
        Err(ErrorView::IncompleteData)
    } else if p.word(0) / 0x1_0000 == 0 {
        Err(ErrorView::InvalidWordCount)
    } else if p.word(0) % 0x1_0000 > LAST_KNOWN_OPCODE {
        Err(ErrorView::UnknownInstruction((p.word(0) % 0x1_0000) as u16))
    } else {
        Ok(
            Instruction {
                op: Op::of_code((p.word(0) % 0x1_0000) as u16),
                wc: (p.word(0) / 0x1_0000) as u16,
            },
        )
    }
}

/// Whether an instruction of phase `target` may come in the state `p`.
pub open spec fn may_switch(p: ParserView, target: ModuleState) -> bool {
    target.rank() >= p.state.rank()
}

/// The error for an instruction that comes after its phase is over.
pub open spec fn out_of_phase(p: ParserView, op: Op) -> ErrorView {
    ErrorView::UnsupportedInstruction(p.state, op)
}

spec fn prepend(prefix: Seq<u8>, n: int, rest: Result<(Seq<u8>, int), ErrorView>) -> Result<
    (Seq<u8>, int),
    ErrorView,
> {
    match rest {
        Ok((bytes, used)) => Ok((prefix + bytes, n + used)),
        Err(e) => Err(e),
    }
}

fn split_word(word: Word) -> (r: (Vec<u8>, bool))
    ensures
        r.0@ == text_bytes(word),
        r.1 == ends_text(word),
        !r.1 ==> r.0@ == word_bytes(word),
{
    let b0 = (word % 0x100) as u8;
    let b1 = (word / 0x100 % 0x100) as u8;
    let b2 = (word / 0x1_0000 % 0x100) as u8;
    let b3 = (word / 0x100_0000) as u8;
    let ghost all = word_bytes(word);
    assert(all[0] == b0 && all[1] == b1 && all[2] == b2 && all[3] == b3);
    let mut bytes: Vec<u8> = Vec::new();
    if b0 == 0 {
        assert(bytes@ =~= all.take(0));
        return (bytes, true);
    }
    bytes.push(b0);
    if b1 == 0 {
        assert(bytes@ =~= all.take(1));
        return (bytes, true);
    }
    bytes.push(b1);
    if b2 == 0 {
        assert(bytes@ =~= all.take(2));
        return (bytes, true);
    }
    bytes.push(b2);
    if b3 == 0 {
        assert(bytes@ =~= all.take(3));
        return (bytes, true);
    }
    bytes.push(b3);
    assert(bytes@ =~= all);
    (bytes, false)
}

fn append_bytes(target: &mut Vec<u8>, bytes: &Vec<u8>)
    ensures
        final(target)@ == old(target)@ + bytes@,
{
    let mut i: usize = 0;
    while i < bytes.len()
        invariant
            i <= bytes.len(),
            target@ == old(target)@ + bytes@.take(i as int),
        decreases bytes.len() - i,
    {
        target.push(bytes[i]);
        i = i + 1;
        assert(target@ =~= old(target)@ + bytes@.take(i as int));
    }
    assert(bytes@.take(bytes.len() as int) =~= bytes@);
}

impl Parser {
    /// Reads the header of the next instruction. The word is read also
    /// where it is no header; where no word is left, nothing changes.
    pub fn next_inst(&mut self) -> (r: Result<Instruction, Error>)
        requires
            old(self).wf(),
        ensures
            final(self).wf(),
            final(self)@ == old(self)@.advance(word_span(old(self)@)),
            match r {
                Ok(inst) => {
                    &&& instruction_at(old(self)@) == Ok::<Instruction, ErrorView>(inst)
                    &&& final(self)@ == old(self)@.advance(1)
                },
                Err(e) => instruction_at(old(self)@) == Err::<Instruction, ErrorView>(
                    e.deep_view(),
                ),
            },
    {
        let word = self.next()?;
        let wc = (word / 0x1_0000) as u16;
        let opcode = (word % 0x1_0000) as u16;
        if wc == 0 {
            return Err(Error::InvalidWordCount);
        }
        if opcode > LAST_KNOWN_OPCODE {
            return Err(Error::UnknownInstruction(opcode));
        }
        Ok(Instruction { op: Op::from_code(opcode), wc })
    }

    /// Reads a string that may span `count` words, and says how many of them
    /// are left behind it. Where it fails, the words that it looked at are
    /// read, and no word beyond those that the string may span.
    pub fn next_string(&mut self, count: u16) -> (r: Result<(String, u16), Error>)
        requires
            old(self).wf(),
        ensures
            final(self).wf(),
            final(self)@ == old(self)@.advance(
                string_span(old(self)@.words, old(self)@.pos, count as nat),
            ),
            0 <= string_span(old(self)@.words, old(self)@.pos, count as nat) <= count,
            match r {
                Ok((text, left)) => {
                    &&& string_at(old(self)@, count as nat) matches Ok((chars, used))
                    &&& text@ == chars
                    &&& left == count - used
                    &&& 1 <= used <= count
                    &&& final(self)@ == old(self)@.advance(used)
                },
                Err(e) => string_at(old(self)@, count as nat) == Err::<(Seq<char>, int), ErrorView>(
                    e.deep_view(),
                ),
            },
    {
        let mut bytes: Vec<u8> = Vec::new();
        let mut left = count;
        loop
            invariant
                self.wf(),
                left <= count,
                self@ == old(self)@.advance(count - left),
                string_span(old(self)@.words, old(self)@.pos, count as nat) == count - left
                    + string_span(self@.words, self@.pos, left as nat),
                string_bytes(old(self)@.words, old(self)@.pos, count as nat) == prepend(
                    bytes@,
                    count - left,
                    string_bytes(self@.words, self@.pos, left as nat),
                ),
            decreases left,
        {
            if left == 0 {
                return Err(Error::BadString);
            }
            let ghost before = self@;
            let ghost prefix = bytes@;
            let word = match self.next() {
                Ok(word) => word,
                Err(e) => {
                    return Err(e);
                },
            };
            left = left - 1;
            let (text, last) = split_word(word);
            append_bytes(&mut bytes, &text);
            if last {
                assert(string_bytes(before.words, before.pos, (left + 1) as nat) == Ok::<
                    (Seq<u8>, int),
                    ErrorView,
                >((text@, 1)));
                return match std::str::from_utf8(bytes.as_slice()) {
                    Ok(s) => Ok((s.to_owned(), left)),
                    Err(_) => Err(Error::BadString),
                };
            }
            proof {
                let rest = string_bytes(self@.words, self@.pos, left as nat);
                assert(string_bytes(before.words, before.pos, (left + 1) as nat) == prepend(
                    word_bytes(word),
                    1,
                    rest,
                ));
                match rest {
                    Ok((more, used)) => {
                        assert(prefix + (word_bytes(word) + more) =~= bytes@ + more);
                    },
                    Err(_) => {},
                }
            }
        }
    }

    /// Moves on to the phase of an instruction, unless that phase is over.
    pub fn switch(&mut self, state: ModuleState, op: Op) -> (r: Result<(), Error>)
        requires
            old(self).wf(),
        ensures
            final(self).wf(),
            match r {
                Ok(()) => may_switch(old(self)@, state) && final(self)@ == old(self)@.with_state(
                    state,
                ),
                Err(e) => !may_switch(old(self)@, state) && e.deep_view() == out_of_phase(
                    old(self)@,
                    op,
                ) && final(self)@ == old(self)@,
            },
    {
        let current = self.state();
        if state.index() < current.index() {
            Err(Error::UnsupportedInstruction(current, op))
        } else {
            self.set_state(state);
            Ok(())
        }
    }
}

} // verus!

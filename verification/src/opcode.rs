use crate::field::extract;
use crate::field::get;
use crate::field::BitRange;
use crate::field::Field;
use vstd::arithmetic::power2::lemma2_to64;
use vstd::prelude::*;

verus! {

/// The fourteen instructions of the machine, in the order of their codes.
#[derive(Clone, Copy, Debug, PartialEq, Eq, Structural)]
pub enum Opcode {
    CMov,
    Load,
    Store,
    Add,
    Mul,
    Div,
    Nand,
    Halt,
    MapSegment,
    UnmapSegment,
    Output,
    Input,
    LoadProgram,
    LoadValue,
}

impl Opcode {
    /// The four-bit code that the instruction word carries for this opcode.
    pub open spec fn spec_code(self) -> nat {
        match self {
            Opcode::CMov => 0,
            Opcode::Load => 1,
            Opcode::Store => 2,
            Opcode::Add => 3,
            Opcode::Mul => 4,
            Opcode::Div => 5,
            Opcode::Nand => 6,
            Opcode::Halt => 7,
            Opcode::MapSegment => 8,
            Opcode::UnmapSegment => 9,
            Opcode::Output => 10,
            Opcode::Input => 11,
            Opcode::LoadProgram => 12,
            Opcode::LoadValue => 13,
        }
    }

    /// The opcode that `code` stands for, if it stands for one.
    pub open spec fn with_code(code: nat) -> Option<Opcode> {
        if code == 0 {
            Some(Opcode::CMov)
        } else if code == 1 {
            Some(Opcode::Load)
        } else if code == 2 {
            Some(Opcode::Store)
        } else if code == 3 {
            Some(Opcode::Add)
        } else if code == 4 {
            Some(Opcode::Mul)
        } else if code == 5 {
            Some(Opcode::Div)
        } else if code == 6 {
            Some(Opcode::Nand)
        } else if code == 7 {
            Some(Opcode::Halt)
        } else if code == 8 {
            Some(Opcode::MapSegment)
        } else if code == 9 {
            Some(Opcode::UnmapSegment)
        } else if code == 10 {
            Some(Opcode::Output)
        } else if code == 11 {
            Some(Opcode::Input)
        } else if code == 12 {
            Some(Opcode::LoadProgram)
        } else if code == 13 {
            Some(Opcode::LoadValue)
        } else {
            None
        }
    }

    /// The four-bit code of this opcode.
    pub fn code(self) -> (c: u32)
        ensures
            c == self.spec_code(),
            c <= 13,
    {
        match self {
            Opcode::CMov => 0,
            Opcode::Load => 1,
            Opcode::Store => 2,
            Opcode::Add => 3,
            Opcode::Mul => 4,
            Opcode::Div => 5,
            Opcode::Nand => 6,
            Opcode::Halt => 7,
            Opcode::MapSegment => 8,
            Opcode::UnmapSegment => 9,
            Opcode::Output => 10,
            Opcode::Input => 11,
            Opcode::LoadProgram => 12,
            Opcode::LoadValue => 13,
        }
    }

    /// Looks `code` up among the opcodes. Codes above 13 name none.
    pub fn from_code(code: u32) -> (found: Option<Opcode>)
        ensures
            found == Opcode::with_code(code as nat),
            found is Some <==> code <= 13,
            found matches Some(opcode) ==> opcode.spec_code() == code,
    {
        match code {
            0 => Some(Opcode::CMov),
            1 => Some(Opcode::Load),
            2 => Some(Opcode::Store),
            3 => Some(Opcode::Add),
            4 => Some(Opcode::Mul),
            5 => Some(Opcode::Div),
            6 => Some(Opcode::Nand),
            7 => Some(Opcode::Halt),
            8 => Some(Opcode::MapSegment),
            9 => Some(Opcode::UnmapSegment),
            10 => Some(Opcode::Output),
            11 => Some(Opcode::Input),
            12 => Some(Opcode::LoadProgram),
            13 => Some(Opcode::LoadValue),
            _ => None,
        }
    }
}

/// What an instruction word turned out to be.
#[derive(Clone, Copy, Debug, PartialEq, Eq, Structural)]
pub enum Classified {
    /// The word carries the code of this opcode.
    Recognized(Opcode),
    /// The word's code names no opcode; the whole word is kept as data.
    Unrecognized(u32),
}

/// The classification of `word` by the code in its top four bits.
pub open spec fn classification(word: u32) -> Classified {
    match Opcode::with_code(extract(BitRange::op(), word)) {
        Some(opcode) => Classified::Recognized(opcode),
        None => Classified::Unrecognized(word),
    }
}

/// Classifies `word` by its opcode field. A word whose code is 14 or 15 is
/// not an error: it comes back unrecognized, with the word itself.
pub fn classify(word: u32) -> (class: Classified)
    ensures
        class == classification(word),
{
    match Opcode::from_code(get(&Field::op(), word)) {
        Some(opcode) => Classified::Recognized(opcode),
        None => Classified::Unrecognized(word),
    }
}

/// Codes and opcodes correspond one to one: looking up an opcode's code
/// gives the opcode back, and a code that names an opcode is that opcode's.
pub proof fn lemma_code_round_trip(opcode: Opcode, code: nat)
    ensures
        Opcode::with_code(opcode.spec_code()) == Some(opcode),
        Opcode::with_code(code) == Some(opcode) <==> code == opcode.spec_code(),
        Opcode::with_code(code) is None <==> code > 13,
{
}

/// A word is recognized as `opcode` exactly when its top four bits hold the
/// code of `opcode`, and is unrecognized exactly when they hold 14 or 15.
pub proof fn lemma_classification(word: u32, opcode: Opcode)
    ensures
        extract(BitRange::op(), word) == word / 0x1000_0000,
        classification(word) == Classified::Recognized(opcode) <==> word / 0x1000_0000
            == opcode.spec_code(),
        classification(word) == Classified::Unrecognized(word) <==> word / 0x1000_0000 >= 14,
        classification(word) is Unrecognized ==> classification(word) == Classified::Unrecognized(
            word,
        ),
{
    lemma2_to64();
    let top = word as nat / 0x1000_0000;
    assert(top < 16);
    assert(extract(BitRange::op(), word) == top % 16);
    lemma_code_round_trip(opcode, top);
}

/// The shape of an instruction: which operand fields carry meaning.
#[derive(Clone, Copy, Debug, PartialEq, Eq, Structural)]
pub enum Layout {
    /// Registers A, B and C.
    ThreeRegister,
    /// Registers B and C.
    TwoRegister,
    /// Register C alone.
    OneRegister,
    /// No operand at all.
    Halt,
    /// A target register and a 25-bit immediate.
    Immediate,
}

/// The layout that instructions with `opcode` have.
pub open spec fn layout_of(opcode: Opcode) -> Layout {
    match opcode {
        Opcode::CMov | Opcode::Load | Opcode::Store | Opcode::Add | Opcode::Mul | Opcode::Div
        | Opcode::Nand => Layout::ThreeRegister,
        Opcode::MapSegment | Opcode::LoadProgram => Layout::TwoRegister,
        Opcode::UnmapSegment | Opcode::Output | Opcode::Input => Layout::OneRegister,
        Opcode::Halt => Layout::Halt,
        Opcode::LoadValue => Layout::Immediate,
    }
}

/// Resolves the layout of instructions with `opcode`.
pub fn layout_for(opcode: Opcode) -> (layout: Layout)
    ensures
        layout == layout_of(opcode),
{
    match opcode {
        Opcode::CMov | Opcode::Load | Opcode::Store | Opcode::Add | Opcode::Mul | Opcode::Div
        | Opcode::Nand => Layout::ThreeRegister,
        Opcode::MapSegment | Opcode::LoadProgram => Layout::TwoRegister,
        Opcode::UnmapSegment | Opcode::Output | Opcode::Input => Layout::OneRegister,
        Opcode::Halt => Layout::Halt,
        Opcode::LoadValue => Layout::Immediate,
    }
}

} // verus!

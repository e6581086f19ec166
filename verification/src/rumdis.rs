use crate::field::extract;
use crate::field::get;
use crate::field::lemma_extract_in_range;
use crate::field::BitRange;
use crate::field::Field;
use crate::highlight::spans_for;
use crate::highlight::spans_of;
use crate::highlight::tint_for;
use crate::highlight::tint_of;
use crate::highlight::views;
use crate::highlight::SpanView;
use crate::numeral::binary32;
use crate::numeral::decimal;
use crate::numeral::decimal_padded;
use crate::numeral::digit;
use crate::numeral::fixed;
use crate::numeral::hex8;
use crate::numeral::lemma_binary_prefix;
use crate::numeral::lemma_binary_suffix;
use crate::numeral::lemma_decimal_unfold;
use crate::numeral::lemma_fixed_len;
use crate::numeral::push_decimal;
use crate::numeral::push_decimal_padded;
use crate::numeral::push_fixed;
use crate::opcode::classification;
use crate::opcode::classify;
use crate::opcode::layout_for;
use crate::opcode::layout_of;
use crate::opcode::Classified;
use crate::opcode::Opcode;
use crate::tint::paint;
use crate::tint::painted;
use vstd::arithmetic::power2::lemma2_to64;
use vstd::arithmetic::power2::pow2;
use vstd::prelude::*;
use vstd::string::StrSliceExecFns;
use vstd::string::StringExecFns;

verus! {

/// The number that `word` holds in `range`, written in decimal.
pub open spec fn operand(range: BitRange, word: u32) -> Seq<char> {
    decimal(extract(range, word))
}

/// The assembly text of `word`.
///
/// A recognized word reads as its instruction, with each register written
/// as its number in decimal. Only load-value reads its register and its
/// value from the target and immediate fields; every other instruction reads
/// registers A, B and C. A word that is not recognized reads as a data
/// directive with the word in eight hexadecimal digits.
pub open spec fn mnemonic(word: u32) -> Seq<char> {
    let a = operand(BitRange::ra(), word);
    let b = operand(BitRange::rb(), word);
    let c = operand(BitRange::rc(), word);
    let target = operand(BitRange::rl(), word);
    let value = operand(BitRange::vl(), word);
    match classification(word) {
        Classified::Unrecognized(raw) => ".data 0x"@ + hex8(raw),
        Classified::Recognized(opcode) => match opcode {
            Opcode::CMov => "if (r"@ + c + " != 0) r"@ + a + " := r"@ + b + ";"@,
            Opcode::Load => "r"@ + a + " := m[r"@ + b + "][r"@ + c + "];"@,
            Opcode::Store => "m[r"@ + a + "][r"@ + b + "] := r"@ + c + ";"@,
            Opcode::Add => "r"@ + a + " := r"@ + b + " + r"@ + c + ";"@,
            Opcode::Mul => "r"@ + a + " := r"@ + b + " * r"@ + c + ";"@,
            Opcode::Div => "r"@ + a + " := r"@ + b + " / r"@ + c + ";"@,
            Opcode::Nand => "r"@ + a + " := r"@ + b + " nand r"@ + c + ";"@,
            Opcode::Halt => "halt"@,
            Opcode::MapSegment => "r"@ + b + " := map segment (r"@ + c + " words);"@,
            Opcode::UnmapSegment => "unmap r"@ + c + ";"@,
            Opcode::Output => "output r"@ + c + ";"@,
            Opcode::Input => "r"@ + c + " := input();"@,
            Opcode::LoadProgram => "goto r"@ + c + " in program m[r"@ + b + "];"@,
            Opcode::LoadValue => "r"@ + target + " := "@ + value + ";"@,
        },
    }
}

/// A register is written as the one digit of its number, which is at most
/// seven.
pub proof fn lemma_register_digit(range: BitRange, word: u32)
    requires
        range.width == 3,
    ensures
        extract(range, word) < 8,
        operand(range, word) == seq![digit(extract(range, word))],
{
    lemma2_to64();
    lemma_extract_in_range(range, word);
    lemma_decimal_unfold(extract(range, word));
}

/// Appends to `out` the number that `inst` holds in `field`, in decimal.
fn push_operand(out: &mut String, field: &Field, inst: u32)
    ensures
        final(out)@ == old(out)@ + operand(field@, inst),
{
    push_decimal(out, get(field, inst) as u64);
}

/// A line of text around the number in one field of `inst`.
fn with_one(inst: u32, head: &str, x: &Field, tail: &str) -> (text: String)
    ensures
        text@ == head@ + operand(x@, inst) + tail@,
{
    let mut text = String::from_str(head);
    push_operand(&mut text, x, inst);
    text.append(tail);
    text
}

/// A line of text around the numbers in two fields of `inst`.
fn with_two(inst: u32, head: &str, x: &Field, mid: &str, y: &Field, tail: &str) -> (text: String)
    ensures
        text@ == head@ + operand(x@, inst) + mid@ + operand(y@, inst) + tail@,
{
    let mut text = with_one(inst, head, x, mid);
    push_operand(&mut text, y, inst);
    text.append(tail);
    text
}

/// A line of text around the numbers in three fields of `inst`.
fn with_three(
    inst: u32,
    head: &str,
    x: &Field,
    mid: &str,
    y: &Field,
    next: &str,
    z: &Field,
    tail: &str,
) -> (text: String)
    ensures
        text@ == head@ + operand(x@, inst) + mid@ + operand(y@, inst) + next@ + operand(z@, inst)
            + tail@,
{
    let mut text = with_two(inst, head, x, mid, y, next);
    push_operand(&mut text, z, inst);
    text.append(tail);
    text
}

/// Renders `inst` as one line of assembly text, without a line end.
///
/// The text depends on the word alone, and no word is refused: one whose
/// opcode is not known comes out as a data directive.
pub fn disassemble(inst: u32) -> (text: String)
    ensures
        text@ == mnemonic(inst),
{
    let a = Field::ra();
    let b = Field::rb();
    let c = Field::rc();
    match classify(inst) {
        Classified::Unrecognized(raw) => {
            let mut text = String::from_str(".data 0x");
            push_fixed(&mut text, raw as u64, 16, 8);
            text
        },
        Classified::Recognized(opcode) => match opcode {
            Opcode::CMov => with_three(inst, "if (r", &c, " != 0) r", &a, " := r", &b, ";"),
            Opcode::Load => with_three(inst, "r", &a, " := m[r", &b, "][r", &c, "];"),
            Opcode::Store => with_three(inst, "m[r", &a, "][r", &b, "] := r", &c, ";"),
            Opcode::Add => with_three(inst, "r", &a, " := r", &b, " + r", &c, ";"),
            Opcode::Mul => with_three(inst, "r", &a, " := r", &b, " * r", &c, ";"),
            Opcode::Div => with_three(inst, "r", &a, " := r", &b, " / r", &c, ";"),
            Opcode::Nand => with_three(inst, "r", &a, " := r", &b, " nand r", &c, ";"),
            Opcode::Halt => String::from_str("halt"),
            Opcode::MapSegment => with_two(inst, "r", &b, " := map segment (r", &c, " words);"),
            Opcode::UnmapSegment => with_one(inst, "unmap r", &c, ";"),
            Opcode::Output => with_one(inst, "output r", &c, ";"),
            Opcode::Input => with_one(inst, "r", &c, " := input();"),
            Opcode::LoadProgram => with_two(inst, "goto r", &c, " in program m[r", &b, "];"),
            Opcode::LoadValue => with_two(inst, "r", &Field::rl(), " := ", &Field::vl(), ";"),
        },
    }
}

/// Any two renderings of one word are the same text.
pub proof fn lemma_disassemble_deterministic(inst: u32, first: String, second: String)
    requires
        first@ == mnemonic(inst),
        second@ == mnemonic(inst),
    ensures
        first@ == second@,
{
}

/// The digits of `digits` that show the bits in `range`, where `digits`
/// writes a word with bit 31 first.
pub open spec fn digits_of(digits: Seq<char>, range: BitRange) -> Seq<char> {
    digits.subrange(32 - range.lsb - range.width, 32 - range.lsb)
}

/// The digits that stand for the bits of a range write, in binary, the very
/// value that is read from that range: what is coloured as an operand is
/// what the assembly text names.
pub proof fn lemma_digits_of_range(word: u32, range: BitRange)
    requires
        range.wf(),
    ensures
        digits_of(binary32(word), range) == fixed(extract(range, word), 2, range.width),
{
    let kept = (32 - range.lsb) as nat;
    let high = fixed(word as nat / pow2(range.lsb), 2, kept);
    lemma_fixed_len(word as nat, 2, 32);
    lemma_fixed_len(word as nat / pow2(range.lsb), 2, kept);
    lemma_binary_prefix(word as nat, 32, range.lsb);
    lemma_binary_suffix(word as nat / pow2(range.lsb), kept, range.width);
    assert(digits_of(binary32(word), range) =~= high.subrange(kept - range.width, kept as int));
}

/// The digits of each span painted in the colour of the span's role, one
/// span after the other.
pub open spec fn painted_spans(spans: Seq<SpanView>, digits: Seq<char>) -> Seq<char>
    decreases spans.len(),
{
    if spans.len() == 0 {
        Seq::empty()
    } else {
        painted_spans(spans.drop_last(), digits) + painted(
            tint_of(spans.last().role),
            digits_of(digits, spans.last().range),
        )
    }
}

/// The binary digits of `word` with the fields of its layout told apart by
/// colour; a word that is not recognized is left as its bare digits.
pub open spec fn highlighted(word: u32) -> Seq<char> {
    match classification(word) {
        Classified::Unrecognized(_) => binary32(word),
        Classified::Recognized(opcode) => painted_spans(
            spans_of(layout_of(opcode)),
            binary32(word),
        ),
    }
}

/// Renders the 32 binary digits of `inst`, bit 31 first, each span of the
/// instruction's layout in its own colour.
pub fn bin_string(inst: u32) -> (text: String)
    ensures
        text@ == highlighted(inst),
{
    let mut digits = String::new();
    push_fixed(&mut digits, inst as u64, 2, 32);
    proof {
        lemma_fixed_len(inst as nat, 2, 32);
        assert(digits@ =~= binary32(inst));
    }
    match classify(inst) {
        Classified::Unrecognized(_) => digits,
        Classified::Recognized(opcode) => {
            let spans = spans_for(layout_for(opcode));
            let ghost model = spans_of(layout_of(opcode));
            let mut text = String::new();
            let mut i: usize = 0;
            while i < spans.len()
                invariant
                    i <= spans.len(),
                    views(spans@) == model,
                    digits@ == binary32(inst),
                    digits@.len() == 32,
                    text@ == painted_spans(model.take(i as int), digits@),
                decreases spans.len() - i,
            {
                let span = spans[i];
                let lsb: u32 = span.field.lsb();
                let width: u32 = span.field.width();
                let from: usize = (32 - lsb - width) as usize;
                let to: usize = (32 - lsb) as usize;
                let piece = paint(tint_for(span.role), digits.as_str().substring_char(from, to));
                text.append(piece.as_str());
                proof {
                    assert(model[i as int] == span@);
                    assert(model.take(i + 1).drop_last() =~= model.take(i as int));
                    assert(model.take(i + 1).last() == model[i as int]);
                }
                i = i + 1;
            }
            assert(model.take(i as int) =~= model);
            text
        },
    }
}

/// One line of a listing: the position of `word` in the program in at
/// least six decimal digits, the word in hexadecimal, its highlighted
/// binary digits if `with_bits` asks for them, and its assembly text.
pub open spec fn listing_text(index: nat, word: u32, with_bits: bool) -> Seq<char> {
    let head = decimal_padded(index, 6) + ": ["@ + hex8(word) + "] "@;
    if with_bits {
        head + "["@ + highlighted(word) + "] "@ + mnemonic(word)
    } else {
        head + mnemonic(word)
    }
}

/// Renders the line of a listing for the word at position `index`.
pub fn listing_line(index: usize, word: u32, with_bits: bool) -> (text: String)
    ensures
        text@ == listing_text(index as nat, word, with_bits),
{
    let mut text = String::new();
    push_decimal_padded(&mut text, index as u64, 6);
    text.append(": [");
    push_fixed(&mut text, word as u64, 16, 8);
    text.append("] ");
    if with_bits {
        text.append("[");
        text.append(bin_string(word).as_str());
        text.append("] ");
    }
    text.append(disassemble(word).as_str());
    assert(text@ =~= listing_text(index as nat, word, with_bits));
    text
}

} // verus!

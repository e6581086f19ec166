use crate::field::BitRange;
use crate::field::Field;
use crate::opcode::Layout;
use crate::tint::Tint;
use vstd::prelude::*;

verus! {

/// What a run of bits of an instruction word is there for.
#[derive(Clone, Copy, Debug, PartialEq, Eq, Structural)]
pub enum Role {
    /// The opcode.
    Opcode,
    /// Bits that the instruction's layout leaves unused.
    Reserved,
    /// Register A of a three-register instruction.
    RegisterA,
    /// Register B.
    RegisterB,
    /// Register C.
    RegisterC,
    /// The register that a load-value instruction writes.
    Target,
    /// The value that a load-value instruction loads.
    Immediate,
}

/// The colour in which bits of `role` are shown.
pub open spec fn tint_of(role: Role) -> Tint {
    match role {
        Role::Opcode => Tint::Fixed(208),
        Role::Reserved => Tint::Fixed(240),
        Role::RegisterA => Tint::Red,
        Role::RegisterB => Tint::Green,
        Role::RegisterC => Tint::Blue,
        Role::Target => Tint::Green,
        Role::Immediate => Tint::Purple,
    }
}

/// Picks the colour in which bits of `role` are shown.
pub fn tint_for(role: Role) -> (tint: Tint)
    ensures
        tint == tint_of(role),
{
    match role {
        Role::Opcode => Tint::Fixed(208),
        Role::Reserved => Tint::Fixed(240),
        Role::RegisterA => Tint::Red,
        Role::RegisterB => Tint::Green,
        Role::RegisterC => Tint::Blue,
        Role::Target => Tint::Green,
        Role::Immediate => Tint::Purple,
    }
}

/// The mathematical model of a span: a role and the bits that play it.
pub ghost struct SpanView {
    pub role: Role,
    pub range: BitRange,
}

/// A run of bits of an instruction word together with its role.
#[derive(Clone, Copy, Debug)]
pub struct Span {
    pub role: Role,
    pub field: Field,
}

impl View for Span {
    type V = SpanView;

    open spec fn view(&self) -> SpanView {
        SpanView { role: self.role, range: self.field@ }
    }
}

/// The span of `width` bits from bit `lsb` up, in `role`.
pub open spec fn span(role: Role, width: nat, lsb: nat) -> SpanView {
    SpanView { role, range: BitRange { width, lsb } }
}

/// The spans into which `layout` divides a word, from bit 31 down: the
/// opcode, then the operands of the layout, with what lies between or below
/// them reserved.
pub open spec fn spans_of(layout: Layout) -> Seq<SpanView> {
    let opcode = SpanView { role: Role::Opcode, range: BitRange::op() };
    let a = SpanView { role: Role::RegisterA, range: BitRange::ra() };
    let b = SpanView { role: Role::RegisterB, range: BitRange::rb() };
    let c = SpanView { role: Role::RegisterC, range: BitRange::rc() };
    match layout {
        Layout::ThreeRegister => seq![opcode, span(Role::Reserved, 19, 9), a, b, c],
        Layout::TwoRegister => seq![opcode, span(Role::Reserved, 22, 6), b, c],
        Layout::OneRegister => seq![opcode, span(Role::Reserved, 25, 3), c],
        Layout::Halt => seq![opcode, span(Role::Reserved, 28, 0)],
        Layout::Immediate => seq![
            opcode,
            SpanView { role: Role::Target, range: BitRange::rl() },
            SpanView { role: Role::Immediate, range: BitRange::vl() },
        ],
    }
}

/// The views of the spans in `spans`, in order.
pub open spec fn views(spans: Seq<Span>) -> Seq<SpanView> {
    spans.map_values(|s: Span| s@)
}

/// Divides a word of `layout` into spans, from bit 31 down.
pub fn spans_for(layout: Layout) -> (spans: Vec<Span>)
    ensures
        views(spans@) == spans_of(layout),
{
    let mut spans: Vec<Span> = Vec::new();
    spans.push(Span { role: Role::Opcode, field: Field::op() });
    match layout {
        Layout::ThreeRegister => {
            spans.push(Span { role: Role::Reserved, field: Field::spanning(19, 9) });
            spans.push(Span { role: Role::RegisterA, field: Field::ra() });
            spans.push(Span { role: Role::RegisterB, field: Field::rb() });
            spans.push(Span { role: Role::RegisterC, field: Field::rc() });
        },
        Layout::TwoRegister => {
            spans.push(Span { role: Role::Reserved, field: Field::spanning(22, 6) });
            spans.push(Span { role: Role::RegisterB, field: Field::rb() });
            spans.push(Span { role: Role::RegisterC, field: Field::rc() });
        },
        Layout::OneRegister => {
            spans.push(Span { role: Role::Reserved, field: Field::spanning(25, 3) });
            spans.push(Span { role: Role::RegisterC, field: Field::rc() });
        },
        Layout::Halt => {
            spans.push(Span { role: Role::Reserved, field: Field::spanning(28, 0) });
        },
        Layout::Immediate => {
            spans.push(Span { role: Role::Target, field: Field::rl() });
            spans.push(Span { role: Role::Immediate, field: Field::vl() });
        },
    }
    assert(views(spans@) =~= spans_of(layout));
    spans
}

/// The spans of a layout tile the word: the first one ends at bit 31, each
/// next one ends just below the one before, and the last one starts at bit
/// 0. So every bit lies in exactly one span.
pub proof fn lemma_spans_tile(layout: Layout)
    ensures
        spans_of(layout).len() >= 2,
        spans_of(layout)[0] == span(Role::Opcode, 4, 28),
        spans_of(layout).last().range.lsb == 0,
        forall|i: int|
            0 <= i < spans_of(layout).len() ==> (#[trigger] spans_of(layout)[i]).range.wf(),
        forall|i: int|
            0 < i < spans_of(layout).len() ==> {
                let upper = spans_of(layout)[i - 1].range;
                let lower = (#[trigger] spans_of(layout)[i]).range;
                lower.lsb + lower.width == upper.lsb
            },
{
}

} // verus!

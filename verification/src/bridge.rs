//! The bridge: from a structured serialization model to one primitive.
//!
//! A value of a richer serialization model expresses itself by calling one
//! of the many entry points of that model's serializer contract: scalars,
//! strings, bytes, optionals, units, sequences, tuples, maps, structs,
//! enum variants.  [`Shape`] is that opening call, reified as data by the
//! serializer impl that the surrounding application provides.  [`drive`]
//! classifies it: a primitive-shaped opening call is forwarded to the
//! visitor as the one call of the capture, and every structured one is
//! answered with [`Unsupported`] — a pure control signal — so that the
//! caller can fall back to a textual rendering of the value.  [`capture`]
//! bundles the two steps: it drives the shape and, on rejection, delivers
//! the caller's fallback text instead.

use vstd::prelude::*;

use crate::datum::Call;
use crate::datum::delivered;
use crate::datum::lemma_push_form;
use crate::visitor::Visitor;

verus! {

/// The value's shape could not be reduced to a primitive.
///
/// It carries no payload: the caller falls back to a textual rendering of
/// the original value, not of this signal.
#[derive(Debug, Clone, Copy, PartialEq)]
pub struct Unsupported;

/// The opening call a value of the richer serialization model makes on a
/// serializer, one variant per entry point of that contract.
///
/// Only the scalar-carrying variants and `Present` can be reduced to a
/// primitive; every other variant only says which structured entry point
/// was taken, since the bridge rejects it without looking further.
/// Floats cross the boundary as IEEE-754 bit patterns, already widened to
/// 64 bits by the caller.
pub enum Shape {
    /// A boolean.
    Bool(bool),
    /// An 8-bit signed integer.
    I8(i8),
    /// A 16-bit signed integer.
    I16(i16),
    /// A 32-bit signed integer.
    I32(i32),
    /// A 64-bit signed integer.
    I64(i64),
    /// An 8-bit unsigned integer.
    U8(u8),
    /// A 16-bit unsigned integer.
    U16(u16),
    /// A 32-bit unsigned integer.
    U32(u32),
    /// A 64-bit unsigned integer.
    U64(u64),
    /// A 64-bit float, as its IEEE-754 bit pattern.
    F64Bits(u64),
    /// A single character.
    Char(char),
    /// A string.
    Str(String),
    /// A raw byte buffer.
    Bytes(Vec<u8>),
    /// An optional with a value present; the payload is the opening call
    /// of the inner value.  The bridge unwraps a single level only: the
    /// inner value itself must be primitive-shaped.
    Present(Box<Shape>),
    /// An optional with no value.
    Absent,
    /// The unit value.
    Unit,
    /// A unit struct.
    UnitStruct,
    /// A unit enum variant.
    UnitVariant,
    /// A newtype struct.
    NewtypeStruct,
    /// A newtype enum variant.
    NewtypeVariant,
    /// A sequence.
    Sequence,
    /// A tuple.
    Tuple,
    /// A tuple struct.
    TupleStruct,
    /// A tuple enum variant.
    TupleVariant,
    /// A map.
    Mapping,
    /// A struct.
    Struct,
    /// A struct enum variant.
    StructVariant,
    /// A request to collect the value from its display-style text.
    /// Rejected: accepting it would swallow arbitrarily large structured
    /// output as an opaque string instead of signalling the caller.
    CollectStr,
}

/// The one call a scalar-carrying shape delivers, widened losslessly, or
/// nothing for every other shape — `Present` included, since an optional
/// is not itself a scalar.
pub open spec fn scalar_call(s: Shape) -> Option<Call> {
    match s {
        Shape::Bool(v) => Some(Call::Bool(v)),
        Shape::I8(v) => Some(Call::I64(v as i64)),
        Shape::I16(v) => Some(Call::I64(v as i64)),
        Shape::I32(v) => Some(Call::I64(v as i64)),
        Shape::I64(v) => Some(Call::I64(v)),
        Shape::U8(v) => Some(Call::U64(v as u64)),
        Shape::U16(v) => Some(Call::U64(v as u64)),
        Shape::U32(v) => Some(Call::U64(v as u64)),
        Shape::U64(v) => Some(Call::U64(v)),
        Shape::F64Bits(v) => Some(Call::F64Bits(v)),
        Shape::Char(v) => Some(Call::Char(v)),
        Shape::Str(v) => Some(Call::Str(v@)),
        Shape::Bytes(v) => Some(Call::Bytes(v@)),
        _ => None::<Call>,
    }
}

/// What a shape reduces to: the one call it delivers if it is
/// primitive-shaped, widened losslessly, or nothing if it is structured.
/// An optional-present shape reduces as its inner value does, a single
/// level only: the inner value must itself be scalar-shaped, so a nested
/// optional or a structured inner value reduces to nothing.
pub open spec fn reduction(s: Shape) -> Option<Call> {
    match s {
        Shape::Present(inner) => scalar_call(*inner),
        _ => scalar_call(s),
    }
}

/// Drive one opening call through the bridge: forward a primitive-shaped
/// call to the visitor and reject a structured one.
///
/// Exactly one of two outcomes: if the shape reduces to a call, that one
/// call is delivered and the result is `Ok`; otherwise the visitor is not
/// called at all and the result is `Err(Unsupported)`.
pub fn drive<V: Visitor>(s: &Shape, visitor: &mut V) -> (r: Result<(), Unsupported>)
    ensures
        match reduction(*s) {
            Some(c) => r == Ok::<(), Unsupported>(()) && delivered(
                old(visitor).received(),
                final(visitor).received(),
                c,
                old(visitor).records_char(),
            ),
            None => r == Err::<(), Unsupported>(Unsupported) && final(visitor).received() == old(
                visitor,
            ).received(),
        },
{
    match s {
        Shape::Present(inner) => forward_scalar(inner, visitor),
        _ => forward_scalar(s, visitor),
    }
}

/// Forward one scalar-carrying shape to the visitor; reject every other
/// shape, an optional included.
fn forward_scalar<V: Visitor>(s: &Shape, visitor: &mut V) -> (r: Result<(), Unsupported>)
    ensures
        match scalar_call(*s) {
            Some(c) => r == Ok::<(), Unsupported>(()) && delivered(
                old(visitor).received(),
                final(visitor).received(),
                c,
                old(visitor).records_char(),
            ),
            None => r == Err::<(), Unsupported>(Unsupported) && final(visitor).received() == old(
                visitor,
            ).received(),
        },
{
    match s {
        Shape::Bool(v) => {
            visitor.visit_bool(*v);
            Ok(())
        },
        Shape::I8(v) => {
            visitor.visit_i64(*v as i64);
            Ok(())
        },
        Shape::I16(v) => {
            visitor.visit_i64(*v as i64);
            Ok(())
        },
        Shape::I32(v) => {
            visitor.visit_i64(*v as i64);
            Ok(())
        },
        Shape::I64(v) => {
            visitor.visit_i64(*v);
            Ok(())
        },
        Shape::U8(v) => {
            visitor.visit_u64(*v as u64);
            Ok(())
        },
        Shape::U16(v) => {
            visitor.visit_u64(*v as u64);
            Ok(())
        },
        Shape::U32(v) => {
            visitor.visit_u64(*v as u64);
            Ok(())
        },
        Shape::U64(v) => {
            visitor.visit_u64(*v);
            Ok(())
        },
        Shape::F64Bits(v) => {
            visitor.visit_f64(*v);
            Ok(())
        },
        Shape::Char(v) => {
            visitor.visit_char(*v);
            proof {
                lemma_push_form(old(visitor).received(), visitor.received());
                if old(visitor).records_char() {
                    match visitor.received().last() {
                        Call::Char(cc) => {
                            assert(seq![cc][0] == seq![*v][0]);
                            assert(cc == *v);
                        },
                        _ => {
                            assert(false);
                        },
                    }
                }
            }
            Ok(())
        },
        Shape::Str(v) => {
            visitor.visit_str(v.as_str());
            Ok(())
        },
        Shape::Bytes(v) => {
            visitor.visit_bytes(v.as_slice());
            Ok(())
        },
        _ => Err(Unsupported),
    }
}

/// Capture one value through the bridge, falling back to text.
///
/// The shape is driven through the bridge; if it is rejected, the caller's
/// pre-rendered fallback text is delivered instead.  Either way the
/// visitor receives exactly one call.
pub fn capture<V: Visitor>(s: &Shape, fallback: &str, visitor: &mut V)
    ensures
        final(visitor).received().len() == old(visitor).received().len() + 1,
        match reduction(*s) {
            Some(c) => delivered(
                old(visitor).received(),
                final(visitor).received(),
                c,
                old(visitor).records_char(),
            ),
            None => final(visitor).received() == old(visitor).received().push(
                Call::Args(fallback@),
            ),
        },
{
    if let Err(Unsupported) = drive(s, visitor) {
        visitor.visit_args(fallback);
    }
}

/// Optional transparency: an optional-present value whose inner value is
/// not itself an optional reduces exactly as the inner value does, so
/// capturing it delivers the same call as capturing the inner value
/// directly.
pub proof fn lemma_present_transparent(inner: Box<Shape>)
    requires
        !((*inner) is Present),
    ensures
        reduction(Shape::Present(inner)) == reduction(*inner),
{
}

/// The unwrapping is a single level only: an optional-present value whose
/// inner value is again an optional is rejected, like any other
/// non-scalar inner value.
pub proof fn lemma_nested_present_rejected(inner: Box<Shape>)
    requires
        (*inner) is Present,
    ensures
        reduction(Shape::Present(inner)) is None,
{
}

/// Fallback determinism: what a rejected value adds to the log is the
/// fallback call of the given text, and nothing else.  Two captures of
/// equal unsupported shapes with equal fallback text therefore record
/// equal calls, whatever the logs held before — repeated captures are
/// idempotent in what they deliver.
pub proof fn lemma_fallback_deterministic(
    s: Shape,
    t: Seq<char>,
    log0: Seq<Call>,
    log1: Seq<Call>,
    log2: Seq<Call>,
)
    requires
        reduction(s) is None,
        log1 == log0.push(Call::Args(t)),
        log2 == log1.push(Call::Args(t)),
    ensures
        log1.last() == log2.last(),
        log2 == log0 + seq![Call::Args(t), Call::Args(t)],
{
    assert(log2 =~= log0 + seq![Call::Args(t), Call::Args(t)]);
}

} // verus!

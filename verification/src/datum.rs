//! The primitive data a capture can deliver.
//!
//! A capture reduces one value to at most one call on a visitor.  [`Call`]
//! is the specification-level record of such a call; [`Datum`] is its
//! executable twin, suitable for storing in a recording visitor.  Floats
//! cross this boundary as their IEEE-754 bit patterns, already widened to
//! 64 bits by the caller.

use vstd::prelude::*;

verus! {

/// One call received by a visitor, at the specification level.
///
/// `Str` and `Args` both carry text; `Str` is a string delivered as a
/// primitive in its own right, while `Args` is the textual fallback for a
/// value that could not be reduced to a primitive.
pub enum Call {
    /// A signed integer, widened to 64 bits.
    I64(i64),
    /// An unsigned integer, widened to 64 bits.
    U64(u64),
    /// A floating point number, widened to 64 bits, as its bit pattern.
    F64Bits(u64),
    /// A boolean.
    Bool(bool),
    /// A single character.
    Char(char),
    /// A string.
    Str(Seq<char>),
    /// A raw byte buffer.
    Bytes(Seq<u8>),
    /// Pre-rendered fallback text.
    Args(Seq<char>),
}

/// One call received by a visitor, as executable data.
///
/// Its view is the matching [`Call`].
#[derive(Debug, Clone, PartialEq)]
pub enum Datum {
    /// A signed integer, widened to 64 bits.
    I64(i64),
    /// An unsigned integer, widened to 64 bits.
    U64(u64),
    /// A floating point number, widened to 64 bits, as its bit pattern.
    F64Bits(u64),
    /// A boolean.
    Bool(bool),
    /// A single character.
    Char(char),
    /// A string.
    Str(String),
    /// A raw byte buffer.
    Bytes(Vec<u8>),
    /// Pre-rendered fallback text.
    Args(String),
}

impl View for Datum {
    type V = Call;

    open spec fn view(&self) -> Call {
        match self {
            Datum::I64(v) => Call::I64(*v),
            Datum::U64(v) => Call::U64(*v),
            Datum::F64Bits(v) => Call::F64Bits(*v),
            Datum::Bool(v) => Call::Bool(*v),
            Datum::Char(v) => Call::Char(*v),
            Datum::Str(s) => Call::Str(s@),
            Datum::Bytes(b) => Call::Bytes(b@),
            Datum::Args(s) => Call::Args(s@),
        }
    }
}

/// The calls recorded by a sequence of data, in order.
pub open spec fn call_seq(ds: Seq<Datum>) -> Seq<Call> {
    Seq::new(ds.len(), |i: int| ds[i]@)
}

/// How a visitor records the delivery of call `c`.  Every call but a
/// character is recorded as itself.  A character is recorded as itself by
/// a visitor that handles characters directly (`direct`), and as the
/// one-character string it expands to by one that re-expresses them
/// through its string operation.
pub open spec fn delivered(pre: Seq<Call>, post: Seq<Call>, c: Call, direct: bool) -> bool {
    match c {
        Call::Char(ch) => post == pre.push(
            if direct {
                c
            } else {
                Call::Str(seq![ch])
            },
        ),
        _ => post == pre.push(c),
    }
}

/// A log that grew by one call, its earlier entries kept, is the old log
/// with the new last call pushed.
pub proof fn lemma_push_form(pre: Seq<Call>, post: Seq<Call>)
    requires
        post.len() == pre.len() + 1,
        post.drop_last() == pre,
    ensures
        post == pre.push(post.last()),
{
    assert(post =~= pre.push(post.last()));
}

/// For every call but a character, and for a character delivered to a
/// visitor that handles characters directly, the delivery is exact: the
/// log grows by precisely the call made, so a capture yields one visitor
/// call of the matching kind with the value unchanged.
pub proof fn lemma_delivered_exact(pre: Seq<Call>, post: Seq<Call>, c: Call, direct: bool)
    requires
        delivered(pre, post, c, direct),
        direct || !(c is Char),
    ensures
        post == pre.push(c),
{
}

/// A delivery is a function of the log before it, the call made, and the
/// visitor's character mode: two deliveries of the same call from the
/// same state leave equal logs.
pub proof fn lemma_delivered_functional(
    pre: Seq<Call>,
    post1: Seq<Call>,
    post2: Seq<Call>,
    c: Call,
    direct: bool,
)
    requires
        delivered(pre, post1, c, direct),
        delivered(pre, post2, c, direct),
    ensures
        post1 == post2,
{
}

/// A delivery extends the log of received calls by exactly one call and
/// leaves every earlier entry unchanged: a capture makes at most one
/// visitor call.
pub proof fn lemma_delivered_single_call(pre: Seq<Call>, post: Seq<Call>, c: Call, direct: bool)
    requires
        delivered(pre, post, c, direct),
    ensures
        post.len() == pre.len() + 1,
        post.subrange(0, pre.len() as int) == pre,
{
    assert(post.subrange(0, pre.len() as int) =~= pre);
}

} // verus!

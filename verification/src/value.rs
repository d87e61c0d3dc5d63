//! Capturable values: the closed set of primitive types.
//!
//! Each type in the fixed set below implements [`Visit`] and delivers
//! itself to a visitor with exactly one call of the matching kind, the
//! value widened losslessly where it is narrower than 64 bits.  A borrowed
//! reference to a capturable value is itself capturable and delegates
//! unchanged.  The set is closed: the sealing marker supertrait lives in
//! a private module, so no outside crate can implement [`Visit`], and the
//! visitor's dispatch can assume exactly these cases.

use vstd::prelude::*;

use crate::datum::Call;
use crate::datum::delivered;
use crate::datum::lemma_delivered_functional;
use crate::datum::lemma_push_form;
use crate::sealed::VisitPrivate;
use crate::visitor::Visitor;

verus! {

/// A value that can be captured: reduced to exactly one primitive call on
/// a visitor.
///
/// It is only implemented for the fixed set of primitive types and for
/// references to them.
pub trait Visit: VisitPrivate {
    /// The call this value delivers.
    spec fn token(&self) -> Call;

    /// Visit the value with the given visitor.
    fn visit<V: Visitor>(&self, visitor: &mut V)
        ensures
            delivered(
                old(visitor).received(),
                final(visitor).received(),
                self.token(),
                old(visitor).records_char(),
            ),
    ;
}

impl VisitPrivate for u8 {
}

impl Visit for u8 {
    open spec fn token(&self) -> Call {
        Call::U64(*self as u64)
    }

    fn visit<V: Visitor>(&self, visitor: &mut V) {
        visitor.visit_u64(*self as u64);
    }
}

impl VisitPrivate for u16 {
}

impl Visit for u16 {
    open spec fn token(&self) -> Call {
        Call::U64(*self as u64)
    }

    fn visit<V: Visitor>(&self, visitor: &mut V) {
        visitor.visit_u64(*self as u64);
    }
}

impl VisitPrivate for u32 {
}

impl Visit for u32 {
    open spec fn token(&self) -> Call {
        Call::U64(*self as u64)
    }

    fn visit<V: Visitor>(&self, visitor: &mut V) {
        visitor.visit_u64(*self as u64);
    }
}

impl VisitPrivate for u64 {
}

impl Visit for u64 {
    open spec fn token(&self) -> Call {
        Call::U64(*self)
    }

    fn visit<V: Visitor>(&self, visitor: &mut V) {
        visitor.visit_u64(*self);
    }
}

impl VisitPrivate for i8 {
}

impl Visit for i8 {
    open spec fn token(&self) -> Call {
        Call::I64(*self as i64)
    }

    fn visit<V: Visitor>(&self, visitor: &mut V) {
        visitor.visit_i64(*self as i64);
    }
}

impl VisitPrivate for i16 {
}

impl Visit for i16 {
    open spec fn token(&self) -> Call {
        Call::I64(*self as i64)
    }

    fn visit<V: Visitor>(&self, visitor: &mut V) {
        visitor.visit_i64(*self as i64);
    }
}

impl VisitPrivate for i32 {
}

impl Visit for i32 {
    open spec fn token(&self) -> Call {
        Call::I64(*self as i64)
    }

    fn visit<V: Visitor>(&self, visitor: &mut V) {
        visitor.visit_i64(*self as i64);
    }
}

impl VisitPrivate for i64 {
}

impl Visit for i64 {
    open spec fn token(&self) -> Call {
        Call::I64(*self)
    }

    fn visit<V: Visitor>(&self, visitor: &mut V) {
        visitor.visit_i64(*self);
    }
}

impl VisitPrivate for bool {
}

impl Visit for bool {
    open spec fn token(&self) -> Call {
        Call::Bool(*self)
    }

    fn visit<V: Visitor>(&self, visitor: &mut V) {
        visitor.visit_bool(*self);
    }
}

impl VisitPrivate for char {
}

impl Visit for char {
    open spec fn token(&self) -> Call {
        Call::Char(*self)
    }

    fn visit<V: Visitor>(&self, visitor: &mut V) {
        visitor.visit_char(*self);
        proof {
            lemma_push_form(old(visitor).received(), visitor.received());
            if old(visitor).records_char() {
                match visitor.received().last() {
                    Call::Char(cc) => {
                        assert(seq![cc] == seq![*self]);
                        assert(seq![cc][0] == seq![*self][0]);
                        assert(cc == *self);
                    },
                    _ => {
                        assert(false);
                    },
                }
            }
        }
    }
}

impl VisitPrivate for str {
}

impl Visit for str {
    open spec fn token(&self) -> Call {
        Call::Str(self@)
    }

    fn visit<V: Visitor>(&self, visitor: &mut V) {
        visitor.visit_str(self);
    }
}

impl VisitPrivate for String {
}

impl Visit for String {
    open spec fn token(&self) -> Call {
        Call::Str(self@)
    }

    fn visit<V: Visitor>(&self, visitor: &mut V) {
        visitor.visit_str(self.as_str());
    }
}

impl VisitPrivate for [u8] {
}

impl Visit for [u8] {
    open spec fn token(&self) -> Call {
        Call::Bytes(self@)
    }

    fn visit<V: Visitor>(&self, visitor: &mut V) {
        visitor.visit_bytes(self);
    }
}

impl VisitPrivate for Vec<u8> {
}

impl Visit for Vec<u8> {
    open spec fn token(&self) -> Call {
        Call::Bytes(self@)
    }

    fn visit<V: Visitor>(&self, visitor: &mut V) {
        visitor.visit_bytes(self.as_slice());
    }
}

impl<'a, T: Visit + ?Sized> VisitPrivate for &'a T {
}

impl<'a, T: Visit + ?Sized> Visit for &'a T {
    open spec fn token(&self) -> Call {
        (**self).token()
    }

    fn visit<V: Visitor>(&self, visitor: &mut V) {
        (**self).visit(visitor);
    }
}

/// Reference transparency: a borrowed reference delivers exactly the call
/// the value it borrows delivers.
pub proof fn lemma_ref_transparent<T: Visit + ?Sized>(v: &T)
    ensures
        <&T as Visit>::token(&v) == v.token(),
{
}

/// Reference transparency of whole captures: visiting a borrowed
/// reference and visiting the value directly, from the same visitor
/// state, leave the visitor's log equal — same call, same count, same
/// outcome.
pub proof fn lemma_ref_capture_equal<T: Visit + ?Sized>(
    v: &T,
    pre: Seq<Call>,
    post_direct: Seq<Call>,
    post_ref: Seq<Call>,
    direct: bool,
)
    requires
        delivered(pre, post_direct, v.token(), direct),
        delivered(pre, post_ref, <&T as Visit>::token(&v), direct),
    ensures
        post_direct == post_ref,
{
    lemma_delivered_functional(pre, post_direct, post_ref, v.token(), direct);
}

} // verus!

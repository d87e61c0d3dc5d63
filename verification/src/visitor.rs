//! The visitor: the sink a capture delivers to.
//!
//! A [`Visitor`] receives at most one `visit_*` call per capture.  Each
//! method's contract records the call in a ghost log, and `records_char`
//! says whether the sink handles characters directly or re-expresses them
//! as one-character strings, so that the drivers in [`crate::value`] and
//! [`crate::bridge`] can state exactly what a capture delivered.
//! [`Recorder`] keeps the received data as executable values as well;
//! [`TextRecorder`] does the same but does not special-case characters:
//! it routes them through its string operation.

use vstd::prelude::*;

use crate::datum::Call;
use crate::datum::Datum;
use crate::datum::call_seq;

verus! {

/// Relies on `String::from(char)`: the returned string holds exactly the
/// one character given.
#[verifier::external_body]
fn char_to_string(c: char) -> (r: String)
    ensures
        r@ == seq![c],
{
    String::from(c)
}

/// A sink for primitive values.
///
/// Each capture makes at most one call on the visitor; what the sink does
/// with the value (format it, store it, forward it) is the sink's own
/// business, but the ghost log `received` records every call delivered.
/// Floats arrive as 64-bit IEEE-754 bit patterns; `visit_args` carries the
/// pre-rendered fallback text for a value that was not primitive-shaped.
pub trait Visitor {
    /// The calls this visitor has received, in order.
    spec fn received(&self) -> Seq<Call>;

    /// Whether this sink handles characters directly.  A sink for which
    /// this is false re-expresses each character as the one-character
    /// string it expands to and records that instead.
    spec fn records_char(&self) -> bool;

    /// Visit a signed integer.
    fn visit_i64(&mut self, v: i64)
        ensures
            final(self).received() == old(self).received().push(Call::I64(v)),
    ;

    /// Visit an unsigned integer.
    fn visit_u64(&mut self, v: u64)
        ensures
            final(self).received() == old(self).received().push(Call::U64(v)),
    ;

    /// Visit a floating point number, given as its IEEE-754 bit pattern.
    fn visit_f64(&mut self, bits: u64)
        ensures
            final(self).received() == old(self).received().push(Call::F64Bits(bits)),
    ;

    /// Visit a boolean.
    fn visit_bool(&mut self, v: bool)
        ensures
            final(self).received() == old(self).received().push(Call::Bool(v)),
    ;

    /// Visit a single character: a sink that handles characters directly
    /// (`records_char`) receives the character itself, any other sink the
    /// one-character string it expands to, routed through its string
    /// operation.  This is the only operation that may re-dispatch to
    /// another operation.  The recorded character is pinned through the
    /// one-character sequence it forms, which determines it uniquely.
    fn visit_char(&mut self, v: char)
        ensures
            final(self).received().len() == old(self).received().len() + 1,
            final(self).received().drop_last() == old(self).received(),
            old(self).records_char() ==> (final(self).received().last() matches Call::Char(c)
                && seq![c] == seq![v]),
            !old(self).records_char() ==> final(self).received().last() == Call::Str(seq![v]),
    ;

    /// Visit a UTF-8 string.
    fn visit_str(&mut self, v: &str)
        ensures
            final(self).received() == old(self).received().push(Call::Str(v@)),
    ;

    /// Visit a raw byte buffer.
    fn visit_bytes(&mut self, v: &[u8])
        ensures
            final(self).received() == old(self).received().push(Call::Bytes(v@)),
    ;

    /// Visit pre-rendered fallback text for a value that could not be
    /// reduced to a primitive.
    fn visit_args(&mut self, v: &str)
        ensures
            final(self).received() == old(self).received().push(Call::Args(v@)),
    ;
}

/// A visitor that stores every call it receives, one [`Datum`] per call.
pub struct Recorder {
    /// The data received, in order.
    pub calls: Vec<Datum>,
}

impl Recorder {
    /// A recorder that has received nothing yet.
    pub fn new() -> (r: Recorder)
        ensures
            r.received() == Seq::<Call>::empty(),
            r.calls@ == Seq::<Datum>::empty(),
    {
        let r = Recorder { calls: Vec::new() };
        proof {
            assert(call_seq(r.calls@) =~= Seq::<Call>::empty());
        }
        r
    }

    /// Record one character datum.
    fn record_char(&mut self, v: char)
        ensures
            call_seq(final(self).calls@).len() == call_seq(old(self).calls@).len() + 1,
            call_seq(final(self).calls@).drop_last() == call_seq(old(self).calls@),
            call_seq(final(self).calls@).last() matches Call::Char(c) && seq![c] == seq![v],
    {
        self.calls.push(Datum::Char(v));
        proof {
            assert(call_seq(self.calls@) =~= call_seq(old(self).calls@).push(Call::Char(v)));
            assert(call_seq(self.calls@).drop_last() =~= call_seq(old(self).calls@));
        }
    }
}

impl Visitor for Recorder {
    open spec fn received(&self) -> Seq<Call> {
        call_seq(self.calls@)
    }

    open spec fn records_char(&self) -> bool {
        true
    }

    fn visit_i64(&mut self, v: i64) {
        self.calls.push(Datum::I64(v));
        proof {
            assert(call_seq(self.calls@) =~= call_seq(old(self).calls@).push(Call::I64(v)));
        }
    }

    fn visit_u64(&mut self, v: u64) {
        self.calls.push(Datum::U64(v));
        proof {
            assert(call_seq(self.calls@) =~= call_seq(old(self).calls@).push(Call::U64(v)));
        }
    }

    fn visit_f64(&mut self, bits: u64) {
        self.calls.push(Datum::F64Bits(bits));
        proof {
            assert(call_seq(self.calls@) =~= call_seq(old(self).calls@).push(Call::F64Bits(bits)));
        }
    }

    fn visit_bool(&mut self, v: bool) {
        self.calls.push(Datum::Bool(v));
        proof {
            assert(call_seq(self.calls@) =~= call_seq(old(self).calls@).push(Call::Bool(v)));
        }
    }

    /// The recorder handles characters directly and records the
    /// character itself.
    fn visit_char(&mut self, v: char)
        ensures
            final(self).received().last() matches Call::Char(c) && seq![c] == seq![v],
    {
        self.record_char(v);
    }

    fn visit_str(&mut self, v: &str) {
        self.calls.push(Datum::Str(v.to_string()));
        proof {
            assert(call_seq(self.calls@) =~= call_seq(old(self).calls@).push(Call::Str(v@)));
        }
    }

    fn visit_bytes(&mut self, v: &[u8]) {
        self.calls.push(Datum::Bytes(vstd::slice::slice_to_vec(v)));
        proof {
            assert(call_seq(self.calls@) =~= call_seq(old(self).calls@).push(Call::Bytes(v@)));
        }
    }

    fn visit_args(&mut self, v: &str) {
        self.calls.push(Datum::Args(v.to_string()));
        proof {
            assert(call_seq(self.calls@) =~= call_seq(old(self).calls@).push(Call::Args(v@)));
        }
    }
}

/// A visitor that stores every call it receives but does not special-case
/// characters: it records a character as the one-character string it
/// expands to, routed through its string operation.
pub struct TextRecorder {
    /// The data received, in order.
    pub calls: Vec<Datum>,
}

impl TextRecorder {
    /// A recorder that has received nothing yet.
    pub fn new() -> (r: TextRecorder)
        ensures
            r.received() == Seq::<Call>::empty(),
            r.calls@ == Seq::<Datum>::empty(),
    {
        let r = TextRecorder { calls: Vec::new() };
        proof {
            assert(call_seq(r.calls@) =~= Seq::<Call>::empty());
        }
        r
    }
}

impl Visitor for TextRecorder {
    open spec fn received(&self) -> Seq<Call> {
        call_seq(self.calls@)
    }

    open spec fn records_char(&self) -> bool {
        false
    }

    /// Re-expresses the character as a one-character string.
    fn visit_char(&mut self, v: char)
        ensures
            final(self).received() == old(self).received().push(Call::Str(seq![v])),
    {
        let s = char_to_string(v);
        self.visit_str(s.as_str());
    }

    fn visit_i64(&mut self, v: i64) {
        self.calls.push(Datum::I64(v));
        proof {
            assert(call_seq(self.calls@) =~= call_seq(old(self).calls@).push(Call::I64(v)));
        }
    }

    fn visit_u64(&mut self, v: u64) {
        self.calls.push(Datum::U64(v));
        proof {
            assert(call_seq(self.calls@) =~= call_seq(old(self).calls@).push(Call::U64(v)));
        }
    }

    fn visit_f64(&mut self, bits: u64) {
        self.calls.push(Datum::F64Bits(bits));
        proof {
            assert(call_seq(self.calls@) =~= call_seq(old(self).calls@).push(Call::F64Bits(bits)));
        }
    }

    fn visit_bool(&mut self, v: bool) {
        self.calls.push(Datum::Bool(v));
        proof {
            assert(call_seq(self.calls@) =~= call_seq(old(self).calls@).push(Call::Bool(v)));
        }
    }

    fn visit_str(&mut self, v: &str) {
        self.calls.push(Datum::Str(v.to_string()));
        proof {
            assert(call_seq(self.calls@) =~= call_seq(old(self).calls@).push(Call::Str(v@)));
        }
    }

    fn visit_bytes(&mut self, v: &[u8]) {
        self.calls.push(Datum::Bytes(vstd::slice::slice_to_vec(v)));
        proof {
            assert(call_seq(self.calls@) =~= call_seq(old(self).calls@).push(Call::Bytes(v@)));
        }
    }

    fn visit_args(&mut self, v: &str) {
        self.calls.push(Datum::Args(v.to_string()));
        proof {
            assert(call_seq(self.calls@) =~= call_seq(old(self).calls@).push(Call::Args(v@)));
        }
    }
}

} // verus!

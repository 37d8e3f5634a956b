//! A small demonstration library whose items exercise the daemon: a trait
//! with an implementor, a struct with inherent methods, a generic struct,
//! and a trait with an associated type.

use vstd::prelude::*;
use crate::chars::from_chars;
use crate::codec_prim::{dec_u64, emit_raw, emit_u64};

verus! {

/// The decimal spelling of a signed value.
pub open spec fn dec_i64(n: int) -> Seq<char> {
    if n < 0 {
        seq!['-'] + dec_u64(-n)
    } else {
        dec_u64(n)
    }
}

/// The decimal spelling of `n`, as a string.
pub fn render_i64(n: i64) -> (r: String)
    ensures
        r@ == dec_i64(n as int),
{
    let mut out: Vec<char> = Vec::new();
    if n < 0 {
        out.push('-');
        let m: u64 = ((-(n + 1)) as u64) + 1;
        emit_u64(&mut out, m);
        proof {
            assert(out@ =~= seq!['-'] + dec_u64(m as int));
        }
    } else {
        emit_u64(&mut out, n as u64);
        proof {
            assert(out@ =~= dec_u64(n as int));
        }
    }
    from_chars(out.as_slice())
}

/// A simple trait for demonstration: each implementor says what message
/// it produces, and `do_something` returns exactly that message.
pub trait MyTrait {
    spec fn message_spec(&self) -> Seq<char>;

    fn do_something(&self) -> (r: String)
        ensures
            r@ == self.message_spec(),
    ;
}

/// A struct that implements `MyTrait`.
pub struct Foo {
    pub value: i32,
}

impl MyTrait for Foo {
    /// A message naming the held value.
    open spec fn message_spec(&self) -> Seq<char> {
        "Foo does something with value: "@ + dec_i64(self.value as int)
    }

    fn do_something(&self) -> (r: String) {
        let mut out: Vec<char> = Vec::new();
        emit_raw(&mut out, "Foo does something with value: ");
        let rendered = render_i64(self.value as i64);
        emit_raw(&mut out, rendered.as_str());
        from_chars(out.as_slice())
    }
}

/// A struct with inherent methods.
pub struct Bar {
    name: String,
}

impl Bar {
    /// The held name, for specification.
    pub closed spec fn spec_name(self) -> Seq<char> {
        self.name@
    }

    /// A `Bar` holding `name`.
    pub fn new(name: String) -> (r: Self)
        ensures
            r.spec_name() == name@,
    {
        Bar { name }
    }

    /// The held name.
    pub fn get_name(&self) -> (r: &str)
        ensures
            r@ == self.spec_name(),
    {
        self.name.as_str()
    }

    /// Replace the held name.
    pub fn set_name(&mut self, name: String)
        ensures
            final(self).spec_name() == name@,
    {
        self.name = name;
    }
}

/// A generic struct.
pub struct Baz<T> {
    pub data: T,
}

impl<T> Baz<T> {
    /// A `Baz` holding `data`.
    pub fn new(data: T) -> (r: Self)
        ensures
            r.data == data,
    {
        Baz { data }
    }

    /// Give the held value back.
    pub fn into_inner(self) -> (r: T)
        ensures
            r == self.data,
    {
        self.data
    }
}

/// Another trait, with an associated type: each implementor says what
/// holds of a transformed value, and `transform` returns such a value.
pub trait AnotherTrait {
    type Output;

    spec fn transform_post(&self, r: Self::Output) -> bool;

    fn transform(&self) -> (r: Self::Output)
        ensures
            self.transform_post(r),
    ;
}

impl AnotherTrait for i32 {
    type Output = String;

    /// A message naming the number.
    open spec fn transform_post(&self, r: String) -> bool {
        r@ == "Number: "@ + dec_i64(*self as int)
    }

    fn transform(&self) -> (r: String) {
        let mut out: Vec<char> = Vec::new();
        emit_raw(&mut out, "Number: ");
        let rendered = render_i64(*self as i64);
        emit_raw(&mut out, rendered.as_str());
        from_chars(out.as_slice())
    }
}

} // verus!

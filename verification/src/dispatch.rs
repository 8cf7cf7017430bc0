//! Greeting traits and string-length helpers built around the different
//! dispatch styles Rust offers: monomorphized generics, trait bounds, and
//! slices of implementors.
//!
//! The greeting methods return the greeting as a `String`; printing it is
//! left to the caller, outside this library.

use vstd::prelude::*;
use vstd::string::StringExecFns;
use vstd::string::StringSliceAdditionalSpecFns;

verus! {

/// The number of bytes in the UTF-8 encoding of a text: a function of
/// its characters alone.
pub uninterp spec fn utf8_len(s: Seq<char>) -> nat;

/// Relies on `str::len`: the length in bytes of the UTF-8 encoding of
/// the text — a function of its characters alone, and the length of the
/// byte sequence that vstd's own specification of `str::len` returns.
#[verifier::external_body]
fn str_byte_len(s: &str) -> (n: usize)
    ensures
        n == utf8_len(s@),
        n == s.spec_bytes().len(),
{
    s.len()
}

/// The length in bytes of a borrowed string slice.
pub fn strlen(s: &str) -> (n: usize)
    ensures
        n == utf8_len(s@),
        n == s.spec_bytes().len(),
{
    str_byte_len(s)
}

/// The length in bytes of a borrowed string slice; the same computation
/// as [`strlen`], kept as its own entry point.
pub fn strlen2(s: &str) -> (n: usize)
    ensures
        n == utf8_len(s@),
        n == s.spec_bytes().len(),
{
    str_byte_len(s)
}

/// Measures a string literal both as a borrowed slice and as an owned
/// `String`: both routes agree.
pub fn foo() -> (n: usize)
    ensures
        n == 0,
{
    let a = strlen("hello");
    let s = String::from_str("hello");
    let b = strlen_string(s);
    if a == b {
        0
    } else {
        1
    }
}

/// The length in bytes of a borrowed string slice.
pub fn strlen_refstr(s: &str) -> (n: usize)
    ensures
        n == utf8_len(s@),
        n == s.spec_bytes().len(),
{
    str_byte_len(s)
}

/// The length in bytes of an owned string.
pub fn strlen_string(s: String) -> (n: usize)
    ensures
        n == utf8_len(s@),
{
    str_byte_len(s.as_str())
}

/// Something that can greet: `spec_hello` is the greeting as a value,
/// `hello` computes it.
pub trait Hello {
    /// The greeting this value produces.
    spec fn spec_hello(&self) -> Seq<char>;

    /// Computes the greeting.
    fn hello(&self) -> (r: String)
        ensures
            r@ == self.spec_hello(),
    ;
}

impl Hello for &str {
    open spec fn spec_hello(&self) -> Seq<char> {
        "hello "@ + self@
    }

    fn hello(&self) -> (r: String) {
        String::from_str("hello ").concat(*self)
    }
}

/// Greets the literal `"J"`.
pub fn foo2() -> (r: String)
    ensures
        r@ == "hello "@ + "J"@,
{
    "J".hello()
}

/// Static dispatch: the greeter's type is fixed at the call site.
pub fn bar<H: Hello>(h: H) -> (r: String)
    ensures
        r@ == h.spec_hello(),
{
    h.hello()
}

/// Greets every element of a slice, in order.
pub fn bar2<H: Hello>(s: &[H]) -> (r: Vec<String>)
    ensures
        r@.len() == s@.len(),
        forall|i: int| 0 <= i < s@.len() ==> r@[i]@ == s@[i].spec_hello(),
{
    let mut r: Vec<String> = Vec::new();
    let mut k: usize = 0;
    while k < s.len()
        invariant
            k <= s@.len(),
            r@.len() == k,
            forall|i: int| 0 <= i < k ==> r@[i]@ == s@[i].spec_hello(),
        decreases s@.len() - k,
    {
        r.push(s[k].hello());
        k = k + 1;
    }
    r
}

/// Greets two literals through [`bar2`].
pub fn foo4() -> (r: Vec<String>)
    ensures
        r@.len() == 2,
        r@[0]@ == "hello "@ + "Hi"@,
        r@[1]@ == "hello "@ + "Hello!"@,
{
    let v: Vec<&str> = vec!["Hi", "Hello!"];
    bar2(v.as_slice())
}

/// Greets every referenced element of a slice, in order.
pub fn bar3<H: Hello>(s: &[&H]) -> (r: Vec<String>)
    ensures
        r@.len() == s@.len(),
        forall|i: int| 0 <= i < s@.len() ==> r@[i]@ == s@[i].spec_hello(),
{
    let mut r: Vec<String> = Vec::new();
    let mut k: usize = 0;
    while k < s.len()
        invariant
            k <= s@.len(),
            r@.len() == k,
            forall|i: int| 0 <= i < k ==> r@[i]@ == s@[i].spec_hello(),
        decreases s@.len() - k,
    {
        r.push(s[k].hello());
        k = k + 1;
    }
    r
}

/// Greets through a reference whose concrete type the body never names.
pub fn say_hello<H: Hello>(s: &H) -> (r: String)
    ensures
        r@ == s.spec_hello(),
{
    s.hello()
}

/// A greeting trait with a provided method and a method without a
/// receiver, the shapes that resist dynamic dispatch.
pub trait Hello2 {
    /// The greeting this value produces.
    spec fn spec_hello2(&self) -> Seq<char>;

    /// Delegates to the receiverless method by default.
    fn weird(&self) -> (r: String);

    /// A method without a receiver.
    fn weird_static() -> (r: String) where Self: Sized;

    /// Computes the greeting.
    fn hello2(&self) -> (r: String)
        ensures
            r@ == self.spec_hello2(),
    ;
}

impl Hello2 for &str {
    open spec fn spec_hello2(&self) -> Seq<char> {
        "hello "@ + self@
    }

    fn weird(&self) -> (r: String) {
        Self::weird_static()
    }

    fn weird_static() -> (r: String) {
        String::from_str("FOR STR!")
    }

    fn hello2(&self) -> (r: String) {
        String::from_str("hello ").concat(*self)
    }
}

} // verus!

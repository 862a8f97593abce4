//! The textual form of a dual number: the real part, then ` + ε` and the
//! dual part, both with the same number of decimals. It is for reading
//! only; nothing parses it.

use vstd::prelude::*;
use vstd::string::*;
use core::fmt::Display;
use crate::dual::DualNumber;

verus! {

/// The number of decimals where none is asked for.
pub const DEFAULT_PRECISION: usize = 2;

/// The largest number of decimals that can be asked for.
pub const MAX_PRECISION: usize = 65535;

/// The text of a dual number whose parts read `a` and `b`.
pub open spec fn rendering(a: Seq<char>, b: Seq<char>) -> Seq<char> {
    a + " + \u{03B5}"@ + b
}

/// `format!` on the scalar's `Display`, with `precision` decimals asked for.
/// Nothing is claimed of the text. The formatter takes no precision above
/// `MAX_PRECISION`.
#[verifier::external_body]
fn fixed_text<T: Display>(x: &T, precision: usize) -> String
    requires
        precision <= MAX_PRECISION,
{
    format!("{:.p$}", x, p = precision)
}

/// `text` is what the formatter gave for `x` with `precision` decimals.
pub closed spec fn fixed_text_gives<T: Display>(x: T, precision: usize, text: String) -> bool {
    call_ensures(fixed_text::<T>, (&x, precision), text)
}

/// Asks the formatter for `x` with `precision` decimals, and says of the
/// text that it was given.
fn ask_fixed_text<T: Display>(x: &T, precision: usize) -> (text: String)
    requires
        precision <= MAX_PRECISION,
    ensures
        fixed_text_gives(*x, precision, text),
{
    let ask = fixed_text::<T>;
    ask(x, precision)
}

/// The number of decimals that are printed: the one asked for, else the
/// default.
pub open spec fn precision_used(precision: Option<usize>) -> usize {
    match precision {
        Some(n) => n,
        None => DEFAULT_PRECISION,
    }
}

/// The number of decimals to print: the one asked for, else the default.
pub fn precision_or_default(precision: Option<usize>) -> (p: usize)
    ensures
        p == precision_used(precision),
{
    match precision {
        Some(n) => n,
        None => DEFAULT_PRECISION,
    }
}

/// The text of a dual number, from the texts of its parts.
pub fn render_parts(real_text: &str, dual_text: &str) -> (r: String)
    ensures
        r@ == rendering(real_text@, dual_text@),
{
    let mut text = String::new();
    text.append(real_text);
    text.append(" + \u{03B5}");
    text.append(dual_text);
    assert(text@ =~= rendering(real_text@, dual_text@));
    text
}

impl<T: Display> DualNumber<T> {
    /// The text of this dual number, each part as the scalar type prints it
    /// with `precision` decimals, or with two where `precision` is `None`.
    pub fn to_text(&self, precision: Option<usize>) -> (r: String)
        requires
            precision matches Some(p) ==> p <= MAX_PRECISION,
        ensures
            exists|a: String, b: String|
                #[trigger] fixed_text_gives(self@.0, precision_used(precision), a)
                    && #[trigger] fixed_text_gives(self@.1, precision_used(precision), b) && r@
                    == rendering(a@, b@),
    {
        let p = precision_or_default(precision);
        let real_text = ask_fixed_text(self.real_ref(), p);
        let dual_text = ask_fixed_text(self.dual_ref(), p);
        render_parts(real_text.as_str(), dual_text.as_str())
    }
}

} // verus!

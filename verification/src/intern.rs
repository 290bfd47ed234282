use vstd::prelude::*;

verus! {

/// `ustr::Ustr` is a handle into the process-wide intern table; the
/// library reads it only through the trusted wrappers below.
#[verifier::external_type_specification]
#[verifier::external_body]
pub struct ExUstr(ustr::Ustr);

/// The text a `ustr::Ustr` handle stands for in the intern table.
pub uninterp spec fn interned_text(u: ustr::Ustr) -> Seq<char>;

/// Relies on `ustr::Ustr`'s derived `Clone`: a handle is plain `Copy`
/// data, so a clone stands for the same text.
pub assume_specification[ <ustr::Ustr as Clone>::clone ](u: &ustr::Ustr) -> (r: ustr::Ustr)
    ensures
        interned_text(r) == interned_text(*u),
;

/// Relies on `ustr::Ustr::from`: interning stores a copy of the given text
/// and the returned handle stands for exactly that text.
#[verifier::external_body]
pub(crate) fn intern(s: &str) -> (u: ustr::Ustr)
    ensures
        interned_text(u) == s@,
{
    ustr::Ustr::from(s)
}

/// Relies on `ustr::Ustr::as_str`: a handle reads back as the text it was
/// interned from.
#[verifier::external_body]
pub(crate) fn interned_str(u: &ustr::Ustr) -> (r: &str)
    ensures
        r@ == interned_text(*u),
{
    u.as_str()
}

/// Relies on `ustr::Ustr`'s `PartialEq`: handles compare by pointer, and
/// the intern table deduplicates by content, so equal text yields one
/// shared representative and distinct text yields distinct ones; handle
/// equality therefore coincides with text equality.
#[verifier::external_body]
pub(crate) fn interned_eq(a: &ustr::Ustr, b: &ustr::Ustr) -> (r: bool)
    ensures
        r == (interned_text(*a) == interned_text(*b)),
{
    a == b
}

} // verus!

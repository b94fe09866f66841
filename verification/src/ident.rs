//! Interned identifier values: a fixed set of process-lifetime static
//! names shared with arbitrary user-defined names behind one value type
//! whose every observation is the string content alone.

use std::rc::Rc;
use vstd::prelude::*;
use vstd::string::StrSliceExecFns;

verus! {

/// Compares two string slices by content: character by character, in
/// the order they stand.
pub(crate) fn str_eq(a: &str, b: &str) -> (r: bool)
    ensures
        r == (a@ == b@),
{
    let n = a.unicode_len();
    if n != b.unicode_len() {
        return false;
    }
    let mut i: usize = 0;
    while i < n
        invariant
            i <= n,
            n == a@.len(),
            n == b@.len(),
            forall|j: int| 0 <= j < i ==> a@[j] == b@[j],
        decreases n - i,
    {
        if a.get_char(i) != b.get_char(i) {
            return false;
        }
        i += 1;
    }
    proof {
        assert(a@ =~= b@);
    }
    true
}

/// Relies on `Rc::clone`: the returned handle shares the same string.
#[verifier::external_body]
fn rc_string_clone(rc: &Rc<String>) -> (r: Rc<String>)
    ensures
        r@ == rc@,
{
    Rc::clone(rc)
}

/// An immutable string value with two internal representations: a
/// reference to process-lifetime static text, or a shared, reference-
/// counted heap string. The representation is invisible to every
/// observer: the view, equality and the rendered text all go by content.
#[derive(Debug, Clone)]
pub enum Ident {
    Static(&'static str),
    Owned(Rc<String>),
}

impl View for Ident {
    type V = Seq<char>;

    open spec fn view(&self) -> Seq<char> {
        match self {
            Ident::Static(s) => s.view(),
            Ident::Owned(s) => s.view(),
        }
    }
}

impl Ident {
    /// Wraps a freshly allocated string in a shared handle.
    pub fn new(str: String) -> (id: Ident)
        ensures
            id@ == str@,
    {
        Ident::Owned(Rc::new(str))
    }

    /// The text itself.
    pub fn as_str(&self) -> (s: &str)
        ensures
            s@ == self@,
    {
        match self {
            Ident::Static(s) => s,
            Ident::Owned(s) => s.as_str(),
        }
    }

    /// A shared owned handle to the same text.
    pub fn to_owned(&self) -> (r: Rc<String>)
        ensures
            r@ == self@,
    {
        match self {
            Ident::Static(s) => Rc::new((*s).to_owned()),
            Ident::Owned(rc) => rc_string_clone(rc),
        }
    }

    /// A second identifier with the same content.
    pub fn duplicate(&self) -> (r: Ident)
        ensures
            r@ == self@,
    {
        match self {
            Ident::Static(s) => Ident::Static(s),
            Ident::Owned(rc) => Ident::Owned(rc_string_clone(rc)),
        }
    }
}

impl PartialEq for Ident {
    /// Content equality: the representations play no part.
    fn eq(&self, other: &Self) -> (r: bool) {
        str_eq(self.as_str(), other.as_str())
    }
}

impl vstd::std_specs::cmp::PartialEqSpecImpl for Ident {
    open spec fn obeys_eq_spec() -> bool {
        true
    }

    open spec fn eq_spec(&self, other: &Ident) -> bool {
        self@ == other@
    }
}

impl Eq for Ident {

}

impl From<Rc<String>> for Ident {
    /// Adopts a shared string as an owned identifier.
    fn from(rc: Rc<String>) -> (r: Ident) {
        Ident::Owned(rc)
    }
}

impl vstd::std_specs::convert::FromSpecImpl<Rc<String>> for Ident {
    open spec fn obeys_from_spec() -> bool {
        true
    }

    open spec fn from_spec(rc: Rc<String>) -> Ident {
        Ident::Owned(rc)
    }
}

/// Identifiers with equal text are equal under `==` whichever
/// representations hold the text, and render to the same string.
pub proof fn lemma_ident_content_equality(a: Ident, b: Ident)
    requires
        a@ == b@,
    ensures
        vstd::std_specs::cmp::PartialEqSpec::eq_spec(&a, &b),
        vstd::std_specs::cmp::PartialEqSpec::eq_spec(&b, &a),
{
}

} // verus!

//! An entry that a provider offers to the list.

use smol_str::SmolStr;
use vstd::prelude::*;

verus! {

/// The string type of smol_str. Nothing is known of a value but what the
/// functions below say of the characters it holds.
#[verifier::external_type_specification]
#[verifier::external_body]
pub struct ExSmolStr(SmolStr);

/// The characters that a `SmolStr` holds.
pub uninterp spec fn smol_chars(name: SmolStr) -> Seq<char>;

/// `SmolStr::new` of smol_str: a string that holds the characters of
/// `text`.
#[verifier::external_body]
fn smol_new(text: &str) -> (out: SmolStr)
    ensures
        smol_chars(out) == text@,
{
    SmolStr::new(text)
}

/// `SmolStr::as_str` of smol_str: the characters that the string holds, as
/// a slice.
#[verifier::external_body]
fn smol_as_str(name: &SmolStr) -> (out: &str)
    ensures
        out@ == smol_chars(*name),
{
    name.as_str()
}

/// `SmolStr::clone` of smol_str: a string that holds the same characters.
pub assume_specification[ <SmolStr as Clone>::clone ](name: &SmolStr) -> (out: SmolStr)
    ensures
        smol_chars(out) == smol_chars(*name),
;

/// One row of the list. `ty` says which of its provider's activations the
/// entry takes.
#[derive(Clone, Debug, PartialEq, Eq)]
pub struct Entry {
    pub ty: usize,
    pub name: SmolStr,
}

impl View for Entry {
    type V = (usize, Seq<char>);

    /// The kind of activation and the name, as plain values.
    open spec fn view(&self) -> (usize, Seq<char>) {
        (self.ty, smol_chars(self.name))
    }
}

impl Entry {
    /// An entry of kind `ty` with the name `name`.
    pub fn new(ty: usize, name: &str) -> (entry: Entry)
        ensures
            entry@ == (ty, name@),
    {
        Entry { ty, name: smol_new(name) }
    }

    /// The text that the list shows for the entry: its name.
    pub fn to_string(&self) -> (text: String)
        ensures
            text@ == self@.1,
    {
        smol_as_str(&self.name).to_owned()
    }

    /// A copy of the entry.
    pub fn duplicate(&self) -> (entry: Entry)
        ensures
            entry@ == self@,
    {
        Entry { ty: self.ty, name: self.name.clone() }
    }
}

} // verus!

//! Attributes: immutable name/value pairs that a context collects.

use vstd::prelude::*;
use vstd::std_specs::cmp::PartialEqSpecImpl;

verus! {

/// A single named fact within a context.
///
/// Two attributes are the same fact when both their names and their values
/// hold the same characters; `==` and the hash go by that.
#[derive(Debug, Eq, Hash)]
pub struct Attribute {
    pub name: String,
    pub value: String,
}

impl View for Attribute {
    type V = (Seq<char>, Seq<char>);

    /// The pair of character sequences, name first, that the attribute stands for.
    open spec fn view(&self) -> (Seq<char>, Seq<char>) {
        (self.name@, self.value@)
    }
}

impl PartialEq for Attribute {
    fn eq(&self, other: &Self) -> (equal: bool) {
        self.name == other.name && self.value == other.value
    }
}

impl PartialEqSpecImpl for Attribute {
    open spec fn obeys_eq_spec() -> bool {
        true
    }

    open spec fn eq_spec(&self, other: &Self) -> bool {
        self.name@ == other.name@ && self.value@ == other.value@
    }
}

impl Clone for Attribute {
    fn clone(&self) -> (copy: Self)
        ensures
            copy == *self,
    {
        Attribute { name: self.name.clone(), value: self.value.clone() }
    }
}

impl Default for Attribute {
    fn default() -> (attribute: Self)
        ensures
            attribute@ == ("default"@, "default"@),
    {
        Attribute { name: "default".to_string(), value: "default".to_string() }
    }
}

impl Attribute {
    /// Builds an attribute from its two parts.
    pub fn new(name: String, value: String) -> (attribute: Self)
        ensures
            attribute.name == name,
            attribute.value == value,
    {
        Self { name, value }
    }
}

} // verus!

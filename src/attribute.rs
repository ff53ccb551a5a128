//! Attribute tags: anything with a canonical key and an optional string value.

use vstd::prelude::*;

verus! {

/// The view of an optional string.
pub open spec fn opt_view(o: Option<String>) -> Option<Seq<char>> {
    match o {
        Some(s) => Some(s@),
        None => None,
    }
}

/// An attribute tag: a canonical key, stable for the logical attribute, and
/// an optional value (`None` for a presence-only attribute).
pub trait Attribute {
    /// The canonical key of this tag.
    spec fn spec_key(&self) -> Seq<char>;

    /// The value of this tag, `None` for a presence-only attribute.
    spec fn spec_value(&self) -> Option<Seq<char>>;

    fn get_key(&self) -> (r: String)
        ensures
            r@ == self.spec_key(),
    ;

    fn get_val(&self) -> (r: Option<String>)
        ensures
            opt_view(r) == self.spec_value(),
    ;
}

/// An attribute with an arbitrary key, given at run time.
pub struct CustomAttribute {
    key: String,
    value: Option<String>,
}

impl CustomAttribute {
    /// `key="value"`.
    pub fn new_key_value_attribute(key: String, value: String) -> (r: Self)
        ensures
            r.spec_key() == key@,
            r.spec_value() == Some(value@),
    {
        CustomAttribute { key, value: Some(value) }
    }

    /// A presence-only attribute, rendered as `key=""`.
    pub fn new_boolean_attribute(key: String) -> (r: Self)
        ensures
            r.spec_key() == key@,
            r.spec_value() == None::<Seq<char>>,
    {
        CustomAttribute { key, value: None }
    }

    pub fn get_value(&self) -> (r: Option<String>)
        ensures
            opt_view(r) == self.spec_value(),
    {
        self.get_val()
    }
}

impl Attribute for CustomAttribute {
    closed spec fn spec_key(&self) -> Seq<char> {
        self.key@
    }

    closed spec fn spec_value(&self) -> Option<Seq<char>> {
        opt_view(self.value)
    }

    fn get_key(&self) -> (r: String) {
        self.key.clone()
    }

    fn get_val(&self) -> (r: Option<String>) {
        match &self.value {
            Some(v) => Some(v.clone()),
            None => None,
        }
    }
}

} // verus!

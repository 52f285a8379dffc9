//! The `id` attribute.
use vstd::prelude::*;

verus! {

/// `id="…"`, with the value it carries.
pub struct Attribute(pub String);

impl crate::attributes::Attribute for Attribute {
    const ATTRIBUTE_NAME: &'static str = "id";

    open spec fn spec_value(&self) -> Seq<char> {
        self.0@
    }

    fn value(&self) -> (v: String) {
        self.0.clone()
    }
}

} // verus!

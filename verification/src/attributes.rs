//! Attributes: the `name="value"` facts of an opening tag.
use vstd::prelude::*;

pub mod class;
pub mod data;
pub mod id;

verus! {

/// Low-level trait for attributes: anything that renders inside an opening tag.
pub trait Base {
    /// The exact text of this attribute, without the space that precedes it.
    spec fn markup(&self) -> Seq<char>;

    /// Renders the attribute.
    fn to_string(&self) -> (s: String)
        ensures
            s@ == self.markup(),
    ;
}

/// Common format for a plain attribute: a name fixed by the type and one value.
/// Every type with this trait renders as `name="value"`.
pub trait Attribute {
    /// The attribute's name; it depends on the type alone.
    const ATTRIBUTE_NAME: &'static str;

    /// The value carried by this attribute.
    spec fn spec_value(&self) -> Seq<char>;

    fn value(&self) -> (v: String)
        ensures
            v@ == self.spec_value(),
    ;
}

/// The text of one name/value fact: `name="value"`. The value is written as it
/// is; quotes and other special characters in it are not escaped.
pub open spec fn fact_markup(name: Seq<char>, value: Seq<char>) -> Seq<char> {
    name + "=\""@ + value + "\""@
}

impl<T: Attribute> Base for T {
    open spec fn markup(&self) -> Seq<char> {
        fact_markup(T::ATTRIBUTE_NAME@, self.spec_value())
    }

    fn to_string(&self) -> (s: String) {
        let mut s = String::new();
        s.append(T::ATTRIBUTE_NAME);
        s.append("=\"");
        let v = self.value();
        s.append(v.as_str());
        s.append("\"");
        assert(s@ =~= self.markup());
        s
    }
}

/// Marker to indicate a tag does not take attributes. Should not be adopted
/// by any attribute.
pub trait NoAttribute: Base {}

/// The most basic attributes that most elements share. An element that takes
/// them holds them as `Box<dyn DefaultAttribute>`, so the trait carries the
/// rendering itself; an implementation hands on what [`Base`] gives.
pub trait DefaultAttribute {
    /// The exact text of this attribute, without the space that precedes it.
    spec fn default_markup(&self) -> Seq<char>;

    /// Renders the attribute.
    fn render_default(&self) -> (s: String)
        ensures
            s@ == self.default_markup(),
    ;
}

impl DefaultAttribute for class::Attribute {
    open spec fn default_markup(&self) -> Seq<char> {
        self.markup()
    }

    fn render_default(&self) -> (s: String) {
        self.to_string()
    }
}

impl DefaultAttribute for id::Attribute {
    open spec fn default_markup(&self) -> Seq<char> {
        self.markup()
    }

    fn render_default(&self) -> (s: String) {
        self.to_string()
    }
}

impl DefaultAttribute for data::Attribute {
    open spec fn default_markup(&self) -> Seq<char> {
        self.markup()
    }

    fn render_default(&self) -> (s: String) {
        self.to_string()
    }
}

/// Rendering an attribute is a function of the attribute alone: any two
/// results of `to_string` on the same attribute hold the same text.
pub proof fn lemma_attribute_rendering_is_deterministic<A: Base>(
    attribute: &A,
    first: String,
    second: String,
)
    requires
        first@ == attribute.markup(),
        second@ == attribute.markup(),
    ensures
        first@ == second@,
{
}

} // verus!

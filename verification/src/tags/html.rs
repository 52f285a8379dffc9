//! The `html` element.
use crate::attributes::DefaultAttribute;
use crate::tags::FlowElement;
use vstd::prelude::*;

verus! {

/// A `html` element: flow content inside, the default attributes on it.
pub struct Element {
    pub children: Vec<Box<dyn FlowElement>>,
    pub attributes: Vec<Box<dyn DefaultAttribute>>,
}

impl crate::tags::Tag for Element {
    type Child = dyn FlowElement;

    type Attribute = dyn DefaultAttribute;

    const TAG_NAME: &'static str = "html";

    open spec fn spec_attributes(&self) -> Seq<Box<dyn DefaultAttribute>> {
        self.attributes@
    }

    open spec fn spec_children(&self) -> Seq<Box<dyn FlowElement>> {
        self.children@
    }

    fn attributes(&self) -> (a: &Vec<Box<dyn DefaultAttribute>>) {
        &self.attributes
    }

    fn children(&self) -> (c: &Vec<Box<dyn FlowElement>>) {
        &self.children
    }
}

} // verus!

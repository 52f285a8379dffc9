//! Nodes: elements, text, and the rendering of a tree.
use crate::attributes::DefaultAttribute;
use vstd::prelude::*;

pub mod div;
pub mod html;
pub mod span;

verus! {

/// Low-level trait for nodes: anything that renders to markup.
pub trait Base {
    /// The exact markup of this node and of all that is below it.
    spec fn markup(&self) -> Seq<char>;

    /// Renders the node.
    fn to_string(&self) -> (s: String)
        ensures
            s@ == self.markup(),
    ;
}

/// Common format for an element: a tag name fixed by the type, and the
/// attributes and children of the value, each in the order of insertion.
pub trait Tag: Base {
    /// What the children of this element must be.
    type Child: ?Sized;

    /// What the attributes of this element must be.
    type Attribute: ?Sized;

    /// The tag name as it is shown in markup; it depends on the type alone.
    const TAG_NAME: &'static str;

    /// The attributes of the node, first inserted first.
    spec fn spec_attributes(&self) -> Seq<Box<Self::Attribute>>;

    /// The children of the node, first inserted first.
    spec fn spec_children(&self) -> Seq<Box<Self::Child>>;

    /// Returns the current attributes of the node.
    fn attributes(&self) -> (a: &Vec<Box<Self::Attribute>>)
        ensures
            a@ == self.spec_attributes(),
    ;

    /// Returns the current children of the node.
    fn children(&self) -> (c: &Vec<Box<Self::Child>>)
        ensures
            c@ == self.spec_children(),
    ;
}

/// Pseudo group indicating an element should never have children.
/// No tag takes it yet.
pub trait Empty: Base {}

/// Flow content: the nodes that may stand inside an ordinary element. An
/// element holds them as `Box<dyn FlowElement>`, so the trait carries the
/// rendering itself; an implementation hands on what [`Base`] gives.
pub trait FlowElement {
    /// The exact markup of this node and of all that is below it.
    spec fn flow_markup(&self) -> Seq<char>;

    /// Renders the node.
    fn render_flow(&self) -> (s: String)
        ensures
            s@ == self.flow_markup(),
    ;
}

/// The attributes' part of an opening tag: each attribute in order, each with
/// one space before it and nothing else between them.
pub open spec fn attributes_markup<A: DefaultAttribute + ?Sized>(
    attributes: Seq<Box<A>>,
) -> Seq<char>
    decreases attributes.len(),
{
    if attributes.len() == 0 {
        Seq::empty()
    } else {
        attributes_markup(attributes.drop_last()) + " "@ + attributes.last().default_markup()
    }
}

/// The markup of a sequence of children: each child's markup in order, with
/// nothing between them.
pub open spec fn children_markup<C: FlowElement + ?Sized>(children: Seq<Box<C>>) -> Seq<char>
    decreases children.len(),
{
    if children.len() == 0 {
        Seq::empty()
    } else {
        children_markup(children.drop_last()) + children.last().flow_markup()
    }
}

/// The markup of an element, from its tag name, the text of its attributes,
/// whether it has no child, and the text of its children. An element without
/// children closes itself; any other has an opening and a closing tag.
pub open spec fn element_markup(
    name: Seq<char>,
    attributes: Seq<char>,
    childless: bool,
    children: Seq<char>,
) -> Seq<char> {
    if childless {
        "<"@ + name + attributes + " />"@
    } else {
        "<"@ + name + attributes + ">"@ + children + "</"@ + name + ">"@
    }
}

/// Renders the attributes' part of an opening tag.
pub fn render_attributes<A: DefaultAttribute + ?Sized>(attributes: &Vec<Box<A>>) -> (s: String)
    ensures
        s@ == attributes_markup(attributes@),
{
    let mut s = String::new();
    let mut i: usize = 0;
    while i < attributes.len()
        invariant
            i <= attributes.len(),
            s@ == attributes_markup(attributes@.take(i as int)),
        decreases attributes.len() - i,
    {
        let rendered = attributes[i].render_default();
        s.append(" ");
        s.append(rendered.as_str());
        proof {
            let next = attributes@.take(i + 1);
            assert(next.drop_last() =~= attributes@.take(i as int));
            assert(s@ =~= attributes_markup(next));
        }
        i += 1;
    }
    assert(attributes@.take(attributes.len() as int) =~= attributes@);
    s
}

/// Renders a sequence of children, one after the other.
pub fn render_children<C: FlowElement + ?Sized>(children: &Vec<Box<C>>) -> (s: String)
    ensures
        s@ == children_markup(children@),
{
    let mut s = String::new();
    let mut i: usize = 0;
    while i < children.len()
        invariant
            i <= children.len(),
            s@ == children_markup(children@.take(i as int)),
        decreases children.len() - i,
    {
        let rendered = children[i].render_flow();
        s.append(rendered.as_str());
        proof {
            let next = children@.take(i + 1);
            assert(next.drop_last() =~= children@.take(i as int));
            assert(s@ =~= children_markup(next));
        }
        i += 1;
    }
    assert(children@.take(children.len() as int) =~= children@);
    s
}

impl<T> Base for T where T: Tag, T::Child: FlowElement, T::Attribute: DefaultAttribute {
    open spec fn markup(&self) -> Seq<char> {
        element_markup(
            T::TAG_NAME@,
            attributes_markup(self.spec_attributes()),
            self.spec_children().len() == 0,
            children_markup(self.spec_children()),
        )
    }

    fn to_string(&self) -> (s: String) {
        let children = self.children();
        let attributes = render_attributes(self.attributes());
        let mut s = String::new();
        s.append("<");
        s.append(T::TAG_NAME);
        s.append(attributes.as_str());
        if children.len() == 0 {
            s.append(" />");
        } else {
            let inner = render_children(children);
            s.append(">");
            s.append(inner.as_str());
            s.append("</");
            s.append(T::TAG_NAME);
            s.append(">");
        }
        assert(s@ =~= self.markup());
        s
    }
}

impl FlowElement for span::Element {
    open spec fn flow_markup(&self) -> Seq<char> {
        self.markup()
    }

    fn render_flow(&self) -> (s: String) {
        self.to_string()
    }
}

impl FlowElement for div::Element {
    open spec fn flow_markup(&self) -> Seq<char> {
        self.markup()
    }

    fn render_flow(&self) -> (s: String) {
        self.to_string()
    }
}

/// A text node alone. Its markup is its content, with nothing escaped.
pub struct Text(pub String);

impl Base for Text {
    open spec fn markup(&self) -> Seq<char> {
        self.0@
    }

    fn to_string(&self) -> (s: String) {
        self.0.clone()
    }
}

impl FlowElement for Text {
    open spec fn flow_markup(&self) -> Seq<char> {
        self.markup()
    }

    fn render_flow(&self) -> (s: String) {
        self.to_string()
    }
}

/// No attributes give no text, and no children give no markup.
pub proof fn lemma_nothing_renders_as_nothing<A: DefaultAttribute + ?Sized, C: FlowElement + ?Sized>()
    ensures
        attributes_markup(Seq::<Box<A>>::empty()) == Seq::<char>::empty(),
        children_markup(Seq::<Box<C>>::empty()) == Seq::<char>::empty(),
{
}

/// Attributes render in the order of insertion: the text of a sequence of
/// attributes followed by another is the text of the first followed by the
/// text of the second.
pub proof fn lemma_attributes_markup_concat<A: DefaultAttribute + ?Sized>(
    front: Seq<Box<A>>,
    back: Seq<Box<A>>,
)
    ensures
        attributes_markup(front + back) == attributes_markup(front) + attributes_markup(back),
    decreases back.len(),
{
    if back.len() == 0 {
        assert(front + back =~= front);
        assert(attributes_markup(front) + attributes_markup(back) =~= attributes_markup(front));
    } else {
        let all = front + back;
        assert(all.drop_last() =~= front + back.drop_last());
        assert(all.last() == back.last());
        lemma_attributes_markup_concat(front, back.drop_last());
        assert(attributes_markup(all) =~= attributes_markup(front) + attributes_markup(back));
    }
}

/// An attribute inserted after others renders after all of them, with one
/// space before it.
pub proof fn lemma_attributes_markup_push<A: DefaultAttribute + ?Sized>(
    attributes: Seq<Box<A>>,
    last: Box<A>,
)
    ensures
        attributes_markup(attributes.push(last)) == attributes_markup(attributes) + " "@
            + last.default_markup(),
{
    assert(attributes.push(last).drop_last() =~= attributes);
}

/// Three attributes render first to last as they were inserted, each with one
/// space before it.
pub proof fn lemma_three_attributes_keep_their_order<A: DefaultAttribute + ?Sized>(
    first: Box<A>,
    second: Box<A>,
    third: Box<A>,
)
    ensures
        attributes_markup(seq![first, second, third]) == " "@ + first.default_markup() + " "@
            + second.default_markup() + " "@ + third.default_markup(),
{
    let none = Seq::<Box<A>>::empty();
    lemma_attributes_markup_push(none, first);
    lemma_attributes_markup_push(none.push(first), second);
    lemma_attributes_markup_push(none.push(first).push(second), third);
    assert(none.push(first).push(second).push(third) =~= seq![first, second, third]);
    assert(attributes_markup(seq![first, second, third]) =~= " "@ + first.default_markup() + " "@
        + second.default_markup() + " "@ + third.default_markup());
}

/// Children render in the order of insertion with nothing between them: the
/// markup of a sequence of children followed by another is the markup of the
/// first followed by the markup of the second.
pub proof fn lemma_children_markup_concat<C: FlowElement + ?Sized>(
    front: Seq<Box<C>>,
    back: Seq<Box<C>>,
)
    ensures
        children_markup(front + back) == children_markup(front) + children_markup(back),
    decreases back.len(),
{
    if back.len() == 0 {
        assert(front + back =~= front);
        assert(children_markup(front) + children_markup(back) =~= children_markup(front));
    } else {
        let all = front + back;
        assert(all.drop_last() =~= front + back.drop_last());
        assert(all.last() == back.last());
        lemma_children_markup_concat(front, back.drop_last());
        assert(children_markup(all) =~= children_markup(front) + children_markup(back));
    }
}

/// A child inserted after others renders directly after all of them.
pub proof fn lemma_children_markup_push<C: FlowElement + ?Sized>(
    children: Seq<Box<C>>,
    last: Box<C>,
)
    ensures
        children_markup(children.push(last)) == children_markup(children) + last.flow_markup(),
{
    assert(children.push(last).drop_last() =~= children);
}

/// An element without children closes itself, whatever its kind and however
/// many attributes it has: `<tag` , the attributes, ` />`, and no closing tag.
pub proof fn lemma_childless_element_closes_itself<T>(element: &T) where
    T: Tag,
    T::Child: FlowElement,
    T::Attribute: DefaultAttribute,

    requires
        element.spec_children().len() == 0,
    ensures
        element.markup() == "<"@ + T::TAG_NAME@ + attributes_markup(
            element.spec_attributes(),
        ) + " />"@,
{
}

/// An element without children or attributes is `<tag />`.
pub proof fn lemma_bare_element<T>(element: &T) where
    T: Tag,
    T::Child: FlowElement,
    T::Attribute: DefaultAttribute,

    requires
        element.spec_children().len() == 0,
        element.spec_attributes().len() == 0,
    ensures
        element.markup() == "<"@ + T::TAG_NAME@ + " />"@,
{
    assert(element.markup() =~= "<"@ + T::TAG_NAME@ + " />"@);
}

/// An element with one child or more has an opening tag with its attributes,
/// then its children's markup in order with nothing between, then a closing
/// tag.
pub proof fn lemma_element_with_children_wraps_them<T>(element: &T) where
    T: Tag,
    T::Child: FlowElement,
    T::Attribute: DefaultAttribute,

    requires
        element.spec_children().len() > 0,
    ensures
        element.markup() == "<"@ + T::TAG_NAME@ + attributes_markup(
            element.spec_attributes(),
        ) + ">"@ + children_markup(element.spec_children()) + "</"@ + T::TAG_NAME@ + ">"@,
{
}

/// Rendering is a function of the tree alone: any two results of `to_string`
/// on the same node hold the same text.
pub proof fn lemma_rendering_is_deterministic<N: Base>(node: &N, first: String, second: String)
    requires
        first@ == node.markup(),
        second@ == node.markup(),
    ensures
        first@ == second@,
{
}

} // verus!

//! A plain-value description of a GStreamer pipeline (or bin): which elements it
//! holds, the properties each element is given, and how the elements are linked.
//! The programs build such a description; turning it into live GStreamer objects
//! is left to the application around the library.

use vstd::prelude::*;

verus! {

/// Whether the container is a top-level pipeline or a bin nested in another container.
#[derive(Clone, Copy, Debug, PartialEq, Eq, Structural)]
pub enum ContainerKind {
    Pipeline,
    Bin,
}

/// Raw-video capabilities restricted to a frame size, as built by
/// `Caps::new_simple(media_type, &[("width", ..), ("height", ..)])`.
#[derive(Debug)]
pub struct VideoCaps {
    pub media_type: String,
    pub width: i32,
    pub height: i32,
}

/// The value given to an element property.
#[derive(Debug)]
pub enum PropertyValue {
    /// Parsed from its string form (`set_property_from_str`).
    Text(String),
    /// A caps value (`set_property("caps", ..)`).
    Caps(VideoCaps),
}

/// One property assignment on an element.
#[derive(Debug)]
pub struct Property {
    pub name: String,
    pub value: PropertyValue,
}

/// An element to be made by its factory name, with an optional element name
/// and the properties to set on it, in order.
#[derive(Debug)]
pub struct ElementSpec {
    pub factory: String,
    pub name: Option<String>,
    pub properties: Vec<Property>,
}

/// A container of elements and the links between them: a link `(a, b)` connects
/// element `a`'s source to element `b`'s sink, by index into `elements`.
#[derive(Debug)]
pub struct PipelineSpec {
    pub kind: ContainerKind,
    pub name: Option<String>,
    pub elements: Vec<ElementSpec>,
    pub links: Vec<(usize, usize)>,
}

pub struct CapsView {
    pub media_type: Seq<char>,
    pub width: int,
    pub height: int,
}

pub enum ValueView {
    Text(Seq<char>),
    Caps(CapsView),
}

pub struct PropertyView {
    pub name: Seq<char>,
    pub value: ValueView,
}

pub struct ElementView {
    pub factory: Seq<char>,
    pub name: Option<Seq<char>>,
    pub properties: Seq<PropertyView>,
}

pub struct PipelineView {
    pub kind: ContainerKind,
    pub name: Option<Seq<char>>,
    pub elements: Seq<ElementView>,
    pub links: Seq<(usize, usize)>,
}

pub open spec fn opt_string_view(s: Option<String>) -> Option<Seq<char>> {
    match s {
        Some(s) => Some(s@),
        None => None,
    }
}

impl View for VideoCaps {
    type V = CapsView;

    open spec fn view(&self) -> CapsView {
        CapsView { media_type: self.media_type@, width: self.width as int, height: self.height as int }
    }
}

impl View for PropertyValue {
    type V = ValueView;

    open spec fn view(&self) -> ValueView {
        match self {
            PropertyValue::Text(s) => ValueView::Text(s@),
            PropertyValue::Caps(c) => ValueView::Caps(c@),
        }
    }
}

impl View for Property {
    type V = PropertyView;

    open spec fn view(&self) -> PropertyView {
        PropertyView { name: self.name@, value: self.value@ }
    }
}

impl View for ElementSpec {
    type V = ElementView;

    open spec fn view(&self) -> ElementView {
        ElementView {
            factory: self.factory@,
            name: opt_string_view(self.name),
            properties: self.properties@.map_values(|p: Property| p@),
        }
    }
}

impl View for PipelineSpec {
    type V = PipelineView;

    open spec fn view(&self) -> PipelineView {
        PipelineView {
            kind: self.kind,
            name: opt_string_view(self.name),
            elements: self.elements@.map_values(|e: ElementSpec| e@),
            links: self.links@,
        }
    }
}

/// A property set from its string form.
pub open spec fn text_property(name: Seq<char>, value: Seq<char>) -> PropertyView {
    PropertyView { name, value: ValueView::Text(value) }
}

/// A `caps` property restricting raw video to a frame size.
pub open spec fn caps_property(media_type: Seq<char>, width: int, height: int) -> PropertyView {
    PropertyView { name: "caps"@, value: ValueView::Caps(CapsView { media_type, width, height }) }
}

/// An element made by `factory`, unnamed, with the given properties.
pub open spec fn plain_element(factory: Seq<char>, properties: Seq<PropertyView>) -> ElementView {
    ElementView { factory, name: None, properties }
}

/// The links of a linear chain over `n` elements: each element feeds the next.
pub open spec fn chain_links(n: nat) -> Seq<(usize, usize)> {
    Seq::new(if n == 0 { 0 } else { (n - 1) as nat }, |i: int| (i as usize, (i + 1) as usize))
}

/// A container whose elements are linked one after another, in order.
pub open spec fn linear(kind: ContainerKind, name: Option<Seq<char>>, elements: Seq<ElementView>) -> PipelineView {
    PipelineView { kind, name, elements, links: chain_links(elements.len()) }
}

/// Every link joins two distinct elements of the container.
pub open spec fn links_in_range(p: PipelineView) -> bool {
    forall|i: int| 0 <= i < p.links.len() ==> {
        &&& (#[trigger] p.links[i]).0 < p.elements.len()
        &&& p.links[i].1 < p.elements.len()
        &&& p.links[i].0 != p.links[i].1
    }
}

/// The elements form one linear chain: element `i` feeds element `i + 1`, for every
/// `i` but the last, and there are no other links.
pub open spec fn is_linear_chain(p: PipelineView) -> bool {
    &&& p.links.len() + 1 == p.elements.len()
    &&& forall|i: int| 0 <= i < p.links.len() ==> #[trigger] p.links[i] == (i as usize, (i + 1) as usize)
}

/// Every linear container of at least one element is a linear chain whose links stay
/// within its elements.
pub proof fn lemma_linear_is_chain(kind: ContainerKind, name: Option<Seq<char>>, elements: Seq<ElementView>)
    requires
        elements.len() >= 1,
        elements.len() <= usize::MAX,
    ensures
        is_linear_chain(linear(kind, name, elements)),
        links_in_range(linear(kind, name, elements)),
{
}

/// Builds a property assigned from its string form.
pub fn text(name: &str, value: &str) -> (p: Property)
    ensures
        p@ == text_property(name@, value@),
{
    Property { name: String::from_str(name), value: PropertyValue::Text(String::from_str(value)) }
}

/// Builds a `caps` property restricting raw video of `media_type` to `width` x `height`.
pub fn caps(media_type: &str, width: i32, height: i32) -> (p: Property)
    ensures
        p@ == caps_property(media_type@, width as int, height as int),
{
    Property {
        name: String::from_str("caps"),
        value: PropertyValue::Caps(VideoCaps { media_type: String::from_str(media_type), width, height }),
    }
}

/// Builds an unnamed element description.
pub fn element(factory: &str, properties: Vec<Property>) -> (e: ElementSpec)
    ensures
        e@ == plain_element(factory@, properties@.map_values(|p: Property| p@)),
{
    ElementSpec { factory: String::from_str(factory), name: None, properties }
}

/// Builds an unnamed element description that sets no properties.
pub fn bare_element(factory: &str) -> (e: ElementSpec)
    ensures
        e@ == plain_element(factory@, seq![]),
{
    let e = ElementSpec { factory: String::from_str(factory), name: None, properties: Vec::new() };
    assert(e@.properties =~= seq![]);
    e
}

/// Builds a named element description.
pub fn named_element(factory: &str, name: &str, properties: Vec<Property>) -> (e: ElementSpec)
    ensures
        e@ == (ElementView { factory: factory@, name: Some(name@), properties: properties@.map_values(|p: Property| p@) }),
{
    ElementSpec { factory: String::from_str(factory), name: Some(String::from_str(name)), properties }
}

/// The links of a linear chain over `n` elements.
pub fn chain(n: usize) -> (links: Vec<(usize, usize)>)
    ensures
        links@ == chain_links(n as nat),
{
    let mut links: Vec<(usize, usize)> = Vec::new();
    let mut i: usize = 1;
    while i < n
        invariant
            1 <= i,
            i <= n || (n == 0 && i == 1),
            links@.len() == i - 1,
            forall|j: int| 0 <= j < links@.len() ==> #[trigger] links@[j] == (j as usize, (j + 1) as usize),
        decreases n - i,
    {
        links.push((i - 1, i));
        i = i + 1;
    }
    assert(links@.len() == chain_links(n as nat).len());
    assert forall|j: int| 0 <= j < links@.len() implies links@[j] == chain_links(n as nat)[j] by {
        assert(links@[j] == (j as usize, (j + 1) as usize));
    }
    assert(links@ =~= chain_links(n as nat));
    links
}

/// Builds a container whose elements are linked one after another, in order.
pub fn linear_container(kind: ContainerKind, name: Option<String>, elements: Vec<ElementSpec>) -> (p: PipelineSpec)
    ensures
        p@ == linear(kind, opt_string_view(name), elements@.map_values(|e: ElementSpec| e@)),
{
    let links = chain(elements.len());
    PipelineSpec { kind, name, elements, links }
}

} // verus!

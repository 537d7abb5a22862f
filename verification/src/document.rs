use vstd::prelude::*;
use scraper::ElementRef;
use scraper::Html;
use scraper::Selector;
use crate::views::option_view;

verus! {

/// `scraper::Html`, a parsed tree: carried through, never looked into.
#[verifier::external_type_specification]
#[verifier::external_body]
pub struct ExHtml(Html);

/// `scraper::ElementRef`, an element of a parsed tree: carried through, never
/// looked into.
#[verifier::external_type_specification]
#[verifier::external_body]
pub struct ExElementRef<'a>(ElementRef<'a>);

/// The tree that `scraper` builds when it reads `text` as an HTML fragment.
pub uninterp spec fn fragment_of(text: Seq<char>) -> Html;

/// The first element among the children of the top of `html`, if there is one.
pub uninterp spec fn root_of(html: Html) -> Option<ElementRef<'static>>;

/// The elements below `element` that the CSS selector `selector` matches, in
/// document order; none where `selector` is no selector.
pub uninterp spec fn matches_of(element: ElementRef, selector: Seq<char>) -> Seq<
    ElementRef<'static>,
>;

/// The value of the attribute `name` on `element`, if it carries that attribute.
pub uninterp spec fn attribute_of(element: ElementRef, name: Seq<char>) -> Option<Seq<char>>;

/// The markup of what `element` holds, as `scraper` writes it out.
pub uninterp spec fn inner_html_of(element: ElementRef) -> Seq<char>;

/// Calls `scraper::Html::parse_fragment`. Not proved: that the tree depends on
/// the text alone.
#[verifier::external_body]
pub(crate) fn parse_fragment(text: &str) -> (html: Html)
    ensures
        html == fragment_of(text@),
{
    Html::parse_fragment(text)
}

/// Calls `ego_tree::Tree::root` and `ego_tree::NodeRef::children` on the tree that
/// `scraper::Html` holds, and hands back the first child that
/// `scraper::ElementRef::wrap` accepts: the element that
/// `scraper::Html::root_element` returns where it does not panic. Not proved: that
/// the outcome depends on the tree alone.
#[verifier::external_body]
pub(crate) fn root_element<'a>(html: &'a Html) -> (root: Option<ElementRef<'a>>)
    ensures
        root == root_of(*html),
{
    html.tree.root().children().find_map(ElementRef::wrap)
}

/// Calls `scraper::Selector::parse` and, where that succeeds,
/// `scraper::ElementRef::select`, and collects what the iterator yields. Not
/// proved: that the outcome depends on the element and the selector alone.
#[verifier::external_body]
pub(crate) fn select_all<'a>(element: ElementRef<'a>, selector: &str) -> (found: Vec<ElementRef<'a>>)
    ensures
        found@ == matches_of(element, selector@),
{
    match Selector::parse(selector) {
        Ok(parsed) => element.select(&parsed).collect(),
        Err(_) => Vec::new(),
    }
}

/// Calls `scraper::node::Element::attr` on the element's node. Not proved: that
/// the outcome depends on the element and the name alone.
#[verifier::external_body]
pub(crate) fn attribute<'a>(element: ElementRef<'a>, name: &str) -> (value: Option<&'a str>)
    ensures
        option_view(value) == attribute_of(element, name@),
{
    element.value().attr(name)
}

/// Calls `scraper::ElementRef::inner_html`. Not proved: that the outcome depends
/// on the element alone.
#[verifier::external_body]
pub(crate) fn inner_html(element: ElementRef) -> (markup: String)
    ensures
        markup@ == inner_html_of(element),
{
    element.inner_html()
}

/// The first element below `element` that `selector` matches.
pub open spec fn first_of(element: ElementRef, selector: Seq<char>) -> Option<
    ElementRef<'static>,
> {
    if matches_of(element, selector).len() > 0 {
        Some(matches_of(element, selector)[0])
    } else {
        None
    }
}

/// The attribute `name` of the first element below `element` that `selector`
/// matches: `None` where nothing matches or the match lacks the attribute.
pub open spec fn first_attribute_of(
    element: ElementRef,
    selector: Seq<char>,
    name: Seq<char>,
) -> Option<Seq<char>> {
    match first_of(element, selector) {
        Some(found) => attribute_of(found, name),
        None => None,
    }
}

/// The inner markup of the first element below `element` that `selector` matches.
pub open spec fn first_inner_html_of(element: ElementRef, selector: Seq<char>) -> Option<
    Seq<char>,
> {
    match first_of(element, selector) {
        Some(found) => Some(inner_html_of(found)),
        None => None,
    }
}

/// The first element below `element` that `selector` matches, if any does.
pub fn select_first<'a>(element: ElementRef<'a>, selector: &str) -> (found: Option<
    ElementRef<'a>,
>)
    ensures
        found == first_of(element, selector@),
{
    let all = select_all(element, selector);
    if all.len() > 0 {
        Some(all[0])
    } else {
        None
    }
}

/// The attribute `name` of the first element below `element` that `selector`
/// matches.
pub fn first_attribute<'a>(element: ElementRef<'a>, selector: &str, name: &str) -> (value:
    Option<&'a str>)
    ensures
        option_view(value) == first_attribute_of(element, selector@, name@),
{
    match select_first(element, selector) {
        Some(found) => attribute(found, name),
        None => None,
    }
}

/// The inner markup of the first element below `element` that `selector`
/// matches.
pub fn first_inner_html(element: ElementRef, selector: &str) -> (markup: Option<String>)
    ensures
        option_view(markup) == first_inner_html_of(element, selector@),
{
    match select_first(element, selector) {
        Some(found) => Some(inner_html(found)),
        None => None,
    }
}

} // verus!

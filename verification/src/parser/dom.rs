//! The document tree and CSS selection, as the `scraper` crate provides them.
//!
//! Nothing in this file is proved: it states what the rest of the library
//! relies on when it asks `scraper` to parse markup and to match selectors.

use scraper::{ElementRef, Html, Selector};
use vstd::prelude::*;
use crate::config::types::option_view;

verus! {

#[verifier::external_type_specification]
#[verifier::external_body]
pub struct DocumentTree(scraper::Html);

#[verifier::external_type_specification]
#[verifier::external_body]
pub struct TreeElement<'a>(scraper::ElementRef<'a>);

#[verifier::external_type_specification]
#[verifier::external_body]
pub struct SelectorGroup(scraper::Selector);

/// What `Selector::parse` makes of `css`: the compiled selector group, or the
/// text of the error when `css` is no valid selector group.
pub uninterp spec fn compiled(css: Seq<char>) -> Result<Selector, Seq<char>>;

/// The tree that `Html::parse_document` builds from `markup`.
pub uninterp spec fn parsed_document(markup: Seq<char>) -> Html;

/// The elements that `Html::select` yields for `selector`, in the order in
/// which it yields them.
pub uninterp spec fn selected_elements(document: &Html, selector: Selector) -> Seq<ElementRef>;

/// The first element that `ElementRef::select` yields among the descendants of
/// `element` for `selector`, if there is one.
pub uninterp spec fn first_match(element: ElementRef, selector: Selector) -> Option<ElementRef>;

/// The text nodes below `element`, as `ElementRef::text` yields them, joined
/// without a separator.
pub uninterp spec fn text_of(element: ElementRef) -> Seq<char>;

/// The value that `Element::attr` finds for the attribute `name` of `element`.
pub uninterp spec fn attribute_of(element: ElementRef, name: Seq<char>) -> Option<Seq<char>>;

/// The error that `css` has as a selector group, if it has one.
pub open spec fn selector_error(css: Seq<char>) -> Option<Seq<char>> {
    match compiled(css) {
        Ok(_) => None,
        Err(report) => Some(report),
    }
}

/// The selector group that `css` compiles to, where it is valid.
pub open spec fn selector_of(css: Seq<char>) -> Selector
    recommends
        compiled(css) is Ok,
{
    compiled(css)->Ok_0
}

/// `Html::parse_document`: builds the tree of `markup`. Malformed markup is
/// repaired, never refused.
#[verifier::external_body]
pub(crate) fn parse_document(markup: &str) -> (document: Html)
    ensures
        document == parsed_document(markup@),
{
    Html::parse_document(markup)
}

/// `Selector::parse`: compiles the selector group `css`, or gives the text of
/// the error when `css` is not valid.
#[verifier::external_body]
pub(crate) fn compile(css: &str) -> (selector: Result<Selector, String>)
    ensures
        match selector {
            Ok(group) => compiled(css@) == Ok::<Selector, Seq<char>>(group),
            Err(report) => compiled(css@) == Err::<Selector, Seq<char>>(report@),
        },
{
    match Selector::parse(css) {
        Ok(group) => Ok(group),
        Err(e) => Err(e.to_string()),
    }
}

/// `Html::select`: every element of `document` that matches `selector`.
#[verifier::external_body]
pub(crate) fn select_all<'a>(document: &'a Html, selector: &Selector) -> (elements: Vec<
    ElementRef<'a>,
>)
    ensures
        elements@ == selected_elements(document, *selector),
{
    document.select(selector).collect()
}

/// `ElementRef::select`: the first descendant of `element` that matches
/// `selector`.
#[verifier::external_body]
pub(crate) fn select_first<'a>(element: &ElementRef<'a>, selector: &Selector) -> (first: Option<
    ElementRef<'a>,
>)
    ensures
        first == first_match(*element, *selector),
{
    element.select(selector).next()
}

/// `ElementRef::text`: the text below `element`, joined without a separator.
#[verifier::external_body]
pub(crate) fn element_text(element: &ElementRef) -> (text: String)
    ensures
        text@ == text_of(*element),
{
    element.text().collect()
}

/// `Element::attr`: the value of the attribute `name` of `element`, if it has one.
#[verifier::external_body]
pub(crate) fn element_attr(element: &ElementRef, name: &str) -> (value: Option<String>)
    ensures
        option_view(value) == attribute_of(*element, name@),
{
    match element.value().attr(name) {
        Some(v) => Some(v.to_string()),
        None => None,
    }
}

} // verus!

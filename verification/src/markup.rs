//! The parsed page: elements found by CSS selectors, their texts and
//! attributes. The parsing and the matching are the work of the `scraper`
//! crate. Nothing in this file is proved of them: each call's result is given
//! a name, which says no more than that it depends on the arguments alone.

use crate::property::lines;
use vstd::prelude::*;

verus! {

/// A parsed HTML document.
#[verifier::external_type_specification]
#[verifier::external_body]
pub struct ExHtml(scraper::Html);

/// A parsed group of CSS selectors.
#[verifier::external_type_specification]
#[verifier::external_body]
pub struct ExSelector(scraper::Selector);

/// A reference to an element of a parsed document.
#[verifier::external_type_specification]
#[verifier::external_body]
pub struct ExElementRef<'a>(scraper::ElementRef<'a>);

/// The selectors that `scraper::Selector::parse` reads from `css`; `None`
/// where it reports an error.
pub uninterp spec fn parsed_selector(css: Seq<char>) -> Option<scraper::Selector>;

/// The tree that `scraper::Html::parse_document` builds for `text`.
pub uninterp spec fn parsed_document(text: Seq<char>) -> scraper::Html;

/// The elements that `scraper::Html::select` yields for the document and the
/// selector, in the order in which it yields them.
pub uninterp spec fn document_matches(
    document: &scraper::Html,
    selector: scraper::Selector,
) -> Seq<scraper::ElementRef<'_>>;

/// The elements that `scraper::ElementRef::select` yields for the element and
/// the selector, in the order in which it yields them.
pub uninterp spec fn element_matches(
    element: scraper::ElementRef<'_>,
    selector: scraper::Selector,
) -> Seq<scraper::ElementRef<'_>>;

/// The texts that `scraper::ElementRef::text` yields for the element, in the
/// order in which it yields them.
pub uninterp spec fn element_texts(element: scraper::ElementRef<'_>) -> Seq<Seq<char>>;

/// The value that `scraper::ElementRef::attr` finds for the attribute `name`
/// of the element; `None` where it finds none.
pub uninterp spec fn element_attribute(
    element: scraper::ElementRef<'_>,
    name: Seq<char>,
) -> Option<Seq<char>>;

/// Calls `scraper::Selector::parse`. The contract only gives the result its
/// name: the same text always parses alike.
#[verifier::external_body]
pub(crate) fn parse_selector(css: &str) -> (r: Option<scraper::Selector>)
    ensures
        r == parsed_selector(css@),
{
    scraper::Selector::parse(css).ok()
}

/// Calls `scraper::Html::parse_document`, which builds a tree for any text.
/// The contract only gives the tree its name: the same text always gives the
/// same tree.
#[verifier::external_body]
pub(crate) fn parse_document(text: &str) -> (r: scraper::Html)
    ensures
        r == parsed_document(text@),
{
    scraper::Html::parse_document(text)
}

/// Calls `scraper::Html::select` and collects what it yields: the elements of
/// the document that match the selector. The contract only gives them their
/// name.
#[verifier::external_body]
pub(crate) fn select_in_document<'a>(
    document: &'a scraper::Html,
    selector: &scraper::Selector,
) -> (r: Vec<scraper::ElementRef<'a>>)
    ensures
        r@ == document_matches(document, *selector),
{
    document.select(selector).collect()
}

/// Calls `scraper::ElementRef::select` and collects what it yields: the
/// descendants of the element that match the selector, in document order.
/// The contract only gives them their name.
#[verifier::external_body]
pub(crate) fn select_in_element<'a>(
    element: &scraper::ElementRef<'a>,
    selector: &scraper::Selector,
) -> (r: Vec<scraper::ElementRef<'a>>)
    ensures
        r@ == element_matches(*element, *selector),
{
    element.select(selector).collect()
}

/// Calls `scraper::ElementRef::text` and collects what it yields: the text
/// nodes below the element, in document order. The contract only gives them
/// their name.
#[verifier::external_body]
pub(crate) fn texts_below(element: &scraper::ElementRef) -> (r: Vec<String>)
    ensures
        lines(r@) == element_texts(*element),
{
    element.text().map(|t| t.to_string()).collect()
}

/// Calls `scraper::ElementRef::attr`: the value of the attribute `name` of
/// the element, where it has one. The contract only gives it its name.
#[verifier::external_body]
pub(crate) fn attribute(element: &scraper::ElementRef, name: &str) -> (r: Option<String>)
    ensures
        match r {
            Some(value) => element_attribute(*element, name@) == Some(value@),
            None => element_attribute(*element, name@) is None,
        },
{
    element.attr(name).map(|v| v.to_string())
}

} // verus!

//! The selector-driven extraction of articles from a page of markup.

use scraper::{ElementRef, Html};
use vstd::prelude::*;
use vstd::string::StringExecFns;
use crate::config::types::{
    article_views, option_view, Article, ArticleView, ListParserConfig, ParserConfig,
};
use crate::error::{ErrorView, RssHubError};
use crate::parser::date::{parse_date, parse_date_spec, str_option_view};
use crate::parser::dom::{
    attribute_of, compile, compiled, element_attr, element_text, first_match, parse_document,
    parsed_document, select_all, select_first, selected_elements, selector_error, selector_of,
    text_of,
};
use crate::text::{starts_with, strip_trailing, trim, trim_trailing_slashes, trimmed};
use crate::time::Timestamp;

verus! {

/// The extraction engine. It holds no state: every function works on its
/// arguments alone.
pub struct HtmlParser;

/// Whether `href` names its own scheme and host.
pub open spec fn is_absolute(href: Seq<char>) -> bool {
    "http://"@.is_prefix_of(href) || "https://"@.is_prefix_of(href)
}

/// The address that `href` stands for on a page at `base_url`: itself when it
/// is absolute; appended to the base without its trailing slashes when it
/// starts with a slash; appended after one slash otherwise.
pub open spec fn resolved_link(href: Seq<char>, base_url: Seq<char>) -> Seq<char> {
    if is_absolute(href) {
        href
    } else if "/"@.is_prefix_of(href) {
        strip_trailing(base_url, '/') + href
    } else {
        strip_trailing(base_url, '/') + "/"@ + href
    }
}

/// The trimmed text of the first descendant of `element` that matches `css`;
/// empty when no descendant matches.
pub open spec fn field_text(element: ElementRef, css: Seq<char>) -> Seq<char> {
    match first_match(element, selector_of(css)) {
        Some(found) => trimmed(text_of(found)),
        None => Seq::empty(),
    }
}

/// The `href` of the first descendant of `element` that matches `css`, if a
/// descendant matches and has one.
pub open spec fn field_href(element: ElementRef, css: Seq<char>) -> Option<Seq<char>> {
    match first_match(element, selector_of(css)) {
        Some(found) => attribute_of(found, "href"@),
        None => None,
    }
}

/// A field's text as an optional value: absent when empty.
pub open spec fn present(text: Seq<char>) -> Option<Seq<char>> {
    if text.len() == 0 {
        None
    } else {
        Some(text)
    }
}

/// The error for a malformed field selector, from the selector engine's report.
pub open spec fn invalid_selector(report: Seq<char>) -> ErrorView {
    ErrorView::ParseError("Invalid selector: "@ + report)
}

/// The error for a malformed list selector, from the selector engine's report.
pub open spec fn invalid_list_selector(report: Seq<char>) -> ErrorView {
    ErrorView::ParseError("Invalid list selector: "@ + report)
}

/// What [`HtmlParser::extract_text`] returns.
pub open spec fn text_result(element: ElementRef, css: Seq<char>) -> Result<Seq<char>, ErrorView> {
    match selector_error(css) {
        Some(report) => Err(invalid_selector(report)),
        None => Ok(field_text(element, css)),
    }
}

/// What [`HtmlParser::extract_link`] returns.
pub open spec fn link_result(element: ElementRef, css: Seq<char>, base_url: Seq<char>) -> Result<
    Seq<char>,
    ErrorView,
> {
    match selector_error(css) {
        Some(report) => Err(invalid_selector(report)),
        None => match first_match(element, selector_of(css)) {
            None => Err(ErrorView::ParseError("Link element not found"@)),
            Some(found) => match attribute_of(found, "href"@) {
                None => Err(ErrorView::ParseError("Link not found"@)),
                Some(href) => Ok(resolved_link(href, base_url)),
            },
        },
    }
}

/// An optional field of an element: absent without a selector or when the text
/// found is empty; an error when the selector is malformed.
pub open spec fn optional_field(element: ElementRef, selector: Option<Seq<char>>) -> Result<
    Option<Seq<char>>,
    ErrorView,
> {
    match selector {
        None => Ok(None),
        Some(css) => match selector_error(css) {
            Some(report) => Err(invalid_selector(report)),
            None => Ok(present(field_text(element, css))),
        },
    }
}

/// What [`HtmlParser::extract_date`] returns.
pub open spec fn date_result(element: ElementRef, css: Seq<char>, format: Option<Seq<char>>) -> Result<
    Option<Timestamp>,
    ErrorView,
> {
    match selector_error(css) {
        Some(report) => Err(invalid_selector(report)),
        None => Ok(parse_date_spec(field_text(element, css), format)),
    }
}

/// The date of an element: absent without a date selector.
pub open spec fn date_field(
    element: ElementRef,
    selector: Option<Seq<char>>,
    format: Option<Seq<char>>,
) -> Result<Option<Timestamp>, ErrorView> {
    match selector {
        None => Ok(None),
        Some(css) => date_result(element, css, format),
    }
}

/// The article that the fields of an element make up.
pub open spec fn assembled(
    title: Seq<char>,
    link: Seq<char>,
    description: Option<Seq<char>>,
    pub_date: Option<Timestamp>,
    author: Option<Seq<char>>,
    category: Option<Seq<char>>,
) -> ArticleView {
    ArticleView { title, link, description, content: None, pub_date, author, category, guid: None }
}

/// What one matched element contributes: an article; nothing, when it has no
/// title or no link; or an error, when a selector that had to be compiled for it
/// is malformed. The fields are read in the order title, link, description,
/// date, author, category, and reading stops at the first that decides.
pub open spec fn article_of(element: ElementRef, rules: ListParserConfig, base_url: Seq<char>) -> Result<
    Option<ArticleView>,
    ErrorView,
> {
    match text_result(element, rules.title_selector@) {
        Err(e) => Err(e),
        Ok(title) => if title.len() == 0 {
            Ok(None)
        } else {
            match selector_error(rules.link_selector@) {
                Some(report) => Err(invalid_selector(report)),
                None => match field_href(element, rules.link_selector@) {
                    None => Ok(None),
                    Some(href) => match optional_field(
                        element,
                        option_view(rules.description_selector),
                    ) {
                        Err(e) => Err(e),
                        Ok(description) => match date_field(
                            element,
                            option_view(rules.date_selector),
                            option_view(rules.date_format),
                        ) {
                            Err(e) => Err(e),
                            Ok(pub_date) => match optional_field(
                                element,
                                option_view(rules.author_selector),
                            ) {
                                Err(e) => Err(e),
                                Ok(author) => match optional_field(
                                    element,
                                    option_view(rules.category_selector),
                                ) {
                                    Err(e) => Err(e),
                                    Ok(category) => Ok(
                                        Some(
                                            assembled(
                                                title,
                                                resolved_link(href, base_url),
                                                description,
                                                pub_date,
                                                author,
                                                category,
                                            ),
                                        ),
                                    ),
                                },
                            },
                        },
                    },
                },
            }
        },
    }
}

/// `articles` in front of what a later part of the extraction gives.
pub open spec fn prepend(articles: Seq<ArticleView>, later: Result<Seq<ArticleView>, ErrorView>) -> Result<
    Seq<ArticleView>,
    ErrorView,
> {
    match later {
        Ok(rest) => Ok(articles + rest),
        Err(e) => Err(e),
    }
}

/// The articles of `elements`, taken in order until `limit` of them are found
/// or an element fails. Elements that contribute nothing do not count towards
/// the limit; elements after the last one needed are not looked at.
pub open spec fn collect_articles(
    elements: Seq<ElementRef>,
    rules: ListParserConfig,
    base_url: Seq<char>,
    limit: nat,
) -> Result<Seq<ArticleView>, ErrorView>
    decreases elements.len(),
{
    if limit == 0 || elements.len() == 0 {
        Ok(Seq::empty())
    } else {
        match article_of(elements[0], rules, base_url) {
            Err(e) => Err(e),
            Ok(None) => collect_articles(elements.drop_first(), rules, base_url, limit),
            Ok(Some(article)) => prepend(
                seq![article],
                collect_articles(elements.drop_first(), rules, base_url, (limit - 1) as nat),
            ),
        }
    }
}

/// What extraction makes of a document: an error when the list selector is
/// malformed, else the articles of the elements it selects.
pub open spec fn extraction(
    document: &Html,
    rules: ListParserConfig,
    base_url: Seq<char>,
    limit: nat,
) -> Result<Seq<ArticleView>, ErrorView> {
    match selector_error(rules.selector@) {
        Some(report) => Err(invalid_list_selector(report)),
        None => collect_articles(
            selected_elements(document, selector_of(rules.selector@)),
            rules,
            base_url,
            limit,
        ),
    }
}

/// The content of a text result.
pub open spec fn text_view(result: Result<String, RssHubError>) -> Result<Seq<char>, ErrorView> {
    match result {
        Ok(text) => Ok(text@),
        Err(e) => Err(e@),
    }
}

/// The content of an optional text result.
pub open spec fn optional_text_view(result: Result<Option<String>, RssHubError>) -> Result<
    Option<Seq<char>>,
    ErrorView,
> {
    match result {
        Ok(text) => Ok(option_view(text)),
        Err(e) => Err(e@),
    }
}

/// The content of a date result.
pub open spec fn date_view(result: Result<Option<Timestamp>, RssHubError>) -> Result<
    Option<Timestamp>,
    ErrorView,
> {
    match result {
        Ok(date) => Ok(date),
        Err(e) => Err(e@),
    }
}

/// The content of what one element contributed.
pub open spec fn step_view(result: Result<Option<Article>, RssHubError>) -> Result<
    Option<ArticleView>,
    ErrorView,
> {
    match result {
        Ok(Some(article)) => Ok(Some(article@)),
        Ok(None) => Ok(None),
        Err(e) => Err(e@),
    }
}

/// The content of an extraction's result.
pub open spec fn extraction_view(result: Result<Vec<Article>, RssHubError>) -> Result<
    Seq<ArticleView>,
    ErrorView,
> {
    match result {
        Ok(articles) => Ok(article_views(articles@)),
        Err(e) => Err(e@),
    }
}

/// The error for a malformed field selector.
fn selector_failure(report: String) -> (e: RssHubError)
    ensures
        e@ == invalid_selector(report@),
{
    RssHubError::ParseError(String::from_str("Invalid selector: ").concat(report.as_str()))
}

/// A field's text as an optional value: absent when empty.
fn text_if_present(text: String) -> (field: Option<String>)
    ensures
        option_view(field) == present(text@),
{
    if text.as_str().is_empty() {
        None
    } else {
        Some(text)
    }
}

impl HtmlParser {
    /// The address that `href`, found on a page at `base_url`, stands for.
    pub fn resolve_link(href: &str, base_url: &str) -> (link: String)
        ensures
            link@ == resolved_link(href@, base_url@),
    {
        if starts_with(href, "http://") || starts_with(href, "https://") {
            String::from_str(href)
        } else if starts_with(href, "/") {
            String::from_str(trim_trailing_slashes(base_url)).concat(href)
        } else {
            String::from_str(trim_trailing_slashes(base_url)).concat("/").concat(href)
        }
    }

    /// The trimmed text of the first descendant of `element` that matches
    /// `selector`, empty when none matches. Only a malformed selector is an error.
    pub fn extract_text(element: &ElementRef, selector: &str) -> (text: Result<String, RssHubError>)
        ensures
            text_view(text) == text_result(*element, selector@),
    {
        let group = match compile(selector) {
            Ok(group) => group,
            Err(report) => {
                return Err(selector_failure(report));
            },
        };
        match select_first(element, &group) {
            Some(found) => {
                let raw = element_text(&found);
                Ok(String::from_str(trim(raw.as_str())))
            },
            None => Ok(String::new()),
        }
    }

    /// The `href` of the first descendant of `element` that matches `selector`,
    /// when a descendant matches and has one.
    fn find_href(element: &ElementRef, selector: &str) -> (href: Result<Option<String>, RssHubError>)
        ensures
            optional_text_view(href) == (match selector_error(selector@) {
                Some(report) => Err(invalid_selector(report)),
                None => Ok(field_href(*element, selector@)),
            }),
    {
        let group = match compile(selector) {
            Ok(group) => group,
            Err(report) => {
                return Err(selector_failure(report));
            },
        };
        match select_first(element, &group) {
            Some(found) => Ok(element_attr(&found, "href")),
            None => Ok(None),
        }
    }

    /// The resolved address of the first descendant of `element` that matches
    /// `selector`. A malformed selector, no matching descendant and a match
    /// without `href` are three different errors.
    pub fn extract_link(element: &ElementRef, selector: &str, base_url: &str) -> (link: Result<
        String,
        RssHubError,
    >)
        ensures
            text_view(link) == link_result(*element, selector@, base_url@),
    {
        let group = match compile(selector) {
            Ok(group) => group,
            Err(report) => {
                return Err(selector_failure(report));
            },
        };
        match select_first(element, &group) {
            Some(found) => match element_attr(&found, "href") {
                Some(href) => Ok(Self::resolve_link(href.as_str(), base_url)),
                None => Err(RssHubError::ParseError(String::from_str("Link not found"))),
            },
            None => Err(RssHubError::ParseError(String::from_str("Link element not found"))),
        }
    }

    /// The date in the text of the first descendant of `element` that matches
    /// `selector`. Text that is empty or that no pattern accepts has no date;
    /// only a malformed selector is an error.
    pub fn extract_date(element: &ElementRef, selector: &str, format: Option<&str>) -> (date: Result<
        Option<Timestamp>,
        RssHubError,
    >)
        ensures
            date_view(date) == date_result(*element, selector@, str_option_view(format)),
    {
        match Self::extract_text(element, selector) {
            Err(e) => Err(e),
            Ok(text) => Ok(parse_date(text.as_str(), format)),
        }
    }

    /// An optional text field of `element`.
    fn extract_optional(element: &ElementRef, selector: &Option<String>) -> (field: Result<
        Option<String>,
        RssHubError,
    >)
        ensures
            optional_text_view(field) == optional_field(*element, option_view(*selector)),
    {
        match selector {
            None => Ok(None),
            Some(css) => match Self::extract_text(element, css.as_str()) {
                Err(e) => Err(e),
                Ok(text) => Ok(text_if_present(text)),
            },
        }
    }

    /// What one matched element contributes to the feed.
    pub fn parse_article(element: &ElementRef, config: &ListParserConfig, base_url: &str) -> (step:
        Result<Option<Article>, RssHubError>)
        ensures
            step_view(step) == article_of(*element, *config, base_url@),
    {
        let title = match Self::extract_text(element, config.title_selector.as_str()) {
            Ok(title) => title,
            Err(e) => {
                return Err(e);
            },
        };
        if title.as_str().is_empty() {
            return Ok(None);
        }
        let link = match Self::find_href(element, config.link_selector.as_str()) {
            Ok(Some(href)) => Self::resolve_link(href.as_str(), base_url),
            Ok(None) => {
                return Ok(None);
            },
            Err(e) => {
                return Err(e);
            },
        };
        let description = match Self::extract_optional(element, &config.description_selector) {
            Ok(description) => description,
            Err(e) => {
                return Err(e);
            },
        };
        let pub_date = match &config.date_selector {
            None => None,
            Some(css) => {
                let format: Option<&str> = match &config.date_format {
                    Some(f) => Some(f.as_str()),
                    None => None,
                };
                match Self::extract_date(element, css.as_str(), format) {
                    Ok(date) => date,
                    Err(e) => {
                        return Err(e);
                    },
                }
            },
        };
        let author = match Self::extract_optional(element, &config.author_selector) {
            Ok(author) => author,
            Err(e) => {
                return Err(e);
            },
        };
        let category = match Self::extract_optional(element, &config.category_selector) {
            Ok(category) => category,
            Err(e) => {
                return Err(e);
            },
        };
        Ok(
            Some(
                Article {
                    title,
                    link,
                    description,
                    content: None,
                    pub_date,
                    author,
                    category,
                    guid: None,
                },
            ),
        )
    }

    /// The articles of a parsed document: those of the elements that the list
    /// selector matches, in the order of the matches, at most `limit` of them.
    pub fn extract(document: &Html, rules: &ListParserConfig, base_url: &str, limit: usize) -> (found:
        Result<Vec<Article>, RssHubError>)
        ensures
            extraction_view(found) == extraction(document, *rules, base_url@, limit as nat),
    {
        let group = match compile(rules.selector.as_str()) {
            Ok(group) => group,
            Err(report) => {
                return Err(
                    RssHubError::ParseError(
                        String::from_str("Invalid list selector: ").concat(report.as_str()),
                    ),
                );
            },
        };
        let elements = select_all(document, &group);
        let mut articles: Vec<Article> = Vec::new();
        let mut index: usize = 0;
        proof {
            assert(elements@.skip(0) =~= elements@);
            assert(article_views(articles@) =~= Seq::empty());
            lemma_prepend_nothing(collect_articles(elements@, *rules, base_url@, limit as nat));
        }
        while index < elements.len() && articles.len() < limit
            invariant
                index <= elements.len(),
                articles.len() <= limit,
                compiled(rules.selector@) is Ok,
                elements@ == selected_elements(document, selector_of(rules.selector@)),
                collect_articles(elements@, *rules, base_url@, limit as nat) == prepend(
                    article_views(articles@),
                    collect_articles(
                        elements@.skip(index as int),
                        *rules,
                        base_url@,
                        (limit - articles.len()) as nat,
                    ),
                ),
            decreases elements.len() - index,
        {
            let ghost rest = elements@.skip(index as int);
            let ghost before = article_views(articles@);
            proof {
                assert(rest[0] == elements@[index as int]);
                assert(rest.drop_first() =~= elements@.skip(index + 1));
            }
            match Self::parse_article(&elements[index], rules, base_url) {
                Err(e) => {
                    return Err(e);
                },
                Ok(None) => {},
                Ok(Some(article)) => {
                    let ghost added = article@;
                    articles.push(article);
                    proof {
                        assert(article_views(articles@) =~= before.push(added));
                        let later = collect_articles(
                            elements@.skip(index + 1),
                            *rules,
                            base_url@,
                            (limit - articles.len()) as nat,
                        );
                        match later {
                            Ok(tail) => {
                                assert(before + (seq![added] + tail) =~= before.push(added) + tail);
                            },
                            Err(_) => {},
                        }
                    }
                },
            }
            index += 1;
        }
        proof {
            let remaining = collect_articles(
                elements@.skip(index as int),
                *rules,
                base_url@,
                (limit - articles.len()) as nat,
            );
            assert(remaining == Ok::<Seq<ArticleView>, ErrorView>(Seq::empty()));
            assert(article_views(articles@) + Seq::<ArticleView>::empty() =~= article_views(
                articles@,
            ));
        }
        Ok(articles)
    }

    /// The articles of a page of markup. The markup is parsed leniently; the
    /// list selector and every field selector that is needed must be well-formed.
    pub fn parse(html: &str, config: &ParserConfig, base_url: &str, limit: usize) -> (found: Result<
        Vec<Article>,
        RssHubError,
    >)
        ensures
            extraction_view(found) == extraction(
                &parsed_document(html@),
                config.list,
                base_url@,
                limit as nat,
            ),
    {
        let document = parse_document(html);
        Self::extract(&document, &config.list, base_url, limit)
    }
}

/// Nothing in front of a result leaves the result as it is.
proof fn lemma_prepend_nothing(later: Result<Seq<ArticleView>, ErrorView>)
    ensures
        prepend(Seq::empty(), later) == later,
{
    match later {
        Ok(rest) => {
            assert(Seq::<ArticleView>::empty() + rest =~= rest);
        },
        Err(_) => {},
    }
}

/// The articles of the elements that contribute one, in the order of the
/// elements.
pub open spec fn survivors(elements: Seq<ElementRef>, rules: ListParserConfig, base_url: Seq<char>) -> Seq<
    ArticleView,
>
    decreases elements.len(),
{
    if elements.len() == 0 {
        Seq::empty()
    } else {
        let later = survivors(elements.drop_first(), rules, base_url);
        match article_of(elements[0], rules, base_url) {
            Ok(Some(article)) => seq![article] + later,
            _ => later,
        }
    }
}

/// The number of elements in which the title selector finds no text.
pub open spec fn untitled(elements: Seq<ElementRef>, rules: ListParserConfig) -> nat
    decreases elements.len(),
{
    if elements.len() == 0 {
        0
    } else {
        let later = untitled(elements.drop_first(), rules);
        if field_text(elements[0], rules.title_selector@).len() == 0 {
            later + 1
        } else {
            later
        }
    }
}

/// Whether an optional selector, where it is given, is well-formed.
pub open spec fn well_formed_if_given(selector: Option<String>) -> bool {
    match selector {
        Some(css) => selector_error(css@) is None,
        None => true,
    }
}

/// Whether every field selector of `rules` is well-formed.
pub open spec fn field_selectors_well_formed(rules: ListParserConfig) -> bool {
    &&& selector_error(rules.title_selector@) is None
    &&& selector_error(rules.link_selector@) is None
    &&& well_formed_if_given(rules.description_selector)
    &&& well_formed_if_given(rules.date_selector)
    &&& well_formed_if_given(rules.author_selector)
    &&& well_formed_if_given(rules.category_selector)
}

/// Where no element fails and the limit admits every article, extraction
/// returns the articles of all contributing elements, in the order of the
/// elements.
pub proof fn lemma_survivors_keep_their_order(
    elements: Seq<ElementRef>,
    rules: ListParserConfig,
    base_url: Seq<char>,
    limit: nat,
)
    requires
        forall|i: int| 0 <= i < elements.len() ==> article_of(elements[i], rules, base_url) is Ok,
        survivors(elements, rules, base_url).len() <= limit,
    ensures
        collect_articles(elements, rules, base_url, limit) == Ok::<Seq<ArticleView>, ErrorView>(
            survivors(elements, rules, base_url),
        ),
    decreases elements.len(),
{
    if elements.len() == 0 {
    } else {
        let rest = elements.drop_first();
        assert forall|i: int| 0 <= i < rest.len() implies article_of(rest[i], rules, base_url) is Ok by {
            assert(rest[i] == elements[i + 1]);
        }
        match article_of(elements[0], rules, base_url) {
            Ok(Some(article)) => {
                lemma_survivors_keep_their_order(rest, rules, base_url, (limit - 1) as nat);
            },
            Ok(None) => {
                if limit == 0 {
                    assert(survivors(elements, rules, base_url) =~= Seq::empty());
                } else {
                    lemma_survivors_keep_their_order(rest, rules, base_url, limit);
                }
            },
            Err(_) => {},
        }
    }
}

/// Where every field selector is well-formed and every titled element has a
/// link, the contributing elements are exactly the titled ones.
pub proof fn lemma_titled_elements_survive(
    elements: Seq<ElementRef>,
    rules: ListParserConfig,
    base_url: Seq<char>,
)
    requires
        field_selectors_well_formed(rules),
        forall|i: int|
            0 <= i < elements.len() && field_text(elements[i], rules.title_selector@).len() > 0
                ==> field_href(elements[i], rules.link_selector@) is Some,
    ensures
        forall|i: int| 0 <= i < elements.len() ==> article_of(elements[i], rules, base_url) is Ok,
        survivors(elements, rules, base_url).len() + untitled(elements, rules) == elements.len(),
    decreases elements.len(),
{
    if elements.len() > 0 {
        let rest = elements.drop_first();
        assert forall|i: int|
            0 <= i < rest.len() && field_text(rest[i], rules.title_selector@).len()
                > 0 implies field_href(rest[i], rules.link_selector@) is Some by {
            assert(rest[i] == elements[i + 1]);
        }
        lemma_titled_elements_survive(rest, rules, base_url);
        assert forall|i: int| 0 <= i < elements.len() implies article_of(
            elements[i],
            rules,
            base_url,
        ) is Ok by {
            if i > 0 {
                assert(elements[i] == rest[i - 1]);
            }
        }
    }
}

/// Of `N` elements that the list selector matches, `K` of them without a title,
/// extraction returns exactly `N - K` articles, in the order of their elements:
/// provided that every selector is well-formed, that every titled element has a
/// link, and that the limit is at least `N - K`.
pub proof fn lemma_extraction_drops_untitled(
    document: &Html,
    rules: ListParserConfig,
    base_url: Seq<char>,
    limit: nat,
)
    requires
        selector_error(rules.selector@) is None,
        field_selectors_well_formed(rules),
        forall|i: int|
            0 <= i < selected_elements(document, selector_of(rules.selector@)).len() && field_text(
                selected_elements(document, selector_of(rules.selector@))[i],
                rules.title_selector@,
            ).len() > 0 ==> field_href(
                selected_elements(document, selector_of(rules.selector@))[i],
                rules.link_selector@,
            ) is Some,
        selected_elements(document, selector_of(rules.selector@)).len() - untitled(
            selected_elements(document, selector_of(rules.selector@)),
            rules,
        ) <= limit,
    ensures
        extraction(document, rules, base_url, limit) == Ok::<Seq<ArticleView>, ErrorView>(
            survivors(selected_elements(document, selector_of(rules.selector@)), rules, base_url),
        ),
        survivors(selected_elements(document, selector_of(rules.selector@)), rules, base_url).len()
            == selected_elements(document, selector_of(rules.selector@)).len() - untitled(
            selected_elements(document, selector_of(rules.selector@)),
            rules,
        ),
{
    let elements = selected_elements(document, selector_of(rules.selector@));
    lemma_titled_elements_survive(elements, rules, base_url);
    lemma_survivors_keep_their_order(elements, rules, base_url, limit);
}

/// Extraction returns at most `limit` articles and at most one for each
/// element, and every article it returns has a title and carries neither full
/// content nor an identifier of its own.
pub proof fn lemma_extracted_articles_are_bounded(
    elements: Seq<ElementRef>,
    rules: ListParserConfig,
    base_url: Seq<char>,
    limit: nat,
)
    ensures
        collect_articles(elements, rules, base_url, limit) matches Ok(articles) ==> {
            &&& articles.len() <= limit
            &&& articles.len() <= elements.len()
            &&& forall|i: int|
                0 <= i < articles.len() ==> (#[trigger] articles[i]).title.len() > 0
                    && articles[i].content is None && articles[i].guid is None
        },
    decreases elements.len(),
{
    if limit == 0 || elements.len() == 0 {
    } else {
        let rest = elements.drop_first();
        match article_of(elements[0], rules, base_url) {
            Ok(Some(article)) => {
                lemma_extracted_articles_are_bounded(rest, rules, base_url, (limit - 1) as nat);
            },
            Ok(None) => {
                lemma_extracted_articles_are_bounded(rest, rules, base_url, limit);
            },
            Err(_) => {},
        }
    }
}

/// An absolute address resolves to itself, whatever the base.
pub proof fn lemma_absolute_link_is_unchanged(href: Seq<char>, base_url: Seq<char>)
    requires
        is_absolute(href),
    ensures
        resolved_link(href, base_url) == href,
{
}

/// One more slash at the end of the base changes no resolved address.
pub proof fn lemma_trailing_slash_of_base_is_ignored(href: Seq<char>, base_url: Seq<char>)
    ensures
        resolved_link(href, base_url.push('/')) == resolved_link(href, base_url),
{
    assert(base_url.push('/').drop_last() =~= base_url);
}

/// A relative address resolves to the same address with and without a slash
/// in front of it.
pub proof fn lemma_leading_slash_of_link_is_ignored(href: Seq<char>, base_url: Seq<char>)
    requires
        !is_absolute(href),
        !"/"@.is_prefix_of(href),
    ensures
        resolved_link("/"@ + href, base_url) == resolved_link(href, base_url),
{
    reveal_strlit("/");
    reveal_strlit("http://");
    reveal_strlit("https://");
    let rooted = "/"@ + href;
    assert(rooted[0] == '/');
    assert("/"@.is_prefix_of(rooted)) by {
        assert(rooted.subrange(0, 1) =~= "/"@);
    }
    assert(!is_absolute(rooted)) by {
        if "http://"@.is_prefix_of(rooted) {
            assert(rooted.subrange(0, 7)[0] == 'h');
        }
        if "https://"@.is_prefix_of(rooted) {
            assert(rooted.subrange(0, 8)[0] == 'h');
        }
    }
    assert(strip_trailing(base_url, '/') + rooted =~= strip_trailing(base_url, '/') + "/"@ + href);
}

} // verus!

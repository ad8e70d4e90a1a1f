//! From the text of the page to its songs.

use crate::candidate::{
    candidate_views, songs_from_candidates, songs_of, targets, Body, BodyView, Candidate,
    CandidateView,
};
use crate::laws::lemma_songs_are_complete;
use crate::markup::{
    attribute, document_matches, element_attribute, element_matches, element_texts,
    parse_document, parse_selector, parsed_document, parsed_selector, select_in_document,
    select_in_element, texts_below,
};
use crate::song::{song_views, Song};
use vstd::prelude::*;

verus! {

/// Selector of the elements that hold one entry each.
pub const ENTRY_SELECTOR: &'static str = "div.wiki-section-3";

/// Selector of the title element of an entry.
pub const TITLE_SELECTOR: &'static str = "div.title-3";

/// Selector of the body element of an entry.
pub const BODY_SELECTOR: &'static str = "div.wiki-section-body-3";

/// Selector of the outgoing links of a body.
pub const LINK_SELECTOR: &'static str = "a.outlink";

/// Attribute that holds the target of a link.
pub const LINK_ATTRIBUTE: &'static str = "href";

/// Why a page cannot be scraped at all.
#[derive(Debug, Clone, Copy, PartialEq, Eq, Structural)]
pub enum ScrapeError {
    /// One of the selectors is not accepted as CSS.
    InvalidSelector,
}

/// Whether all the selectors that the scraper uses are accepted as CSS.
pub open spec fn selectors_are_valid() -> bool {
    &&& parsed_selector(ENTRY_SELECTOR@) is Some
    &&& parsed_selector(TITLE_SELECTOR@) is Some
    &&& parsed_selector(BODY_SELECTOR@) is Some
    &&& parsed_selector(LINK_SELECTOR@) is Some
}

/// The target of the link `anchor`, where it has one.
pub open spec fn link_target(anchor: scraper::ElementRef<'_>) -> Option<Seq<char>> {
    element_attribute(anchor, LINK_ATTRIBUTE@)
}

/// What the element `body` holds as the body of an entry: the target of each
/// of its links, and its texts.
pub open spec fn body_of(body: scraper::ElementRef<'_>, link: scraper::Selector) -> BodyView {
    BodyView {
        hrefs: element_matches(body, link).map_values(
            |anchor: scraper::ElementRef<'_>| link_target(anchor),
        ),
        texts: element_texts(body),
    }
}

/// What the element `entry` holds as an entry of the page: the texts of the
/// first element below it that matches `title`, and the links and texts of
/// the first that matches `body`; `None` for each where nothing matches.
pub open spec fn candidate_of(
    entry: scraper::ElementRef<'_>,
    title: scraper::Selector,
    body: scraper::Selector,
    link: scraper::Selector,
) -> CandidateView {
    let titles = element_matches(entry, title);
    let bodies = element_matches(entry, body);
    CandidateView {
        title_texts: if titles.len() > 0 {
            Some(element_texts(titles[0]))
        } else {
            None
        },
        body: if bodies.len() > 0 {
            Some(body_of(bodies[0], link))
        } else {
            None
        },
    }
}

/// What the element `entry` holds as an entry of the page, under the
/// selectors of the scraper.
pub open spec fn entry_candidate(entry: scraper::ElementRef<'_>) -> CandidateView {
    candidate_of(
        entry,
        parsed_selector(TITLE_SELECTOR@)->0,
        parsed_selector(BODY_SELECTOR@)->0,
        parsed_selector(LINK_SELECTOR@)->0,
    )
}

/// The entries of the page `html`, in the order in which the entry selector
/// finds them in the parsed page.
pub open spec fn page_candidates(html: Seq<char>) -> Seq<CandidateView> {
    document_matches(&parsed_document(html), parsed_selector(ENTRY_SELECTOR@)->0).map_values(
        |entry: scraper::ElementRef<'_>| entry_candidate(entry),
    )
}

/// What the page holds for the entry `entry`: the texts of its first title
/// element, and the link targets and texts of its first body element.
fn read_candidate(
    entry: &scraper::ElementRef,
    title: &scraper::Selector,
    body: &scraper::Selector,
    link: &scraper::Selector,
) -> (r: Candidate)
    ensures
        r@ == candidate_of(*entry, *title, *body, *link),
{
    let titles = select_in_element(entry, title);
    let title_texts = if titles.len() > 0 {
        Some(texts_below(&titles[0]))
    } else {
        None
    };
    let bodies = select_in_element(entry, body);
    let body = if bodies.len() > 0 {
        let anchors = select_in_element(&bodies[0], link);
        let mut hrefs: Vec<Option<String>> = Vec::new();
        let mut i: usize = 0;
        while i < anchors.len()
            invariant
                i <= anchors.len(),
                targets(hrefs@) == anchors@.take(i as int).map_values(
                    |anchor: scraper::ElementRef<'_>| link_target(anchor),
                ),
            decreases anchors.len() - i,
        {
            let href = attribute(&anchors[i], LINK_ATTRIBUTE);
            proof {
                anchors@.lemma_map_take_succ(
                    |anchor: scraper::ElementRef<'_>| link_target(anchor),
                    i as int,
                );
                assert(targets(hrefs@.push(href)) =~= targets(hrefs@).push(
                    link_target(anchors@[i as int]),
                ));
            }
            hrefs.push(href);
            i += 1;
        }
        proof {
            assert(anchors@.take(anchors.len() as int) == anchors@);
        }
        Some(Body { hrefs, texts: texts_below(&bodies[0]) })
    } else {
        None
    };
    Candidate { title_texts, body }
}

/// The entries of the page `html`, in document order, as the page holds them.
///
/// Fails exactly where a selector is not accepted as CSS. Otherwise the page
/// is parsed once, and each element that the entry selector finds gives one
/// candidate.
pub fn candidates(html: &str) -> (r: Result<Vec<Candidate>, ScrapeError>)
    ensures
        match r {
            Ok(found) => selectors_are_valid() && candidate_views(found@) == page_candidates(
                html@,
            ),
            Err(why) => !selectors_are_valid() && why == ScrapeError::InvalidSelector,
        },
{
    let entry = match parse_selector(ENTRY_SELECTOR) {
        Some(s) => s,
        None => {
            return Err(ScrapeError::InvalidSelector);
        },
    };
    let title = match parse_selector(TITLE_SELECTOR) {
        Some(s) => s,
        None => {
            return Err(ScrapeError::InvalidSelector);
        },
    };
    let body = match parse_selector(BODY_SELECTOR) {
        Some(s) => s,
        None => {
            return Err(ScrapeError::InvalidSelector);
        },
    };
    let link = match parse_selector(LINK_SELECTOR) {
        Some(s) => s,
        None => {
            return Err(ScrapeError::InvalidSelector);
        },
    };
    let document = parse_document(html);
    let entries = select_in_document(&document, &entry);
    let mut out: Vec<Candidate> = Vec::new();
    let mut i: usize = 0;
    while i < entries.len()
        invariant
            i <= entries.len(),
            title == parsed_selector(TITLE_SELECTOR@)->0,
            body == parsed_selector(BODY_SELECTOR@)->0,
            link == parsed_selector(LINK_SELECTOR@)->0,
            candidate_views(out@) == entries@.take(i as int).map_values(
                |entry: scraper::ElementRef<'_>| entry_candidate(entry),
            ),
        decreases entries.len() - i,
    {
        let candidate = read_candidate(&entries[i], &title, &body, &link);
        proof {
            entries@.lemma_map_take_succ(
                |entry: scraper::ElementRef<'_>| entry_candidate(entry),
                i as int,
            );
            assert(candidate_views(out@.push(candidate)) =~= candidate_views(out@).push(
                entry_candidate(entries@[i as int]),
            ));
        }
        out.push(candidate);
        i += 1;
    }
    proof {
        assert(entries@.take(entries.len() as int) == entries@);
    }
    Ok(out)
}

/// The songs of the page `html`, in document order.
///
/// Fails exactly where a selector is not accepted as CSS. Otherwise the songs
/// are those that the entries of the page yield: an entry that yields none is
/// left out, and the others keep their order. Every song has a title and a
/// member that are not empty.
pub fn scrape(html: &str) -> (r: Result<Vec<Song>, ScrapeError>)
    ensures
        match r {
            Ok(songs) => selectors_are_valid() && song_views(songs@) == songs_of(
                page_candidates(html@),
            ),
            Err(why) => !selectors_are_valid() && why == ScrapeError::InvalidSelector,
        },
        r matches Ok(songs) ==> forall|i: int|
            0 <= i < songs.len() ==> {
                &&& (#[trigger] songs[i])@.title.len() > 0
                &&& songs[i]@.member.len() > 0
            },
{
    match candidates(html) {
        Err(why) => Err(why),
        Ok(found) => {
            let songs = songs_from_candidates(&found);
            proof {
                lemma_songs_are_complete(candidate_views(found@));
                assert forall|i: int| 0 <= i < songs.len() implies {
                    &&& (#[trigger] songs[i])@.title.len() > 0
                    &&& songs[i]@.member.len() > 0
                } by {
                    assert(song_views(songs@)[i] == songs[i]@);
                }
            }
            Ok(songs)
        },
    }
}

} // verus!

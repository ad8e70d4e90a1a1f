//! What the page holds for one entry, and the song that it yields.

use crate::property::{
    clean_properties, cleaned, find_labeled, first_labeled, kept_link, lines, links_of, nonblank,
    nonblank_texts, separated_value, value_of_line, MEMBER_LABEL, PUBLISHED_LABEL,
};
use crate::date::{published_at, published_of};
use crate::song::{song_views, Skip, Song, SongView};
use vstd::prelude::*;

verus! {

/// The body element of an entry.
#[derive(Debug, Clone)]
pub struct Body {
    /// The `href` attribute of each outgoing link, in document order; `None`
    /// where a link has none.
    pub hrefs: Vec<Option<String>>,
    /// The text nodes below the body element, in document order.
    pub texts: Vec<String>,
}

/// One entry of the page, before any rule is applied.
#[derive(Debug, Clone)]
pub struct Candidate {
    /// The text nodes below the first title element; `None` where the entry
    /// has no title element.
    pub title_texts: Option<Vec<String>>,
    /// The first body element; `None` where the entry has none.
    pub body: Option<Body>,
}

/// A body as a mathematical value.
pub struct BodyView {
    pub hrefs: Seq<Option<Seq<char>>>,
    pub texts: Seq<Seq<char>>,
}

/// A candidate as a mathematical value.
pub struct CandidateView {
    pub title_texts: Option<Seq<Seq<char>>>,
    pub body: Option<BodyView>,
}

/// The link targets of `v` as sequences of characters.
pub open spec fn targets(v: Seq<Option<String>>) -> Seq<Option<Seq<char>>> {
    v.map_values(
        |h: Option<String>|
            match h {
                Some(s) => Some(s@),
                None => None,
            },
    )
}

impl View for Body {
    type V = BodyView;

    open spec fn view(&self) -> BodyView {
        BodyView { hrefs: targets(self.hrefs@), texts: lines(self.texts@) }
    }
}

impl View for Candidate {
    type V = CandidateView;

    open spec fn view(&self) -> CandidateView {
        CandidateView {
            title_texts: match self.title_texts {
                Some(t) => Some(lines(t@)),
                None => None,
            },
            body: match self.body {
                Some(b) => Some(b@),
                None => None,
            },
        }
    }
}

/// What an entry states, with its day of publication still as text.
#[derive(Debug, Clone)]
pub struct Entry {
    pub title: String,
    pub member: String,
    /// The value of the publication line, where the body has one.
    pub published_text: Option<String>,
    pub links: Vec<String>,
    pub properties: Vec<String>,
}

/// An entry as a mathematical value.
pub struct EntryView {
    pub title: Seq<char>,
    pub member: Seq<char>,
    pub published_text: Option<Seq<char>>,
    pub links: Seq<Seq<char>>,
    pub properties: Seq<Seq<char>>,
}

impl View for Entry {
    type V = EntryView;

    open spec fn view(&self) -> EntryView {
        EntryView {
            title: self.title@,
            member: self.member@,
            published_text: match self.published_text {
                Some(t) => Some(t@),
                None => None,
            },
            links: lines(self.links@),
            properties: lines(self.properties@),
        }
    }
}

/// What the body lines `props` state once the member line, found at `m` with
/// the value `member`, is taken out.
pub open spec fn entry_after_member(
    title: Seq<char>,
    links: Seq<Seq<char>>,
    props: Seq<Seq<char>>,
    m: int,
    member: Seq<char>,
) -> Result<EntryView, Skip> {
    let rest = props.remove(m);
    let p = first_labeled(rest, PUBLISHED_LABEL@);
    if member.len() == 0 {
        Err(Skip::EmptyMember)
    } else if p >= rest.len() {
        Ok(EntryView { title, member, published_text: None, links, properties: cleaned(rest) })
    } else {
        match separated_value(rest[p]) {
            None => Err(Skip::PublishedWithoutSeparator),
            Some(v) => Ok(
                EntryView {
                    title,
                    member,
                    published_text: Some(v),
                    links,
                    properties: cleaned(rest.remove(p)),
                },
            ),
        }
    }
}

/// What the candidate `c` states, or why it yields no song.
///
/// The title is the one non-blank text of the title element. The member is
/// the value of the first body line that begins with the member label, the
/// day of publication the value of the first remaining line that begins with
/// the publication label. The lines left after these two are the properties.
pub open spec fn entry_of(c: CandidateView) -> Result<EntryView, Skip> {
    match c.title_texts {
        None => Err(Skip::MissingTitle),
        Some(title_texts) => {
            let titles = nonblank(title_texts);
            if titles.len() != 1 {
                Err(Skip::AmbiguousTitle)
            } else {
                match c.body {
                    None => Err(Skip::MissingBody),
                    Some(body) => {
                        let props = nonblank(body.texts);
                        let m = first_labeled(props, MEMBER_LABEL@);
                        if m >= props.len() {
                            Err(Skip::MissingMember)
                        } else {
                            match separated_value(props[m]) {
                                None => Err(Skip::MemberWithoutSeparator),
                                Some(member) => entry_after_member(
                                    titles[0],
                                    links_of(body.hrefs),
                                    props,
                                    m,
                                    member,
                                ),
                            }
                        }
                    },
                }
            }
        },
    }
}

/// The link targets of `hrefs` that are present and not empty, in order.
pub fn collect_links(hrefs: &Vec<Option<String>>) -> (r: Vec<String>)
    ensures
        lines(r@) == links_of(targets(hrefs@)),
{
    let mut out: Vec<String> = Vec::new();
    let mut i: usize = 0;
    while i < hrefs.len()
        invariant
            i <= hrefs.len(),
            lines(out@) == links_of(targets(hrefs@).take(i as int)),
        decreases hrefs.len() - i,
    {
        proof {
            targets(hrefs@).lemma_filter_map_take_succ(
                |h: Option<Seq<char>>| kept_link(h),
                i as int,
            );
        }
        match &hrefs[i] {
            Some(h) => {
                if !h.as_str().is_empty() {
                    out.push(h.clone());
                }
            },
            None => {},
        }
        i += 1;
    }
    proof {
        assert(targets(hrefs@).take(hrefs.len() as int) == targets(hrefs@));
    }
    out
}

/// Reads what the candidate states, or says why it yields no song.
pub fn read_entry(c: &Candidate) -> (r: Result<Entry, Skip>)
    ensures
        match r {
            Ok(e) => entry_of(c@) == Ok::<EntryView, Skip>(e@),
            Err(why) => entry_of(c@) == Err::<EntryView, Skip>(why),
        },
{
    let titles = match &c.title_texts {
        None => {
            return Err(Skip::MissingTitle);
        },
        Some(texts) => nonblank_texts(texts),
    };
    if titles.len() != 1 {
        return Err(Skip::AmbiguousTitle);
    }
    let title = titles[0].clone();
    let body = match &c.body {
        None => {
            return Err(Skip::MissingBody);
        },
        Some(b) => b,
    };
    let links = collect_links(&body.hrefs);
    let mut props = nonblank_texts(&body.texts);
    let ghost all = lines(props@);
    let m = match find_labeled(&props, MEMBER_LABEL) {
        None => {
            return Err(Skip::MissingMember);
        },
        Some(m) => m,
    };
    let member_line = props.remove(m);
    proof {
        assert(lines(props@) =~= all.remove(m as int));
    }
    let member = match value_of_line(member_line.as_str()) {
        None => {
            return Err(Skip::MemberWithoutSeparator);
        },
        Some(v) => v,
    };
    if member.as_str().is_empty() {
        return Err(Skip::EmptyMember);
    }
    let ghost rest = lines(props@);
    let published_text = match find_labeled(&props, PUBLISHED_LABEL) {
        None => None,
        Some(p) => {
            let line = props.remove(p);
            proof {
                assert(lines(props@) =~= rest.remove(p as int));
            }
            match value_of_line(line.as_str()) {
                None => {
                    return Err(Skip::PublishedWithoutSeparator);
                },
                Some(v) => Some(v),
            }
        },
    };
    let properties = clean_properties(&props);
    Ok(Entry { title, member, published_text, links, properties })
}

/// The song that an entry and its instant of publication make.
pub open spec fn song_with(e: EntryView, published: Option<i64>) -> SongView {
    SongView {
        title: e.title,
        member: e.member,
        published,
        links: e.links,
        properties: e.properties,
    }
}

/// The song that the candidate `c` yields, or why it yields none.
pub open spec fn song_of(c: CandidateView) -> Result<SongView, Skip> {
    match entry_of(c) {
        Err(why) => Err(why),
        Ok(e) => match e.published_text {
            None => Ok(song_with(e, None)),
            Some(value) => match published_of(value) {
                Err(why) => Err(why),
                Ok(seconds) => Ok(song_with(e, Some(seconds))),
            },
        },
    }
}

/// The song of `c` where it yields one.
pub open spec fn emitted(c: CandidateView) -> Option<SongView> {
    match song_of(c) {
        Ok(s) => Some(s),
        Err(_) => None,
    }
}

/// The songs that the candidates `cs` yield, in their order.
pub open spec fn songs_of(cs: Seq<CandidateView>) -> Seq<SongView> {
    cs.filter_map(|c: CandidateView| emitted(c))
}

/// The views of the candidates of `v`.
pub open spec fn candidate_views(v: Seq<Candidate>) -> Seq<CandidateView> {
    v.map_values(|c: Candidate| c@)
}

impl Entry {
    /// The song that this entry makes with the instant `published`.
    pub fn into_song(self, published: Option<i64>) -> (r: Song)
        ensures
            r@ == song_with(self@, published),
    {
        Song {
            title: self.title,
            member: self.member,
            published,
            links: self.links,
            properties: self.properties,
        }
    }
}

/// The song that the candidate yields, or the reason why it yields none.
pub fn song_from_candidate(c: &Candidate) -> (r: Result<Song, Skip>)
    ensures
        match r {
            Ok(s) => song_of(c@) == Ok::<SongView, Skip>(s@),
            Err(why) => song_of(c@) == Err::<SongView, Skip>(why),
        },
{
    let entry = match read_entry(c) {
        Err(why) => {
            return Err(why);
        },
        Ok(e) => e,
    };
    let published = match &entry.published_text {
        None => None,
        Some(value) => match published_at(value.as_str()) {
            Err(why) => {
                return Err(why);
            },
            Ok(seconds) => Some(seconds),
        },
    };
    Ok(entry.into_song(published))
}

/// The songs that the candidates yield, in their order; a candidate that
/// yields none is left out.
pub fn songs_from_candidates(cs: &Vec<Candidate>) -> (r: Vec<Song>)
    ensures
        song_views(r@) == songs_of(candidate_views(cs@)),
{
    let mut out: Vec<Song> = Vec::new();
    let mut i: usize = 0;
    while i < cs.len()
        invariant
            i <= cs.len(),
            song_views(out@) == songs_of(candidate_views(cs@).take(i as int)),
        decreases cs.len() - i,
    {
        proof {
            candidate_views(cs@).lemma_filter_map_take_succ(
                |c: CandidateView| emitted(c),
                i as int,
            );
        }
        match song_from_candidate(&cs[i]) {
            Ok(song) => {
                out.push(song);
            },
            Err(_) => {},
        }
        i += 1;
    }
    proof {
        assert(candidate_views(cs@).take(cs.len() as int) == candidate_views(cs@));
    }
    out
}

} // verus!

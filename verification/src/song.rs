//! The song record and the reasons for which an entry yields none.

use crate::property::lines;
use vstd::prelude::*;

verus! {

/// One musical work of the list.
#[derive(Debug, Clone)]
pub struct Song {
    /// Title of the work; never empty.
    pub title: String,
    /// Performers of the work; never empty.
    pub member: String,
    /// Instant of publication in UTC, as seconds since 1970-01-01T00:00:00Z.
    pub published: Option<i64>,
    /// Targets of the outgoing links of the entry, in document order.
    pub links: Vec<String>,
    /// The remaining free-text lines of the entry, in document order.
    pub properties: Vec<String>,
}

/// A song as a mathematical value.
pub struct SongView {
    pub title: Seq<char>,
    pub member: Seq<char>,
    pub published: Option<i64>,
    pub links: Seq<Seq<char>>,
    pub properties: Seq<Seq<char>>,
}

impl View for Song {
    type V = SongView;

    open spec fn view(&self) -> SongView {
        SongView {
            title: self.title@,
            member: self.member@,
            published: self.published,
            links: lines(self.links@),
            properties: lines(self.properties@),
        }
    }
}

/// Why an entry of the page yields no song.
#[derive(Debug, Clone, Copy, PartialEq, Eq, Structural)]
pub enum Skip {
    /// The entry has no title element.
    MissingTitle,
    /// The title element does not hold exactly one non-blank text.
    AmbiguousTitle,
    /// The entry has no body element.
    MissingBody,
    /// No line of the body begins with the member label.
    MissingMember,
    /// The member line holds neither an ASCII nor a fullwidth colon.
    MemberWithoutSeparator,
    /// The member line names nobody.
    EmptyMember,
    /// The publication line holds neither an ASCII nor a fullwidth colon.
    PublishedWithoutSeparator,
    /// The publication line holds no date of the form year/month/day.
    UnparsableDate,
    /// Noon of the publication day does not exist in the local offset.
    InvalidLocalTime,
}

/// The views of the songs of `v`.
pub open spec fn song_views(v: Seq<Song>) -> Seq<SongView> {
    v.map_values(|s: Song| s@)
}

} // verus!

//! What holds of the scraping rules for every page.

use crate::candidate::{
    emitted, entry_of, song_of, songs_of, CandidateView,
};
use crate::property::{
    first_labeled, lemma_first_labeled, nonblank, nonblank_text, separated_value, MEMBER_LABEL,
    PUBLISHED_LABEL,
};
use crate::song::{Skip, SongView};
use crate::text::trimmed;
use vstd::prelude::*;

verus! {

/// Every non-blank text is the trimmed form of one of the texts it was taken
/// from, and is not empty.
pub proof fn lemma_nonblank_entries(texts: Seq<Seq<char>>)
    ensures
        nonblank(texts).len() <= texts.len(),
        forall|i: int|
            0 <= i < nonblank(texts).len() ==> {
                &&& (#[trigger] nonblank(texts)[i]).len() > 0
                &&& exists|j: int| 0 <= j < texts.len() && nonblank(texts)[i] == trimmed(texts[j])
            },
    decreases texts.len(),
{
    if texts.len() > 0 {
        let rest = texts.drop_last();
        lemma_nonblank_entries(rest);
        assert forall|i: int| 0 <= i < nonblank(texts).len() implies {
            &&& (#[trigger] nonblank(texts)[i]).len() > 0
            &&& exists|j: int| 0 <= j < texts.len() && nonblank(texts)[i] == trimmed(texts[j])
        } by {
            if i < nonblank(rest).len() {
                let j = choose|j: int|
                    0 <= j < rest.len() && nonblank(rest)[i] == trimmed(rest[j]);
                assert(rest[j] == texts[j]);
            } else {
                assert(nonblank(texts)[i] == trimmed(texts[texts.len() - 1]));
            }
        }
    }
}

/// Texts that are all blank leave nothing.
pub proof fn lemma_nonblank_of_blank(texts: Seq<Seq<char>>)
    requires
        forall|j: int| 0 <= j < texts.len() ==> trimmed(#[trigger] texts[j]).len() == 0,
    ensures
        nonblank(texts) == Seq::<Seq<char>>::empty(),
    decreases texts.len(),
{
    if texts.len() > 0 {
        let rest = texts.drop_last();
        assert forall|j: int| 0 <= j < rest.len() implies trimmed(#[trigger] rest[j]).len()
            == 0 by {
            assert(rest[j] == texts[j]);
        }
        lemma_nonblank_of_blank(rest);
        assert(nonblank_text(texts.last()) is None);
    }
}

/// Where exactly one of the texts is not blank, that text, trimmed, is all
/// that is left.
pub proof fn lemma_nonblank_single(texts: Seq<Seq<char>>, i: int)
    requires
        0 <= i < texts.len(),
        trimmed(texts[i]).len() > 0,
        forall|j: int| 0 <= j < texts.len() && j != i ==> trimmed(#[trigger] texts[j]).len() == 0,
    ensures
        nonblank(texts) == seq![trimmed(texts[i])],
    decreases texts.len(),
{
    let rest = texts.drop_last();
    if i == texts.len() - 1 {
        assert forall|j: int| 0 <= j < rest.len() implies trimmed(#[trigger] rest[j]).len()
            == 0 by {
            assert(rest[j] == texts[j]);
        }
        lemma_nonblank_of_blank(rest);
        assert(nonblank(texts) =~= seq![trimmed(texts[i])]);
    } else {
        assert(rest[i] == texts[i]);
        assert forall|j: int| 0 <= j < rest.len() && j != i implies trimmed(
            #[trigger] rest[j],
        ).len() == 0 by {
            assert(rest[j] == texts[j]);
        }
        lemma_nonblank_single(rest, i);
        assert(nonblank_text(texts.last()) is None);
    }
}

/// A line that begins with the member label or with the publication label
/// holds a separator, so it has a value.
pub proof fn lemma_labeled_line_has_value(line: Seq<char>)
    requires
        MEMBER_LABEL@.is_prefix_of(line) || PUBLISHED_LABEL@.is_prefix_of(line),
    ensures
        separated_value(line) is Some,
{
    reveal_strlit("メンバー：");
    reveal_strlit("音源公開日：");
    if MEMBER_LABEL@.is_prefix_of(line) {
        assert(line[4] == MEMBER_LABEL@[4]);
        assert(line[4] == '：');
    } else {
        assert(line[5] == PUBLISHED_LABEL@[5]);
        assert(line[5] == '：');
    }
}

/// No candidate is skipped for want of a separator: the labels hold one.
pub proof fn lemma_separator_is_never_missing(c: CandidateView)
    ensures
        song_of(c) != Err::<SongView, Skip>(Skip::MemberWithoutSeparator),
        song_of(c) != Err::<SongView, Skip>(Skip::PublishedWithoutSeparator),
        entry_of(c) != Err::<crate::candidate::EntryView, Skip>(Skip::MemberWithoutSeparator),
        entry_of(c) != Err::<crate::candidate::EntryView, Skip>(Skip::PublishedWithoutSeparator),
{
    if c.title_texts is Some && c.body is Some {
        let props = nonblank(c.body->0.texts);
        lemma_first_labeled(props, MEMBER_LABEL@);
        let m = first_labeled(props, MEMBER_LABEL@);
        if m < props.len() {
            lemma_labeled_line_has_value(props[m]);
            let rest = props.remove(m);
            lemma_first_labeled(rest, PUBLISHED_LABEL@);
            let p = first_labeled(rest, PUBLISHED_LABEL@);
            if p < rest.len() {
                lemma_labeled_line_has_value(rest[p]);
            }
        }
    }
}

/// Every song has a title and a member that are not empty.
pub proof fn lemma_song_is_complete(c: CandidateView)
    ensures
        song_of(c) matches Ok(s) ==> s.title.len() > 0 && s.member.len() > 0,
{
    if c.title_texts is Some {
        lemma_nonblank_entries(c.title_texts->0);
    }
}

/// A candidate without a title element yields no song.
pub proof fn lemma_missing_title_is_skipped(c: CandidateView)
    requires
        c.title_texts is None,
    ensures
        song_of(c) == Err::<SongView, Skip>(Skip::MissingTitle),
        emitted(c) is None,
{
}

/// A candidate whose body has no line that begins with the member label
/// yields no song.
pub proof fn lemma_missing_member_is_skipped(c: CandidateView)
    requires
        c.body matches Some(body) && forall|i: int|
            0 <= i < nonblank(body.texts).len() ==> !MEMBER_LABEL@.is_prefix_of(
                #[trigger] nonblank(body.texts)[i],
            ),
    ensures
        song_of(c) is Err,
        emitted(c) is None,
{
    let props = nonblank(c.body->0.texts);
    lemma_first_labeled(props, MEMBER_LABEL@);
}

/// Where the title element holds exactly one text that is not blank, the
/// title of the song, if the candidate yields one, is that text, trimmed.
pub proof fn lemma_title_is_the_single_text(c: CandidateView, i: int)
    requires
        c.title_texts matches Some(texts) && {
            &&& 0 <= i < texts.len()
            &&& trimmed(texts[i]).len() > 0
            &&& forall|j: int|
                0 <= j < texts.len() && j != i ==> trimmed(#[trigger] texts[j]).len() == 0
        },
    ensures
        song_of(c) != Err::<SongView, Skip>(Skip::MissingTitle),
        song_of(c) != Err::<SongView, Skip>(Skip::AmbiguousTitle),
        song_of(c) matches Ok(s) ==> s.title == trimmed(c.title_texts->0[i]),
{
    lemma_nonblank_single(c.title_texts->0, i);
}

/// The songs of two runs of candidates, one after the other, are the songs of
/// the first followed by the songs of the second.
pub proof fn lemma_songs_of_concat(a: Seq<CandidateView>, b: Seq<CandidateView>)
    ensures
        songs_of(a + b) == songs_of(a) + songs_of(b),
    decreases b.len(),
{
    if b.len() == 0 {
        assert(a + b =~= a);
        assert(songs_of(a) + songs_of(b) =~= songs_of(a));
    } else {
        assert((a + b).drop_last() =~= a + b.drop_last());
        assert((a + b).last() == b.last());
        lemma_songs_of_concat(a, b.drop_last());
        assert(songs_of(a + b) =~= songs_of(a) + songs_of(b));
    }
}

/// A candidate that yields no song changes nothing in what the candidates
/// before and after it yield.
pub proof fn lemma_skipped_candidate_changes_nothing(
    before: Seq<CandidateView>,
    c: CandidateView,
    after: Seq<CandidateView>,
)
    requires
        song_of(c) is Err,
    ensures
        songs_of(before + seq![c] + after) == songs_of(before + after),
        songs_of(before + seq![c] + after).len() == songs_of(before).len() + songs_of(
            after,
        ).len(),
{
    lemma_songs_of_concat(before + seq![c], after);
    lemma_songs_of_concat(before, seq![c]);
    lemma_songs_of_concat(before, after);
    assert(seq![c].drop_last() =~= Seq::<CandidateView>::empty());
    assert(songs_of(seq![c]) =~= Seq::<SongView>::empty()) by {
        assert(songs_of(Seq::<CandidateView>::empty()) =~= Seq::<SongView>::empty());
    }
    assert(songs_of(before) + Seq::<SongView>::empty() =~= songs_of(before));
}

/// A candidate without a title element changes nothing in what the
/// candidates before and after it yield.
pub proof fn lemma_missing_title_changes_nothing(
    before: Seq<CandidateView>,
    c: CandidateView,
    after: Seq<CandidateView>,
)
    requires
        c.title_texts is None,
    ensures
        songs_of(before + seq![c] + after) == songs_of(before + after),
{
    lemma_skipped_candidate_changes_nothing(before, c, after);
}

/// Every song of a run of candidates has a title and a member that are not
/// empty.
pub proof fn lemma_songs_are_complete(cs: Seq<CandidateView>)
    ensures
        forall|i: int|
            0 <= i < songs_of(cs).len() ==> {
                &&& (#[trigger] songs_of(cs)[i]).title.len() > 0
                &&& songs_of(cs)[i].member.len() > 0
            },
    decreases cs.len(),
{
    if cs.len() > 0 {
        lemma_songs_are_complete(cs.drop_last());
        lemma_song_is_complete(cs.last());
    }
}

} // verus!

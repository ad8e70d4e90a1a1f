//! Rules for the free-text lines of an entry: labels, separators and
//! trailing punctuation.

use crate::text::{
    begins_with, chars_of, find_char, lemma_position, position, text_of, trim, trim_bounds,
    trimmed,
};
use vstd::prelude::*;

verus! {

/// Label of the line that names the performers.
pub const MEMBER_LABEL: &'static str = "メンバー：";

/// Label of the line that gives the day the recording was published.
pub const PUBLISHED_LABEL: &'static str = "音源公開日：";

/// The texts of `v` as sequences of characters.
pub open spec fn lines(v: Seq<String>) -> Seq<Seq<char>> {
    v.map_values(|s: String| s@)
}

/// The trimmed form of `t` if it is not empty.
pub open spec fn nonblank_text(t: Seq<char>) -> Option<Seq<char>> {
    if trimmed(t).len() > 0 {
        Some(trimmed(t))
    } else {
        None
    }
}

/// The texts of `texts`, each trimmed, without those that are then empty.
pub open spec fn nonblank(texts: Seq<Seq<char>>) -> Seq<Seq<char>> {
    texts.filter_map(|t: Seq<char>| nonblank_text(t))
}

/// Index of the first line of `props` at or after `from` that begins with
/// `label`, or the length of `props` if there is none.
pub open spec fn labeled_from(props: Seq<Seq<char>>, label: Seq<char>, from: int) -> int
    decreases props.len() - from,
{
    if from < 0 || from >= props.len() {
        props.len() as int
    } else if label.is_prefix_of(props[from]) {
        from
    } else {
        labeled_from(props, label, from + 1)
    }
}

/// Index of the first line of `props` that begins with `label`, or the length
/// of `props` if there is none.
pub open spec fn first_labeled(props: Seq<Seq<char>>, label: Seq<char>) -> int {
    labeled_from(props, label, 0)
}

/// What follows the first `sep` in `line`, trimmed.
pub open spec fn value_after(line: Seq<char>, sep: char) -> Seq<char> {
    trimmed(line.skip(position(line, sep) + 1))
}

/// The value of a labeled line: what follows its first ASCII colon, or, where
/// it has none, its first fullwidth colon; trimmed. `None` where the line has
/// neither.
pub open spec fn separated_value(line: Seq<char>) -> Option<Seq<char>> {
    if line.contains(':') {
        Some(value_after(line, ':'))
    } else if line.contains('：') {
        Some(value_after(line, '：'))
    } else {
        None
    }
}

/// `s` without its last character where that is `a` or `b`.
pub open spec fn without_last(s: Seq<char>, a: char, b: char) -> Seq<char> {
    if s.len() > 0 && (s.last() == a || s.last() == b) {
        s.drop_last()
    } else {
        s
    }
}

/// `line` without one trailing comma (ideographic or ASCII) and then without
/// one trailing colon (fullwidth or ASCII).
pub open spec fn stripped(line: Seq<char>) -> Seq<char> {
    without_last(without_last(line, '、', ','), '：', ':')
}

/// The stripped form of `line` if it is not empty.
pub open spec fn kept_property(line: Seq<char>) -> Option<Seq<char>> {
    if stripped(line).len() > 0 {
        Some(stripped(line))
    } else {
        None
    }
}

/// The lines of `props`, each stripped, without those that are then empty.
pub open spec fn cleaned(props: Seq<Seq<char>>) -> Seq<Seq<char>> {
    props.filter_map(|p: Seq<char>| kept_property(p))
}

/// The target of a link if it has one that is not empty.
pub open spec fn kept_link(href: Option<Seq<char>>) -> Option<Seq<char>> {
    match href {
        Some(h) if h.len() > 0 => Some(h),
        _ => None,
    }
}

/// The targets in `hrefs` that are present and not empty, in order.
pub open spec fn links_of(hrefs: Seq<Option<Seq<char>>>) -> Seq<Seq<char>> {
    hrefs.filter_map(|h: Option<Seq<char>>| kept_link(h))
}

/// `first_labeled` gives the first index whose line begins with `label`, and
/// the length where no line does.
pub proof fn lemma_first_labeled(props: Seq<Seq<char>>, label: Seq<char>)
    ensures
        0 <= first_labeled(props, label) <= props.len(),
        forall|i: int|
            0 <= i < first_labeled(props, label) ==> !label.is_prefix_of(#[trigger] props[i]),
        first_labeled(props, label) < props.len() ==> label.is_prefix_of(
            props[first_labeled(props, label)],
        ),
{
    lemma_labeled_from(props, label, 0);
}

proof fn lemma_labeled_from(props: Seq<Seq<char>>, label: Seq<char>, from: int)
    requires
        0 <= from <= props.len(),
    ensures
        from <= labeled_from(props, label, from) <= props.len(),
        forall|i: int|
            from <= i < labeled_from(props, label, from) ==> !label.is_prefix_of(
                #[trigger] props[i],
            ),
        labeled_from(props, label, from) < props.len() ==> label.is_prefix_of(
            props[labeled_from(props, label, from)],
        ),
    decreases props.len() - from,
{
    if from < props.len() && !label.is_prefix_of(props[from]) {
        lemma_labeled_from(props, label, from + 1);
    }
}

/// Stripping takes away at most two characters from the end of a line: at
/// most one comma, and then at most one colon in front of it.
pub proof fn lemma_stripped(line: Seq<char>)
    ensures
        stripped(line).is_prefix_of(line),
        line.len() - stripped(line).len() <= 2,
        line.len() - stripped(line).len() == 2 ==> {
            &&& line[line.len() - 1] == '、' || line[line.len() - 1] == ','
            &&& line[line.len() - 2] == '：' || line[line.len() - 2] == ':'
        },
        line.len() - stripped(line).len() == 1 ==> {
            ||| line.last() == '、'
            ||| line.last() == ','
            ||| line.last() == '：'
            ||| line.last() == ':'
        },
        line.len() > 0 && line.last() != '、' && line.last() != ',' && line.last() != '：'
            && line.last() != ':' ==> stripped(line) == line,
{
    let a = without_last(line, '、', ',');
    assert(a.is_prefix_of(line));
    assert(stripped(line).is_prefix_of(a));
}

/// The texts of `texts`, each trimmed, without those that are then empty.
pub fn nonblank_texts(texts: &Vec<String>) -> (r: Vec<String>)
    ensures
        lines(r@) == nonblank(lines(texts@)),
{
    let mut out: Vec<String> = Vec::new();
    let mut i: usize = 0;
    while i < texts.len()
        invariant
            i <= texts.len(),
            lines(out@) == nonblank(lines(texts@).take(i as int)),
        decreases texts.len() - i,
    {
        let t = trim(texts[i].as_str());
        proof {
            lines(texts@).lemma_filter_map_take_succ(|t: Seq<char>| nonblank_text(t), i as int);
        }
        if !t.as_str().is_empty() {
            out.push(t);
        }
        i += 1;
    }
    proof {
        assert(lines(texts@).take(texts.len() as int) == lines(texts@));
    }
    out
}

/// Index of the first line of `props` that begins with `label`, if there is
/// one.
pub fn find_labeled(props: &Vec<String>, label: &str) -> (r: Option<usize>)
    ensures
        match r {
            Some(i) => i < props.len() && i == first_labeled(lines(props@), label@),
            None => first_labeled(lines(props@), label@) == props.len(),
        },
{
    let prefix = chars_of(label);
    let mut i: usize = 0;
    while i < props.len()
        invariant
            i <= props.len(),
            prefix@ == label@,
            first_labeled(lines(props@), label@) == labeled_from(
                lines(props@),
                label@,
                i as int,
            ),
        decreases props.len() - i,
    {
        let chars = chars_of(props[i].as_str());
        if begins_with(&chars, &prefix) {
            return Some(i);
        }
        i += 1;
    }
    None
}

/// The value of a labeled line: what follows its first ASCII colon, or, where
/// it has none, its first fullwidth colon; trimmed. `None` where the line has
/// neither.
pub fn value_of_line(line: &str) -> (r: Option<String>)
    ensures
        match r {
            Some(v) => separated_value(line@) == Some(v@),
            None => separated_value(line@) is None,
        },
{
    let chars = chars_of(line);
    proof {
        lemma_position(chars@, ':');
        lemma_position(chars@, '：');
    }
    let at = match find_char(&chars, ':') {
        Some(i) => Some(i),
        None => find_char(&chars, '：'),
    };
    match at {
        None => None,
        Some(i) => {
            let (start, end) = trim_bounds(&chars, i + 1, chars.len());
            proof {
                assert(chars@.subrange(i + 1, chars.len() as int) == chars@.skip(i + 1));
            }
            Some(text_of(&chars, start, end))
        },
    }
}

/// `line` without one trailing comma (ideographic or ASCII) and then without
/// one trailing colon (fullwidth or ASCII).
pub fn strip_line(line: &str) -> (r: String)
    ensures
        r@ == stripped(line@),
{
    let chars = chars_of(line);
    let mut end: usize = chars.len();
    if end > 0 && (chars[end - 1] == '、' || chars[end - 1] == ',') {
        end -= 1;
    }
    proof {
        assert(chars@.subrange(0, end as int) =~= without_last(chars@, '、', ','));
    }
    if end > 0 && (chars[end - 1] == '：' || chars[end - 1] == ':') {
        end -= 1;
    }
    proof {
        assert(chars@.subrange(0, end as int) =~= stripped(chars@));
    }
    text_of(&chars, 0, end)
}

/// The lines of `props`, each stripped, without those that are then empty.
pub fn clean_properties(props: &Vec<String>) -> (r: Vec<String>)
    ensures
        lines(r@) == cleaned(lines(props@)),
{
    let mut out: Vec<String> = Vec::new();
    let mut i: usize = 0;
    while i < props.len()
        invariant
            i <= props.len(),
            lines(out@) == cleaned(lines(props@).take(i as int)),
        decreases props.len() - i,
    {
        let p = strip_line(props[i].as_str());
        proof {
            lines(props@).lemma_filter_map_take_succ(|p: Seq<char>| kept_property(p), i as int);
        }
        if !p.as_str().is_empty() {
            out.push(p);
        }
        i += 1;
    }
    proof {
        assert(lines(props@).take(props.len() as int) == lines(props@));
    }
    out
}

} // verus!

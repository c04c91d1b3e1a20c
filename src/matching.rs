use vstd::prelude::*;

use crate::text::push_char;

verus! {

/// A run of a line of text, marked when it is an occurrence of the query.
#[derive(Debug, Clone, PartialEq, Eq)]
pub struct Segment {
    pub text: String,
    pub matched: bool,
}

impl View for Segment {
    type V = (Seq<char>, bool);

    open spec fn view(&self) -> (Seq<char>, bool) {
        (self.text@, self.matched)
    }
}

pub open spec fn segments_view(v: Seq<Segment>) -> Seq<(Seq<char>, bool)> {
    v.map_values(|s: Segment| s@)
}

/// The lowercase form of a text, as `str::to_lowercase` gives it.
pub uninterp spec fn lower_of(s: Seq<char>) -> Seq<char>;

/// Relies on `str::to_lowercase`: the result depends on the text alone.
#[verifier::external_body]
fn lowercase(s: &str) -> (r: String)
    ensures
        r@ == lower_of(s@),
{
    s.to_lowercase()
}

/// Relies on `str::chars`: the characters of the text, in order.
#[verifier::external_body]
fn chars_of(s: &str) -> (r: Vec<char>)
    ensures
        r@ == s@,
{
    s.chars().collect()
}

/// `needle` occurs in `hay` at position `i`.
pub open spec fn matches_at(hay: Seq<char>, needle: Seq<char>, i: int) -> bool {
    0 <= i && i + needle.len() <= hay.len() && hay.subrange(i, i + needle.len()) == needle
}

/// The runs of `text` from position `i` on, where the unmarked run in progress
/// began at `run`: scanning left to right, each occurrence of a non-empty
/// `needle` in `hay` (the text as it is compared) is marked, and the scan goes
/// on after it.
pub open spec fn runs_from(text: Seq<char>, hay: Seq<char>, needle: Seq<char>, i: int, run: int) -> Seq<
    (Seq<char>, bool),
>
    decreases text.len() - i,
{
    if i >= text.len() || needle.len() == 0 {
        if run < text.len() {
            seq![(text.subrange(run, text.len() as int), false)]
        } else {
            seq![]
        }
    } else if matches_at(hay, needle, i) && i + needle.len() <= text.len() {
        let before: Seq<(Seq<char>, bool)> = if run < i {
            seq![(text.subrange(run, i), false)]
        } else {
            seq![]
        };
        before + seq![(text.subrange(i, i + needle.len()), true)] + runs_from(
            text,
            hay,
            needle,
            i + needle.len(),
            i + needle.len(),
        )
    } else {
        runs_from(text, hay, needle, i + 1, run)
    }
}

/// The runs of `text` when `hay` is how it is compared and `needle` what is
/// sought. A hay of another length than the text, or an empty needle, marks
/// nothing.
pub open spec fn match_runs(text: Seq<char>, hay: Seq<char>, needle: Seq<char>) -> Seq<
    (Seq<char>, bool),
> {
    if hay.len() != text.len() || needle.len() == 0 {
        runs_from(text, hay, seq![], 0, 0)
    } else {
        runs_from(text, hay, needle, 0, 0)
    }
}

fn matches_here(hay: &Vec<char>, needle: &Vec<char>, i: usize) -> (r: bool)
    ensures
        r == matches_at(hay@, needle@, i as int),
{
    if needle.len() > hay.len() || i > hay.len() - needle.len() {
        return false;
    }
    let hay_len = hay.len();
    let mut j: usize = 0;
    while j < needle.len()
        invariant
            j <= needle@.len(),
            i + needle@.len() <= hay@.len() == hay_len,
            forall|k: int| 0 <= k < j ==> hay@[i + k] == needle@[k],
        decreases needle@.len() - j,
    {
        if hay[i + j] != needle[j] {
            assert(hay@.subrange(i as int, i + needle@.len())[j as int] != needle@[j as int]);
            return false;
        }
        j += 1;
    }
    assert(hay@.subrange(i as int, i + needle@.len()) =~= needle@);
    true
}

fn text_between(v: &Vec<char>, from: usize, to: usize) -> (r: String)
    requires
        from <= to <= v@.len(),
    ensures
        r@ == v@.subrange(from as int, to as int),
{
    let mut s = String::new();
    let mut k: usize = from;
    while k < to
        invariant
            from <= k <= to <= v@.len(),
            s@ == v@.subrange(from as int, k as int),
        decreases to - k,
    {
        push_char(&mut s, v[k]);
        k += 1;
        assert(s@ =~= v@.subrange(from as int, k as int));
    }
    s
}

/// Splits `text` into runs, marking each occurrence of `query` found in
/// `compared` (the text as it is compared, of the same length), left to right
/// and without overlap.
pub fn split_matches(text: &str, compared: &str, query: &str) -> (r: Vec<Segment>)
    ensures
        segments_view(r@) == match_runs(text@, compared@, query@),
{
    let t = chars_of(text);
    let hay = chars_of(compared);
    let q = chars_of(query);
    let needle = if hay.len() != t.len() || q.len() == 0 {
        Vec::new()
    } else {
        q
    };
    assert(hay@.len() != t@.len() || q@.len() == 0 ==> needle@ =~= seq![]);
    let text_len = t.len();
    let mut out: Vec<Segment> = Vec::new();
    let mut i: usize = 0;
    let mut run: usize = 0;
    while i < t.len() && needle.len() > 0
        invariant
            run <= i <= t@.len() == text_len,
            needle@.len() > 0 ==> hay@.len() == t@.len(),
            segments_view(out@) + runs_from(t@, hay@, needle@, i as int, run as int)
                == match_runs(text@, compared@, query@),
        decreases t@.len() - i,
    {
        let ghost before = segments_view(out@);
        if matches_here(&hay, &needle, i) {
            let ghost b: Seq<(Seq<char>, bool)> = if run < i {
                seq![(t@.subrange(run as int, i as int), false)]
            } else {
                seq![]
            };
            if run < i {
                let seg = Segment { text: text_between(&t, run, i), matched: false };
                out.push(seg);
            }
            let end = i + needle.len();
            out.push(Segment { text: text_between(&t, i, end), matched: true });
            assert(segments_view(out@) =~= before + b + seq![
                (t@.subrange(i as int, end as int), true),
            ]);
            i = end;
            run = end;
        } else {
            i = i + 1;
        }
    }
    if run < t.len() {
        out.push(Segment { text: text_between(&t, run, t.len()), matched: false });
    }
    assert(segments_view(out@) =~= match_runs(text@, compared@, query@));
    out
}

/// Splits `text` into runs, marking each occurrence of `query` when both are
/// compared in lowercase.
pub fn highlight_segments(text: &str, query: &str) -> (r: Vec<Segment>)
    ensures
        segments_view(r@) == match_runs(text@, lower_of(text@), lower_of(query@)),
{
    let lowered_text = lowercase(text);
    let lowered_query = lowercase(query);
    split_matches(text, lowered_text.as_str(), lowered_query.as_str())
}

} // verus!

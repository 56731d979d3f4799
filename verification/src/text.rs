//! Text as sequences of characters: conversions between strings and
//! character vectors, literal substitution of a token, and joining.

use vstd::prelude::*;
use vstd::string::StringExecFns;

verus! {

/// The characters of `s`, in order.
pub fn chars_of(s: &str) -> (out: Vec<char>)
    ensures
        out@ == s@,
{
    let mut out: Vec<char> = Vec::new();
    for c in it: s.chars()
        invariant
            out@ == it.seq().take(it.index()),
            it.seq() == s@,
    {
        out.push(c);
    }
    out
}

/// Trusted: `String::from_iter` over the characters of a vector. The standard
/// library documents that a `String` collected from `char`s holds exactly
/// those characters in the order the iterator yields them.
#[verifier::external_body]
pub(crate) fn string_of(chars: &Vec<char>) -> (out: String)
    ensures
        out@ == chars@,
{
    String::from_iter(chars)
}

/// `head` followed by `tail`.
pub fn chain(head: &str, tail: &str) -> (out: String)
    ensures
        out@ == head@ + tail@,
{
    let mut out = String::from_str(head);
    out.append(tail);
    out
}

/// Whether `token` stands in `text` at position `at`.
pub open spec fn occurs_at(text: Seq<char>, token: Seq<char>, at: int) -> bool {
    &&& 0 <= at
    &&& at + token.len() <= text.len()
    &&& text.subrange(at, at + token.len()) == token
}

/// Whether `token` stands anywhere in `text`.
pub open spec fn occurs_in(text: Seq<char>, token: Seq<char>) -> bool {
    exists|at: int| occurs_at(text, token, at)
}

/// `text` with every occurrence of `token` replaced by `value`, scanning from
/// the left; an occurrence that overlaps an earlier one is not replaced, and
/// `value` is never scanned again. An empty token replaces nothing.
pub open spec fn substituted(text: Seq<char>, token: Seq<char>, value: Seq<char>) -> Seq<char>
    decreases text.len(),
{
    if token.len() == 0 || text.len() < token.len() {
        text
    } else if occurs_at(text, token, 0) {
        value + substituted(text.skip(token.len() as int), token, value)
    } else {
        seq![text[0]] + substituted(text.skip(1), token, value)
    }
}

/// Whether `token` stands in `text` at `at`, decided by comparing characters.
fn matches_at(text: &Vec<char>, token: &Vec<char>, at: usize) -> (hit: bool)
    requires
        at + token.len() <= text.len(),
    ensures
        hit == occurs_at(text@, token@, at as int),
{
    let mut k: usize = 0;
    while k < token.len()
        invariant
            k <= token.len(),
            at + token.len() <= text.len(),
            forall|j: int| 0 <= j < k ==> text@[at + j] == token@[j],
        decreases token.len() - k,
    {
        if text[at + k] != token[k] {
            assert(text@.subrange(at as int, at + token.len())[k as int] != token@[k as int]);
            return false;
        }
        k += 1;
    }
    assert(text@.subrange(at as int, at + token.len()) =~= token@);
    true
}

/// Replaces every occurrence of `token` in `text` by `value`.
pub fn substitute(text: &str, token: &str, value: &str) -> (out: String)
    ensures
        out@ == substituted(text@, token@, value@),
{
    let source = chars_of(text);
    let needle = chars_of(token);
    let filler = chars_of(value);
    if needle.len() == 0 {
        return string_of(&source);
    }
    let mut out: Vec<char> = Vec::new();
    let mut at: usize = 0;
    assert(source@.skip(0) =~= source@);
    assert(out@ + substituted(source@, needle@, filler@) =~= substituted(
        source@,
        needle@,
        filler@,
    ));
    while at < source.len()
        invariant
            at <= source.len(),
            needle.len() > 0,
            out@ + substituted(source@.skip(at as int), needle@, filler@) == substituted(
                source@,
                needle@,
                filler@,
            ),
        decreases source.len() - at,
    {
        let ghost rest = source@.skip(at as int);
        if needle.len() <= source.len() - at && matches_at(&source, &needle, at) {
            proof {
                assert(rest.subrange(0, needle@.len() as int) =~= source@.subrange(
                    at as int,
                    at + needle@.len(),
                ));
                assert(rest.skip(needle@.len() as int) =~= source@.skip(at + needle@.len()));
            }
            let mut k: usize = 0;
            let ghost before = out@;
            while k < filler.len()
                invariant
                    k <= filler.len(),
                    out@ == before + filler@.take(k as int),
                decreases filler.len() - k,
            {
                out.push(filler[k]);
                k += 1;
            }
            assert(filler@.take(filler@.len() as int) =~= filler@);
            assert(before + (filler@ + substituted(
                rest.skip(needle@.len() as int),
                needle@,
                filler@,
            )) =~= (before + filler@) + substituted(
                rest.skip(needle@.len() as int),
                needle@,
                filler@,
            ));
            at += needle.len();
        } else {
            proof {
                if needle@.len() <= rest.len() {
                    assert(rest.subrange(0, needle@.len() as int) =~= source@.subrange(
                        at as int,
                        at + needle@.len(),
                    ));
                    assert(rest.skip(1) =~= source@.skip(at + 1));
                    assert(out@ + (seq![rest[0]] + substituted(rest.skip(1), needle@, filler@))
                        =~= out@.push(source@[at as int]) + substituted(
                        rest.skip(1),
                        needle@,
                        filler@,
                    ));
                } else {
                    lemma_short_text_unchanged(rest, needle@, filler@);
                    lemma_short_text_unchanged(rest.skip(1), needle@, filler@);
                    assert(rest =~= seq![rest[0]] + rest.skip(1));
                    assert(rest.skip(1) =~= source@.skip(at + 1));
                    assert(out@ + (seq![rest[0]] + rest.skip(1)) =~= out@.push(source@[at as int])
                        + rest.skip(1));
                }
            }
            out.push(source[at]);
            at += 1;
        }
    }
    assert(source@.skip(at as int) =~= Seq::<char>::empty());
    assert(out@ + Seq::<char>::empty() =~= out@);
    string_of(&out)
}

/// The texts of `parts`, in order.
pub open spec fn texts(parts: Seq<String>) -> Seq<Seq<char>> {
    parts.map_values(|part: String| part@)
}

/// The parts in order, with `separator` between each two neighbours.
pub open spec fn joined(parts: Seq<Seq<char>>, separator: Seq<char>) -> Seq<char>
    decreases parts.len(),
{
    if parts.len() == 0 {
        Seq::empty()
    } else if parts.len() == 1 {
        parts[0]
    } else {
        joined(parts.drop_last(), separator) + separator + parts.last()
    }
}

/// Joins `parts` with `separator` between each two neighbours.
pub fn join(parts: &Vec<String>, separator: &str) -> (out: String)
    ensures
        out@ == joined(texts(parts@), separator@),
{
    let mut out = String::new();
    let mut done: usize = 0;
    while done < parts.len()
        invariant
            done <= parts.len(),
            out@ == joined(texts(parts@).take(done as int), separator@),
        decreases parts.len() - done,
    {
        let ghost so_far = texts(parts@).take(done as int);
        let ghost next = texts(parts@).take(done + 1);
        assert(next.drop_last() =~= so_far);
        assert(next.last() == parts@[done as int]@);
        if done > 0 {
            out.append(separator);
        } else {
            assert(out@ + parts@[done as int]@ =~= parts@[done as int]@);
        }
        out.append(parts[done].as_str());
        done += 1;
    }
    assert(texts(parts@).take(parts@.len() as int) =~= texts(parts@));
    out
}

/// A text shorter than the token holds no occurrence and stays as it is.
pub proof fn lemma_short_text_unchanged(text: Seq<char>, token: Seq<char>, value: Seq<char>)
    requires
        text.len() < token.len(),
    ensures
        substituted(text, token, value) == text,
{
}

/// Where a token leads a text, substitution puts the value in its place and
/// goes on behind it.
pub proof fn lemma_token_replaced(rest: Seq<char>, token: Seq<char>, value: Seq<char>)
    requires
        token.len() > 0,
    ensures
        substituted(token + rest, token, value) == value + substituted(rest, token, value),
{
    let text = token + rest;
    assert(text.subrange(0, token.len() as int) =~= token);
    assert(text.skip(token.len() as int) =~= rest);
}

/// Substitution copies a stretch that lacks the token's first character and
/// goes on behind it.
pub proof fn lemma_stretch_copied(
    stretch: Seq<char>,
    rest: Seq<char>,
    token: Seq<char>,
    value: Seq<char>,
)
    requires
        token.len() > 0,
        !stretch.contains(token[0]),
    ensures
        substituted(stretch + rest, token, value) == stretch + substituted(rest, token, value),
    decreases stretch.len(),
{
    let text = stretch + rest;
    if stretch.len() == 0 {
        assert(text =~= rest);
        assert(stretch + substituted(rest, token, value) =~= substituted(rest, token, value));
    } else if text.len() < token.len() {
        assert(stretch + rest =~= text);
    } else {
        assert(stretch.contains(stretch[0]));
        assert(text.subrange(0, token.len() as int)[0] == stretch[0]);
        assert(!occurs_at(text, token, 0));
        assert(text.skip(1) =~= stretch.skip(1) + rest);
        assert forall|i: int| 0 <= i < stretch.skip(1).len() implies stretch.skip(1)[i]
            != token[0] by {
            assert(stretch.contains(stretch[i + 1]));
        }
        lemma_stretch_copied(stretch.skip(1), rest, token, value);
        assert(seq![text[0]] + (stretch.skip(1) + substituted(rest, token, value)) =~= stretch
            + substituted(rest, token, value));
    }
}

/// A text that lacks the token's first character holds no occurrence of the
/// token.
pub proof fn lemma_no_occurrence(text: Seq<char>, token: Seq<char>)
    requires
        token.len() > 0,
        !text.contains(token[0]),
    ensures
        !occurs_in(text, token),
{
    assert forall|at: int| !occurs_at(text, token, at) by {
        if occurs_at(text, token, at) {
            assert(text.subrange(at, at + token.len())[0] == token[0]);
            assert(text.contains(text[at]));
        }
    }
}

/// An occurrence in what is left behind the first `skipped` characters is
/// an occurrence in the whole text, that much further on, and the other way
/// round.
pub proof fn lemma_occurrence_shifted(text: Seq<char>, token: Seq<char>, skipped: int, at: int)
    requires
        0 <= skipped <= text.len(),
        0 <= at,
    ensures
        occurs_at(text.skip(skipped), token, at) == occurs_at(text, token, at + skipped),
{
    if at + token.len() <= text.skip(skipped).len() {
        assert(text.skip(skipped).subrange(at, at + token.len()) =~= text.subrange(
            at + skipped,
            at + skipped + token.len(),
        ));
    }
}

/// What opens a substituted text without touching the value opens the text
/// itself: a lead that is no longer than the value and does not end in one
/// of its characters was copied.
pub proof fn lemma_lead_copied(
    text: Seq<char>,
    token: Seq<char>,
    value: Seq<char>,
    lead: Seq<char>,
)
    requires
        token.len() > 0,
        lead.len() <= value.len(),
        lead.len() > 0 ==> !value.contains(lead.last()),
        occurs_at(substituted(text, token, value), lead, 0),
    ensures
        occurs_at(text, lead, 0),
    decreases lead.len(),
{
    let whole = substituted(text, token, value);
    let length = lead.len() as int;
    if length == 0 {
        assert(text.subrange(0, 0) =~= lead);
    } else if text.len() < token.len() {
    } else if occurs_at(text, token, 0) {
        assert(whole.subrange(0, length)[length - 1] == value[length - 1]);
        assert(value.contains(value[length - 1]));
    } else {
        let rest = text.skip(1);
        let behind = substituted(rest, token, value);
        let tail = lead.skip(1);
        assert(whole.subrange(0, length)[0] == text[0]);
        assert(behind.subrange(0, length - 1) =~= tail) by {
            assert forall|i: int| 0 <= i < length - 1 implies behind.subrange(0, length - 1)[i]
                == tail[i] by {
                assert(whole.subrange(0, length)[i + 1] == behind[i]);
            }
        }
        if tail.len() > 0 {
            assert(tail.last() == lead.last());
        }
        lemma_lead_copied(rest, token, value, tail);
        assert(text.subrange(0, length) =~= lead) by {
            assert forall|i: int| 0 <= i < length implies text.subrange(0, length)[i]
                == lead[i] by {
                if i > 0 {
                    assert(rest.subrange(0, length - 1)[i - 1] == tail[i - 1]);
                }
            }
        }
    }
}

/// Substitution leaves no occurrence of `other` behind, where every
/// occurrence of `other` in the text is one of the token too and the value
/// cannot be part of one: the value has neither the first nor the last
/// character of `other` and is at most one character shorter. With `other`
/// the token itself, no token is left; with an `other` that the text does
/// not hold, none is made.
pub proof fn lemma_none_left(
    text: Seq<char>,
    token: Seq<char>,
    value: Seq<char>,
    other: Seq<char>,
)
    requires
        token.len() > 0,
        other.len() > 0,
        other.len() <= value.len() + 1,
        !value.contains(other[0]),
        !value.contains(other.last()),
        forall|at: int| occurs_at(text, other, at) ==> occurs_at(text, token, at),
    ensures
        !occurs_in(substituted(text, token, value), other),
    decreases text.len(),
{
    let whole = substituted(text, token, value);
    let length = other.len() as int;
    if text.len() < token.len() {
        assert forall|at: int| !occurs_at(whole, other, at) by {
            if occurs_at(text, other, at) {
                assert(occurs_at(text, token, at));
            }
        }
    } else if occurs_at(text, token, 0) {
        let rest = text.skip(token.len() as int);
        let behind = substituted(rest, token, value);
        assert forall|at: int| occurs_at(rest, other, at) implies occurs_at(rest, token, at) by {
            lemma_occurrence_shifted(text, other, token.len() as int, at);
            lemma_occurrence_shifted(text, token, token.len() as int, at);
        }
        lemma_none_left(rest, token, value, other);
        assert forall|at: int| !occurs_at(whole, other, at) by {
            if occurs_at(whole, other, at) {
                if at < value.len() {
                    assert(whole.subrange(at, at + length)[0] == value[at]);
                    assert(value.contains(value[at]));
                } else {
                    assert(behind.subrange(at - value.len(), at - value.len() + length)
                        =~= whole.subrange(at, at + length));
                    assert(occurs_at(behind, other, at - value.len()));
                }
            }
        }
    } else {
        let rest = text.skip(1);
        let behind = substituted(rest, token, value);
        assert forall|at: int| occurs_at(rest, other, at) implies occurs_at(rest, token, at) by {
            lemma_occurrence_shifted(text, other, 1, at);
            lemma_occurrence_shifted(text, token, 1, at);
        }
        lemma_none_left(rest, token, value, other);
        assert forall|at: int| !occurs_at(whole, other, at) by {
            if occurs_at(whole, other, at) {
                if at > 0 {
                    assert(behind.subrange(at - 1, at - 1 + length) =~= whole.subrange(
                        at,
                        at + length,
                    ));
                    assert(occurs_at(behind, other, at - 1));
                } else {
                    let tail = other.skip(1);
                    assert(whole.subrange(0, length)[0] == text[0]);
                    assert(behind.subrange(0, length - 1) =~= tail) by {
                        assert forall|i: int| 0 <= i < length - 1 implies behind.subrange(
                            0,
                            length - 1,
                        )[i] == tail[i] by {
                            assert(whole.subrange(0, length)[i + 1] == behind[i]);
                        }
                    }
                    if tail.len() > 0 {
                        assert(tail.last() == other.last());
                    }
                    lemma_lead_copied(rest, token, value, tail);
                    assert(text.subrange(0, length) =~= other) by {
                        assert forall|i: int| 0 <= i < length implies text.subrange(0, length)[i]
                            == other[i] by {
                            if i > 0 {
                                assert(rest.subrange(0, length - 1)[i - 1] == tail[i - 1]);
                            }
                        }
                    }
                    assert(occurs_at(text, other, 0));
                }
            }
        }
    }
}

/// Values of one length give substituted texts of one length.
pub proof fn lemma_same_length(
    text: Seq<char>,
    token: Seq<char>,
    value: Seq<char>,
    other_value: Seq<char>,
)
    requires
        value.len() == other_value.len(),
    ensures
        substituted(text, token, value).len() == substituted(text, token, other_value).len(),
    decreases text.len(),
{
    if token.len() == 0 || text.len() < token.len() {
    } else if occurs_at(text, token, 0) {
        lemma_same_length(text.skip(token.len() as int), token, value, other_value);
    } else {
        lemma_same_length(text.skip(1), token, value, other_value);
    }
}

/// Where the text holds the token, different values of one length give
/// different substituted texts.
pub proof fn lemma_values_told_apart(
    text: Seq<char>,
    token: Seq<char>,
    value: Seq<char>,
    other_value: Seq<char>,
)
    requires
        token.len() > 0,
        occurs_in(text, token),
        value.len() == other_value.len(),
        value != other_value,
    ensures
        substituted(text, token, value) != substituted(text, token, other_value),
    decreases text.len(),
{
    let whole = substituted(text, token, value);
    let other_whole = substituted(text, token, other_value);
    let at = choose|at: int| occurs_at(text, token, at);
    if text.len() < token.len() {
    } else if occurs_at(text, token, 0) {
        if whole == other_whole {
            assert(whole.subrange(0, value.len() as int) =~= value);
            assert(other_whole.subrange(0, value.len() as int) =~= other_value);
        }
    } else {
        let rest = text.skip(1);
        lemma_occurrence_shifted(text, token, 1, at - 1);
        assert(occurs_at(rest, token, at - 1));
        lemma_values_told_apart(rest, token, value, other_value);
        if whole == other_whole {
            assert(whole.skip(1) =~= substituted(rest, token, value));
            assert(other_whole.skip(1) =~= substituted(rest, token, other_value));
        }
    }
}

} // verus!

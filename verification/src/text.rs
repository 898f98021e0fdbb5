use vstd::prelude::*;

verus! {

/// The characters of `s`, in order.
pub fn chars_of(s: &str) -> (out: Vec<char>)
    ensures
        out@ == s@,
{
    let mut out: Vec<char> = Vec::new();
    for c in it: s.chars()
        invariant
            out@ == it.seq().take(it.index() as int),
            it.seq() == s@,
    {
        out.push(c);
    }
    out
}


/// `String::push`: appends one character.
#[verifier::external_body]
pub(crate) fn push_char(s: &mut String, c: char)
    ensures
        final(s)@ == old(s)@.push(c),
{
    s.push(c);
}

/// The string made of the characters `v[lo..hi]`.
pub fn string_from(v: &Vec<char>, lo: usize, hi: usize) -> (out: String)
    requires
        lo <= hi <= v.len(),
    ensures
        out@ == v@.subrange(lo as int, hi as int),
{
    let mut out = String::new();
    let mut k = lo;
    while k < hi
        invariant
            lo <= k <= hi <= v.len(),
            out@ == v@.subrange(lo as int, k as int),
        decreases hi - k,
    {
        push_char(&mut out, v[k]);
        assert(v@.subrange(lo as int, k + 1) == v@.subrange(lo as int, k as int).push(v@[k as int]));
        k += 1;
    }
    out
}

/// The string made of all characters of `v`.
pub fn string_of(v: &Vec<char>) -> (out: String)
    ensures
        out@ == v@,
{
    let out = string_from(v, 0, v.len());
    assert(v@.subrange(0, v@.len() as int) == v@);
    out
}


/// Unicode `White_Space`, the class `char::is_whitespace` and `str::trim` use.
pub open spec fn is_white_space(c: char) -> bool {
    ||| ('\u{9}' <= c && c <= '\u{d}')
    ||| c == ' '
    ||| c == '\u{85}'
    ||| c == '\u{a0}'
    ||| c == '\u{1680}'
    ||| ('\u{2000}' <= c && c <= '\u{200a}')
    ||| c == '\u{2028}'
    ||| c == '\u{2029}'
    ||| c == '\u{202f}'
    ||| c == '\u{205f}'
    ||| c == '\u{3000}'
}

/// Executable form of [`is_white_space`].
pub fn white_space(c: char) -> (b: bool)
    ensures
        b == is_white_space(c),
{
    ('\u{9}' <= c && c <= '\u{d}') || c == ' ' || c == '\u{85}' || c == '\u{a0}' || c == '\u{1680}'
        || ('\u{2000}' <= c && c <= '\u{200a}') || c == '\u{2028}' || c == '\u{2029}'
        || c == '\u{202f}' || c == '\u{205f}' || c == '\u{3000}'
}

/// `t` is `s` with its leading and trailing white space removed.
pub open spec fn is_trim_of(s: Seq<char>, t: Seq<char>) -> bool {
    exists|a: int, b: int|
        {
            &&& 0 <= a <= b <= s.len()
            &&& t == s.subrange(a, b)
            &&& forall|k: int| 0 <= k < a ==> is_white_space(#[trigger] s[k])
            &&& forall|k: int| b <= k < s.len() ==> is_white_space(#[trigger] s[k])
            &&& t.len() > 0 ==> !is_white_space(t[0]) && !is_white_space(t[t.len() - 1])
        }
}

/// Whether every character of `s` is white space.
pub open spec fn all_white_space(s: Seq<char>) -> bool {
    forall|k: int| 0 <= k < s.len() ==> is_white_space(#[trigger] s[k])
}

/// The characters of `v[lo..hi]` with leading and trailing white space removed,
/// as bounds into `v`.
pub fn trim_bounds(v: &Vec<char>, lo: usize, hi: usize) -> (r: (usize, usize))
    requires
        lo <= hi <= v.len(),
    ensures
        lo <= r.0 <= r.1 <= hi,
        is_trim_of(v@.subrange(lo as int, hi as int), v@.subrange(r.0 as int, r.1 as int)),
        (r.0 == r.1) == all_white_space(v@.subrange(lo as int, hi as int)),
{
    let mut a = lo;
    while a < hi && white_space(v[a])
        invariant
            lo <= a <= hi <= v.len(),
            forall|k: int| lo <= k < a ==> is_white_space(#[trigger] v@[k]),
        decreases hi - a,
    {
        a += 1;
    }
    let mut b = hi;
    while b > a && white_space(v[b - 1])
        invariant
            lo <= a <= b <= hi <= v.len(),
            forall|k: int| b <= k < hi ==> is_white_space(#[trigger] v@[k]),
        decreases b - a,
    {
        b -= 1;
    }
    proof {
        let s = v@.subrange(lo as int, hi as int);
        let t = v@.subrange(a as int, b as int);
        let ra = a - lo;
        let rb = b - lo;
        assert(t == s.subrange(ra, rb));
        assert forall|k: int| 0 <= k < ra implies is_white_space(#[trigger] s[k]) by {
            assert(s[k] == v@[k + lo]);
        }
        assert forall|k: int| rb <= k < s.len() implies is_white_space(#[trigger] s[k]) by {
            assert(s[k] == v@[k + lo]);
        }
        if a < b {
            assert(t[0] == v@[a as int]);
            assert(t[t.len() - 1] == v@[b - 1]);
        }
        assert(is_trim_of(s, t));
        if a == b {
            assert forall|k: int| 0 <= k < s.len() implies is_white_space(#[trigger] s[k]) by {
                assert(s[k] == v@[k + lo]);
            }
        } else {
            assert(!is_white_space(s[a - lo]));
        }
    }
    (a, b)
}

/// `str::trim`: the string without leading and trailing white space.
pub fn trim(s: &str) -> (out: String)
    ensures
        is_trim_of(s@, out@),
{
    let v = chars_of(s);
    let (a, b) = trim_bounds(&v, 0, v.len());
    assert(v@.subrange(0, v@.len() as int) == v@);
    string_from(&v, a, b)
}

/// A trimmed form of a text is unique, so `trim` is a function of its input.
pub proof fn law_trim_unique(s: Seq<char>, t1: Seq<char>, t2: Seq<char>)
    requires
        is_trim_of(s, t1),
        is_trim_of(s, t2),
    ensures
        t1 == t2,
{
    let (a1, b1) = choose|a: int, b: int|
        {
            &&& 0 <= a <= b <= s.len()
            &&& t1 == s.subrange(a, b)
            &&& forall|k: int| 0 <= k < a ==> is_white_space(#[trigger] s[k])
            &&& forall|k: int| b <= k < s.len() ==> is_white_space(#[trigger] s[k])
            &&& t1.len() > 0 ==> !is_white_space(t1[0]) && !is_white_space(t1[t1.len() - 1])
        };
    let (a2, b2) = choose|a: int, b: int|
        {
            &&& 0 <= a <= b <= s.len()
            &&& t2 == s.subrange(a, b)
            &&& forall|k: int| 0 <= k < a ==> is_white_space(#[trigger] s[k])
            &&& forall|k: int| b <= k < s.len() ==> is_white_space(#[trigger] s[k])
            &&& t2.len() > 0 ==> !is_white_space(t2[0]) && !is_white_space(t2[t2.len() - 1])
        };
    if t1.len() > 0 && t2.len() > 0 {
        if a1 < a2 {
            assert(s[a1] == t1[0]);
        }
        if a2 < a1 {
            assert(s[a2] == t2[0]);
        }
        if b1 < b2 {
            assert(s[b2 - 1] == t2[t2.len() - 1]);
        }
        if b2 < b1 {
            assert(s[b1 - 1] == t1[t1.len() - 1]);
        }
        assert(t1 =~= t2);
    } else if t1.len() > 0 {
        // t2 is empty: then every character is white space, contradicting t1[0]
        assert(s[a1] == t1[0]);
        if a1 < a2 {
        } else {
            assert(a1 >= b2);
        }
    } else if t2.len() > 0 {
        assert(s[a2] == t2[0]);
        if a2 < a1 {
        } else {
            assert(a2 >= b1);
        }
    } else {
        assert(t1 =~= t2);
    }
}


/// The characters a manuscript line is broken into sentences at: a line feed
/// and the ideographic full stop `。`.
pub open spec fn is_sentence_break(c: char) -> bool {
    c == '\n' || c == '\u{3002}'
}

/// Executable form of [`is_sentence_break`].
pub fn sentence_break(c: char) -> (b: bool)
    ensures
        b == is_sentence_break(c),
{
    c == '\n' || c == '\u{3002}'
}

/// `str::split` at the sentence breaks: the pieces between breaks, the breaks
/// themselves dropped; a text with `n` breaks gives `n + 1` pieces.
pub open spec fn split_breaks(s: Seq<char>) -> Seq<Seq<char>>
    decreases s.len(),
{
    if s.len() == 0 {
        seq![Seq::<char>::empty()]
    } else {
        let init = split_breaks(s.drop_last());
        if is_sentence_break(s.last()) {
            init.push(Seq::<char>::empty())
        } else {
            init.update(init.len() - 1, init.last().push(s.last()))
        }
    }
}

/// How many of `pieces` hold something besides white space.
pub open spec fn count_spoken(pieces: Seq<Seq<char>>) -> nat
    decreases pieces.len(),
{
    if pieces.len() == 0 {
        0
    } else {
        count_spoken(pieces.drop_last()) + if all_white_space(pieces.last()) {
            0nat
        } else {
            1nat
        }
    }
}

/// Splitting always gives at least one piece.
pub proof fn lemma_split_breaks_nonempty(s: Seq<char>)
    ensures
        split_breaks(s).len() >= 1,
    decreases s.len(),
{
    if s.len() > 0 {
        lemma_split_breaks_nonempty(s.drop_last());
    }
}

/// The number of pieces of `text`, split at sentence breaks, whose trimmed
/// form is not empty.
pub fn count_spoken_pieces(v: &Vec<char>) -> (n: usize)
    ensures
        n == count_spoken(split_breaks(v@)),
{
    let mut start: usize = 0;
    let mut k: usize = 0;
    let mut count: usize = 0;
    proof {
        assert(v@.take(0) =~= Seq::<char>::empty());
    }
    while k < v.len()
        invariant
            start <= k <= v.len(),
            count <= start,
            split_breaks(v@.take(k as int)).len() >= 1,
            split_breaks(v@.take(k as int)).last() == v@.subrange(start as int, k as int),
            count == count_spoken(split_breaks(v@.take(k as int)).drop_last()),
        decreases v.len() - k,
    {
        let ghost before = split_breaks(v@.take(k as int));
        proof {
            assert(v@.take(k + 1).drop_last() =~= v@.take(k as int));
            assert(v@.take(k + 1).last() == v@[k as int]);
        }
        if sentence_break(v[k]) {
            let (a, b) = trim_bounds(v, start, k);
            if a < b {
                count += 1;
            }
            proof {
                let after = split_breaks(v@.take(k + 1));
                assert(after == before.push(Seq::<char>::empty()));
                assert(after.drop_last() =~= before);
                assert(before.drop_last().push(before.last()) =~= before);
            }
            start = k + 1;
        } else {
            proof {
                let after = split_breaks(v@.take(k + 1));
                assert(after.drop_last() =~= before.drop_last());
                assert(after.last() =~= v@.subrange(start as int, k + 1));
            }
        }
        k += 1;
    }
    let (a, b) = trim_bounds(v, start, k);
    proof {
        let all = split_breaks(v@.take(k as int));
        assert(all.drop_last().push(all.last()) =~= all);
        assert(v@.take(k as int) =~= v@);
    }
    if a < b {
        count + 1
    } else {
        count
    }
}


/// `str::split_inclusive` at the sentence breaks: each piece keeps the break
/// that ends it; the last piece may end without one; an empty text gives no
/// piece.
pub open spec fn split_inclusive_breaks(s: Seq<char>) -> Seq<Seq<char>>
    decreases s.len(),
{
    if s.len() == 0 {
        Seq::<Seq<char>>::empty()
    } else {
        let init = split_inclusive_breaks(s.drop_last());
        if init.len() == 0 || is_sentence_break(init.last().last()) {
            init.push(seq![s.last()])
        } else {
            init.update(init.len() - 1, init.last().push(s.last()))
        }
    }
}

/// The shape of the pieces: none is empty, each but the last ends with a
/// break, and no piece holds a break anywhere but at its end.
pub open spec fn pieces_well_cut(ps: Seq<Seq<char>>) -> bool {
    &&& forall|i: int| 0 <= i < ps.len() ==> #[trigger] ps[i].len() > 0
    &&& forall|i: int| 0 <= i < ps.len() - 1 ==> is_sentence_break(#[trigger] ps[i].last())
    &&& forall|i: int, j: int|
        0 <= i < ps.len() && 0 <= j < ps[i].len() - 1 ==> !is_sentence_break(#[trigger] ps[i][j])
}

/// Cutting a text into sentences loses and adds nothing: the pieces, joined
/// in order, give back the text, and they are cut exactly after each break.
pub proof fn law_split_inclusive_partitions(s: Seq<char>)
    ensures
        split_inclusive_breaks(s).flatten() == s,
        pieces_well_cut(split_inclusive_breaks(s)),
        (split_inclusive_breaks(s).len() == 0) == (s.len() == 0),
    decreases s.len(),
{
    if s.len() > 0 {
        let t = s.drop_last();
        law_split_inclusive_partitions(t);
        let init = split_inclusive_breaks(t);
        let c = s.last();
        assert(t.push(c) =~= s);
        if init.len() == 0 || is_sentence_break(init.last().last()) {
            let out = init.push(seq![c]);
            init.lemma_flatten_push(seq![c]);
            assert(out.flatten() == init.flatten() + seq![c]);
            assert(pieces_well_cut(out)) by {
                assert forall|i: int, j: int|
                    0 <= i < out.len() && 0 <= j < out[i].len() - 1 implies !is_sentence_break(
                    #[trigger] out[i][j]) by {
                    if i < init.len() {
                        assert(out[i] == init[i]);
                    }
                }
            }
        } else {
            let last = init.last();
            let out = init.update(init.len() - 1, last.push(c));
            assert(init.drop_last().push(last) =~= init);
            assert(out =~= init.drop_last().push(last.push(c)));
            init.drop_last().lemma_flatten_push(last);
            init.drop_last().lemma_flatten_push(last.push(c));
            assert(out.flatten() =~= init.flatten() + seq![c]);
            assert(pieces_well_cut(out)) by {
                assert forall|i: int, j: int|
                    0 <= i < out.len() && 0 <= j < out[i].len() - 1 implies !is_sentence_break(
                    #[trigger] out[i][j]) by {
                    if i < init.len() - 1 {
                        assert(out[i] == init[i]);
                    } else {
                        assert(out[i] == last.push(c));
                        if j < last.len() - 1 {
                            assert(out[i][j] == last[j]);
                        } else {
                            assert(out[i][j] == last.last());
                        }
                    }
                }
                assert forall|i: int| 0 <= i < out.len() - 1 implies is_sentence_break(
                    #[trigger] out[i].last()) by {
                    assert(out[i] == init[i]);
                }
            }
        }
    }
}

/// `str::split_inclusive` at the sentence breaks, each piece as a `String`.
pub fn split_inclusive_sentences(v: &Vec<char>) -> (out: Vec<String>)
    ensures
        out@.map_values(|p: String| p@) == split_inclusive_breaks(v@),
{
    let mut out: Vec<String> = Vec::new();
    let mut start: usize = 0;
    let mut k: usize = 0;
    proof {
        assert(v@.take(0) =~= Seq::<char>::empty());
    }
    while k < v.len()
        invariant
            start <= k <= v.len(),
            forall|m: int| start <= m < k ==> !is_sentence_break(#[trigger] v@[m]),
            forall|i: int| 0 <= i < out@.len() ==> (#[trigger] out@[i])@.len() > 0 && is_sentence_break(out@[i]@.last()),
            split_inclusive_breaks(v@.take(k as int)) == if start < k {
                out@.map_values(|p: String| p@).push(v@.subrange(start as int, k as int))
            } else {
                out@.map_values(|p: String| p@)
            },
        decreases v.len() - k,
    {
        let ghost before = split_inclusive_breaks(v@.take(k as int));
        let ghost outv = out@.map_values(|p: String| p@);
        proof {
            assert(v@.take(k + 1).drop_last() =~= v@.take(k as int));
            assert(v@.take(k + 1).last() == v@[k as int]);
        }
        let c = v[k];
        if start < k {
            let ghost open = v@.subrange(start as int, k as int);
            proof {
                assert(before.last() == open);
                assert(open.last() == v@[k - 1]);
                assert(before.drop_last() =~= outv);
                assert(split_inclusive_breaks(v@.take(k + 1)) == before.update(before.len() - 1, open.push(c)));
                assert(open.push(c) =~= v@.subrange(start as int, k + 1));
            }
            if sentence_break(c) {
                let piece = string_from(v, start, k + 1);
                out.push(piece);
                proof {
                    assert(out@.map_values(|p: String| p@) =~= outv.push(v@.subrange(start as int, k + 1)));
                    assert(split_inclusive_breaks(v@.take(k + 1)) =~= outv.push(v@.subrange(start as int, k + 1)));
                }
                start = k + 1;
            } else {
                proof {
                    assert(split_inclusive_breaks(v@.take(k + 1)) =~= outv.push(v@.subrange(start as int, k + 1)));
                }
            }
        } else {
            proof {
                assert(before == outv);
                if outv.len() > 0 {
                    assert(outv.last() == out@[out@.len() - 1]@);
                }
                assert(split_inclusive_breaks(v@.take(k + 1)) == outv.push(seq![c]));
                assert(seq![c] =~= v@.subrange(k as int, k + 1));
            }
            if sentence_break(c) {
                let piece = string_from(v, k, k + 1);
                out.push(piece);
                proof {
                    assert(out@.map_values(|p: String| p@) =~= outv.push(v@.subrange(k as int, k + 1)));
                }
                start = k + 1;
            } else {
                start = k;
            }
        }
        k += 1;
    }
    proof {
        assert(v@.take(k as int) =~= v@);
    }
    if start < k {
        let piece = string_from(v, start, k);
        let ghost outv = out@.map_values(|p: String| p@);
        out.push(piece);
        proof {
            assert(out@.map_values(|p: String| p@) =~= outv.push(v@.subrange(start as int, k as int)));
        }
    }
    out
}

} // verus!

//! Parsing of the model's free-text answer into a label set.
//!
//! The answer is split on commas; each piece is trimmed of surrounding
//! whitespace; empty pieces and the sentinel `none` (the model's way of
//! saying "no label applies") are dropped; the order and multiplicity
//! of everything else is kept.  The parser is total: any text yields a
//! (possibly empty) label set, never an error.

use vstd::prelude::*;

verus! {

/// The characters counted as whitespace when a piece is trimmed:
/// Unicode's White_Space set.
pub open spec fn is_space(c: char) -> bool {
    let u = c as u32;
    ||| u == 0x20
    ||| (0x09 <= u && u <= 0x0d)
    ||| u == 0x85
    ||| u == 0xa0
    ||| u == 0x1680
    ||| (0x2000 <= u && u <= 0x200a)
    ||| u == 0x2028
    ||| u == 0x2029
    ||| u == 0x202f
    ||| u == 0x205f
    ||| u == 0x3000
}

/// Decides `is_space` on a concrete character.
pub fn is_space_char(c: char) -> (r: bool)
    ensures
        r == is_space(c),
{
    let u = c as u32;
    u == 0x20 || (0x09 <= u && u <= 0x0d) || u == 0x85 || u == 0xa0 || u == 0x1680 || (0x2000 <= u
        && u <= 0x200a) || u == 0x2028 || u == 0x2029 || u == 0x202f || u == 0x205f || u == 0x3000
}

/// The sentinel answer `none`, which is never a label.
pub open spec fn none_token() -> Seq<char> {
    seq!['n', 'o', 'n', 'e']
}

/// The sentinel is the text `none`, spelled as a literal.
pub proof fn lemma_none_token_is_none_literal()
    ensures
        none_token() == "none"@,
{
    reveal_strlit("none");
    assert(none_token() =~= "none"@);
}

/// The pieces of `s`, split at every comma.  Splitting the empty text
/// yields one empty piece, as `str::split` does.
pub open spec fn split_commas(s: Seq<char>) -> Seq<Seq<char>>
    decreases s.len(),
{
    if s.len() == 0 {
        seq![Seq::<char>::empty()]
    } else if s[0] == ',' {
        seq![Seq::<char>::empty()] + split_commas(s.drop_first())
    } else {
        let rest = split_commas(s.drop_first());
        seq![seq![s[0]] + rest[0]] + rest.drop_first()
    }
}

/// `s` without its leading whitespace.
pub open spec fn trim_start(s: Seq<char>) -> Seq<char>
    decreases s.len(),
{
    if s.len() > 0 && is_space(s[0]) {
        trim_start(s.drop_first())
    } else {
        s
    }
}

/// `s` without its trailing whitespace.
pub open spec fn trim_end(s: Seq<char>) -> Seq<char>
    decreases s.len(),
{
    if s.len() > 0 && is_space(s.last()) {
        trim_end(s.drop_last())
    } else {
        s
    }
}

/// `s` without its surrounding whitespace.
pub open spec fn trim(s: Seq<char>) -> Seq<char> {
    trim_end(trim_start(s))
}

/// Holds of the trimmed pieces that survive parsing: the non-empty
/// ones other than the sentinel.
pub open spec fn keeps(t: Seq<char>) -> bool {
    t.len() > 0 && t != none_token()
}

/// Trims every piece and keeps, in order, those that `keeps` admits.
pub open spec fn clean_pieces(ps: Seq<Seq<char>>) -> Seq<Seq<char>>
    decreases ps.len(),
{
    if ps.len() == 0 {
        Seq::empty()
    } else {
        let t = trim(ps[0]);
        let rest = clean_pieces(ps.drop_first());
        if keeps(t) {
            seq![t] + rest
        } else {
            rest
        }
    }
}

/// What parsing a response text yields: its comma-separated pieces,
/// trimmed, with empty pieces and the sentinel dropped.
pub open spec fn parse_spec(s: Seq<char>) -> Seq<Seq<char>> {
    clean_pieces(split_commas(s))
}

/// Splitting a comma-free text yields that text as the one piece.
pub proof fn lemma_split_no_comma(s: Seq<char>)
    requires
        forall|i: int| 0 <= i < s.len() ==> s[i] != ',',
    ensures
        split_commas(s) == seq![s],
    decreases s.len(),
{
    if s.len() == 0 {
        assert(split_commas(s) =~~= seq![s]);
    } else {
        lemma_split_no_comma(s.drop_first());
        let rest = split_commas(s.drop_first());
        assert(rest == seq![s.drop_first()]);
        assert(seq![s[0]] + s.drop_first() =~= s);
        assert(rest.drop_first() =~= Seq::<Seq<char>>::empty());
        assert(split_commas(s) =~~= seq![s]);
    }
}

/// Splitting at the first comma: the piece before it, then the pieces
/// of what follows it.
pub proof fn lemma_split_at_comma(s: Seq<char>, j: int)
    requires
        0 <= j < s.len(),
        s[j] == ',',
        forall|i: int| 0 <= i < j ==> s[i] != ',',
    ensures
        split_commas(s) == seq![s.subrange(0, j)] + split_commas(s.subrange(j + 1, s.len() as int)),
    decreases j,
{
    if j == 0 {
        assert(s.subrange(0, 0) =~= Seq::<char>::empty());
        assert(s.drop_first() =~= s.subrange(1, s.len() as int));
        assert(split_commas(s) =~~= seq![s.subrange(0, 0)] + split_commas(
            s.subrange(1, s.len() as int),
        ));
    } else {
        let d = s.drop_first();
        assert(d[j - 1] == ',');
        assert(forall|i: int| 0 <= i < j - 1 ==> d[i] != ',');
        lemma_split_at_comma(d, j - 1);
        let tail = split_commas(d.subrange(j, d.len() as int));
        assert(split_commas(d) == seq![d.subrange(0, j - 1)] + tail);
        let rest = split_commas(d);
        assert(rest[0] == d.subrange(0, j - 1));
        assert(seq![s[0]] + d.subrange(0, j - 1) =~= s.subrange(0, j));
        assert(rest.drop_first() =~= tail);
        assert(d.subrange(j, d.len() as int) =~= s.subrange(j + 1, s.len() as int));
        assert(split_commas(s) =~~= seq![s.subrange(0, j)] + split_commas(
            s.subrange(j + 1, s.len() as int),
        ));
    }
}

/// Unfolds `clean_pieces` over one leading piece.
pub proof fn lemma_clean_cons(p: Seq<char>, rest: Seq<Seq<char>>)
    ensures
        clean_pieces(seq![p] + rest) == if keeps(trim(p)) {
            seq![trim(p)] + clean_pieces(rest)
        } else {
            clean_pieces(rest)
        },
{
    let ps = seq![p] + rest;
    assert(ps.len() > 0);
    assert(ps[0] == p);
    assert(ps.drop_first() =~= rest);
}

/// Dropping a leading stretch of whitespace computes `trim_start`.
pub proof fn lemma_trim_start_prefix(s: Seq<char>, k: int)
    requires
        0 <= k <= s.len(),
        forall|i: int| 0 <= i < k ==> is_space(s[i]),
        k < s.len() ==> !is_space(s[k]),
    ensures
        trim_start(s) == s.subrange(k, s.len() as int),
    decreases k,
{
    if k == 0 {
        assert(s.subrange(0, s.len() as int) =~= s);
    } else {
        let d = s.drop_first();
        lemma_trim_start_prefix(d, k - 1);
        assert(d.subrange(k - 1, d.len() as int) =~= s.subrange(k, s.len() as int));
    }
}

/// Dropping a trailing stretch of whitespace computes `trim_end`.
pub proof fn lemma_trim_end_suffix(s: Seq<char>, h: int)
    requires
        0 <= h <= s.len(),
        forall|i: int| h <= i < s.len() ==> is_space(s[i]),
        h > 0 ==> !is_space(s[h - 1]),
    ensures
        trim_end(s) == s.subrange(0, h),
    decreases s.len(),
{
    if h == s.len() {
        if s.len() > 0 && is_space(s.last()) {
            assert(!is_space(s[h - 1]));
            assert(false);
        }
        assert(s.subrange(0, h) =~= s);
    } else {
        let d = s.drop_last();
        assert(is_space(s.last()));
        lemma_trim_end_suffix(d, h);
        assert(d.subrange(0, h) =~= s.subrange(0, h));
    }
}

/// Decides whether the characters of `s` in `[lo, hi)` spell the
/// sentinel `none`.
fn segment_is_none(s: &str, lo: usize, hi: usize) -> (r: bool)
    requires
        lo <= hi <= s@.len(),
    ensures
        r == (s@.subrange(lo as int, hi as int) == none_token()),
{
    let ghost t = s@.subrange(lo as int, hi as int);
    if hi - lo != 4 {
        proof {
            assert(t.len() == hi - lo);
            assert(none_token().len() == 4);
        }
        return false;
    }
    if s.get_char(lo) != 'n' {
        proof {
            assert(t[0] != none_token()[0]);
        }
        return false;
    }
    if s.get_char(lo + 1) != 'o' {
        proof {
            assert(t[1] != none_token()[1]);
        }
        return false;
    }
    if s.get_char(lo + 2) != 'n' {
        proof {
            assert(t[2] != none_token()[2]);
        }
        return false;
    }
    if s.get_char(lo + 3) != 'e' {
        proof {
            assert(t[3] != none_token()[3]);
        }
        return false;
    }
    proof {
        assert(t =~= none_token());
    }
    true
}

/// Parses a model response: splits it on commas, trims each piece, and
/// drops empty pieces and the sentinel `none`.  Order and multiplicity
/// of the surviving pieces are kept.  Total: any text yields a label
/// set, never an error.
pub fn parse_response(s: &str) -> (r: Vec<String>)
    ensures
        r.deep_view() == parse_spec(s@),
{
    let n = s.unicode_len();
    let mut r: Vec<String> = Vec::new();
    let mut start: usize = 0;
    proof {
        assert(s@.subrange(0, n as int) =~= s@);
        assert(r.deep_view() =~= Seq::<Seq<char>>::empty());
        assert(r.deep_view() + clean_pieces(split_commas(s@.subrange(0, n as int))) =~= clean_pieces(
            split_commas(s@),
        ));
    }
    loop
        invariant_except_break
            n == s@.len(),
            start <= n,
            parse_spec(s@) == r.deep_view() + clean_pieces(
                split_commas(s@.subrange(start as int, n as int)),
            ),
        ensures
            r.deep_view() == parse_spec(s@),
        decreases n - start,
    {
        // the current piece runs from `start` to the next comma or the end
        let mut j: usize = start;
        loop
            invariant
                n == s@.len(),
                start <= j <= n,
                forall|i: int| start <= i < j ==> s@[i] != ',',
            ensures
                start <= j <= n,
                forall|i: int| start <= i < j ==> s@[i] != ',',
                j == n || s@[j as int] == ',',
            decreases n - j,
        {
            if j == n {
                break;
            }
            if s.get_char(j) == ',' {
                break;
            }
            j += 1;
        }
        // trim surrounding whitespace off the piece
        let mut lo: usize = start;
        loop
            invariant
                n == s@.len(),
                start <= lo <= j,
                j <= n,
                forall|i: int| start <= i < lo ==> is_space(s@[i]),
            ensures
                start <= lo <= j,
                forall|i: int| start <= i < lo ==> is_space(s@[i]),
                lo < j ==> !is_space(s@[lo as int]),
            decreases j - lo,
        {
            if lo == j {
                break;
            }
            if !is_space_char(s.get_char(lo)) {
                break;
            }
            lo += 1;
        }
        let mut hi: usize = j;
        loop
            invariant
                n == s@.len(),
                lo <= hi <= j,
                j <= n,
                forall|i: int| hi <= i < j ==> is_space(s@[i]),
            ensures
                lo <= hi <= j,
                forall|i: int| hi <= i < j ==> is_space(s@[i]),
                hi > lo ==> !is_space(s@[hi - 1]),
            decreases hi - lo,
        {
            if hi == lo {
                break;
            }
            if !is_space_char(s.get_char(hi - 1)) {
                break;
            }
            hi -= 1;
        }
        let ghost sub = s@.subrange(start as int, n as int);
        let ghost seg = s@.subrange(start as int, j as int);
        let ghost t = s@.subrange(lo as int, hi as int);
        proof {
            // the piece's trim is exactly the characters in [lo, hi)
            assert forall|i: int| 0 <= i < lo - start implies is_space(seg[i]) by {
                assert(seg[i] == s@[start + i]);
            }
            lemma_trim_start_prefix(seg, lo - start);
            let t1 = s@.subrange(lo as int, j as int);
            assert(seg.subrange(lo - start, seg.len() as int) =~= t1);
            assert forall|i: int| hi - lo <= i < t1.len() implies is_space(t1[i]) by {
                assert(t1[i] == s@[lo + i]);
            }
            lemma_trim_end_suffix(t1, hi - lo);
            assert(t1.subrange(0, hi - lo) =~= t);
            assert(trim(seg) == t);
        }
        let is_sentinel = segment_is_none(s, lo, hi);
        let ghost old_r = r.deep_view();
        if hi > lo && !is_sentinel {
            let piece = s.substring_char(lo, hi);
            let lab = String::from_str(piece);
            r.push(lab);
            proof {
                assert(r.deep_view() =~= old_r.push(t));
                assert(keeps(t));
            }
        } else {
            proof {
                assert(!keeps(t));
            }
        }
        if j == n {
            proof {
                // the piece was the last one: no comma remained in it
                assert(forall|i: int| 0 <= i < sub.len() ==> sub[i] != ',');
                lemma_split_no_comma(sub);
                assert(seq![seg] + Seq::<Seq<char>>::empty() =~= seq![seg]);
                lemma_clean_cons(seg, Seq::empty());
                assert(clean_pieces(Seq::<Seq<char>>::empty()) == Seq::<Seq<char>>::empty());
                if keeps(t) {
                    assert(clean_pieces(split_commas(sub)) =~= seq![t]);
                    assert(r.deep_view() =~= old_r + seq![t]);
                } else {
                    assert(clean_pieces(split_commas(sub)) =~= Seq::<Seq<char>>::empty());
                    assert(r.deep_view() + clean_pieces(split_commas(sub)) =~= old_r);
                }
                assert(r.deep_view() =~= parse_spec(s@));
            }
            break;
        }
        proof {
            // split the remaining text at the comma that ends the piece
            assert(sub[j - start] == ',');
            assert forall|i: int| 0 <= i < j - start implies sub[i] != ',' by {
                assert(sub[i] == s@[start + i]);
            }
            lemma_split_at_comma(sub, j - start);
            let next = s@.subrange(j + 1, n as int);
            assert(sub.subrange(0, j - start) =~= seg);
            assert(sub.subrange(j - start + 1, sub.len() as int) =~= next);
            lemma_clean_cons(seg, split_commas(next));
            if keeps(t) {
                assert(clean_pieces(split_commas(sub)) == seq![t] + clean_pieces(
                    split_commas(next),
                ));
                assert(r.deep_view() =~= old_r + seq![t]);
                assert(r.deep_view() + clean_pieces(split_commas(next)) =~= old_r + clean_pieces(
                    split_commas(sub),
                ));
            } else {
                assert(clean_pieces(split_commas(sub)) == clean_pieces(split_commas(next)));
            }
        }
        start = j + 1;
    }
    r
}

/// Every piece that parsing returns is non-empty and is not the
/// sentinel `none`.
pub proof fn lemma_clean_only_keeps(ps: Seq<Seq<char>>)
    ensures
        forall|k: int| 0 <= k < clean_pieces(ps).len() ==> keeps(#[trigger] clean_pieces(ps)[k]),
    decreases ps.len(),
{
    if ps.len() > 0 {
        lemma_clean_only_keeps(ps.drop_first());
        let t = trim(ps[0]);
        let rest = clean_pieces(ps.drop_first());
        if keeps(t) {
            assert forall|k: int| 0 <= k < clean_pieces(ps).len() implies keeps(
                clean_pieces(ps)[k],
            ) by {
                if k == 0 {
                    assert(clean_pieces(ps)[0] == t);
                } else {
                    assert(clean_pieces(ps)[k] == rest[k - 1]);
                }
            }
        }
    }
}

/// No parsed label set ever contains the sentinel `none`, nor an empty
/// label, whatever the response text was.
pub proof fn lemma_parse_excludes_sentinel(s: Seq<char>)
    ensures
        forall|k: int| 0 <= k < parse_spec(s).len() ==> (#[trigger] parse_spec(s)[k])
            != none_token(),
        forall|k: int| 0 <= k < parse_spec(s).len() ==> (#[trigger] parse_spec(s)[k]).len() > 0,
{
    lemma_clean_only_keeps(split_commas(s));
}

} // verus!

//! Reading text the way the OBJ importer needs: splitting at a byte,
//! splitting into lines, prefixes, and decimal integers.
use vstd::prelude::*;

verus! {

/// The pieces of `s` between the occurrences of `sep`, in order; a string
/// without `sep` is one piece, and the empty string is one empty piece.
pub open spec fn split_on(s: Seq<u8>, sep: u8) -> Seq<Seq<u8>>
    decreases s.len(),
{
    if s.len() == 0 {
        seq![Seq::<u8>::empty()]
    } else {
        let prev = split_on(s.drop_last(), sep);
        if s.last() == sep {
            prev.push(Seq::<u8>::empty())
        } else {
            prev.update(prev.len() - 1, prev.last().push(s.last()))
        }
    }
}

/// Splitting never gives an empty list of pieces.
pub proof fn lemma_split_on_nonempty(s: Seq<u8>, sep: u8)
    ensures
        split_on(s, sep).len() >= 1,
    decreases s.len(),
{
    if s.len() > 0 {
        lemma_split_on_nonempty(s.drop_last(), sep);
    }
}

/// A string without `sep` is a single piece: itself.
pub proof fn lemma_split_on_single(t: Seq<u8>, sep: u8)
    requires
        forall|i: int| 0 <= i < t.len() ==> t[i] != sep,
    ensures
        split_on(t, sep) == seq![t],
    decreases t.len(),
{
    if t.len() > 0 {
        let t0 = t.drop_last();
        lemma_split_on_single(t0, sep);
        assert(t0.push(t.last()) =~= t);
        assert(seq![t0].update(0, t0.push(t.last())) =~= seq![t]);
    } else {
        assert(t =~= Seq::<u8>::empty());
    }
}

/// After `sep`, a run without `sep` is one more piece: the pieces of
/// `s + [sep] + t` are those of `s`, then `t`.
pub proof fn lemma_split_on_append_piece(s: Seq<u8>, t: Seq<u8>, sep: u8)
    requires
        forall|i: int| 0 <= i < t.len() ==> t[i] != sep,
    ensures
        split_on(s + seq![sep] + t, sep) == split_on(s, sep).push(t),
    decreases t.len(),
{
    let u = s + seq![sep] + t;
    if t.len() == 0 {
        assert(u.drop_last() =~= s);
        assert(t =~= Seq::<u8>::empty());
    } else {
        let t0 = t.drop_last();
        lemma_split_on_append_piece(s, t0, sep);
        assert(u.drop_last() =~= s + seq![sep] + t0);
        let prev = split_on(s, sep).push(t0);
        assert(t0.push(t.last()) =~= t);
        assert(prev.update(prev.len() - 1, prev.last().push(u.last())) =~= split_on(s, sep).push(t));
    }
}

/// Whether `s` and `prefix` differ at a position both have, so that `s`
/// does not begin with `prefix`.
pub proof fn lemma_not_prefix_at(s: Seq<u8>, prefix: Seq<u8>, i: int)
    requires
        0 <= i < prefix.len(),
        i < s.len(),
        s[i] != prefix[i],
    ensures
        !has_prefix(s, prefix),
{
    if prefix.len() <= s.len() {
        assert(s.subrange(0, prefix.len() as int)[i] == s[i]);
    }
}

/// A string whose first bytes are those of `prefix` begins with it.
pub proof fn lemma_prefix_of(s: Seq<u8>, prefix: Seq<u8>)
    requires
        prefix.len() <= s.len(),
        forall|i: int| 0 <= i < prefix.len() ==> s[i] == prefix[i],
    ensures
        has_prefix(s, prefix),
{
    assert(s.subrange(0, prefix.len() as int) =~= prefix);
}

/// The pieces joined again, with `sep` between each two.
pub open spec fn join_with(pieces: Seq<Seq<u8>>, sep: u8) -> Seq<u8>
    decreases pieces.len(),
{
    if pieces.len() <= 1 {
        if pieces.len() == 1 { pieces[0] } else { Seq::empty() }
    } else {
        join_with(pieces.drop_last(), sep) + seq![sep] + pieces.last()
    }
}

proof fn lemma_join_extend_last(p: Seq<Seq<u8>>, sep: u8, c: u8)
    requires
        p.len() >= 1,
    ensures
        join_with(p.update(p.len() - 1, p.last().push(c)), sep) == join_with(p, sep).push(c),
{
    let q = p.update(p.len() - 1, p.last().push(c));
    if p.len() == 1 {
        assert(q[0] == p[0].push(c));
    } else {
        assert(q.drop_last() =~= p.drop_last());
        assert(join_with(q, sep) =~= join_with(p, sep).push(c));
    }
}

/// Splitting a string at `sep` and joining the pieces with `sep` gives the
/// string back.
pub proof fn lemma_split_join(s: Seq<u8>, sep: u8)
    ensures
        join_with(split_on(s, sep), sep) == s,
    decreases s.len(),
{
    if s.len() == 0 {
        assert(join_with(split_on(s, sep), sep) =~= s);
    } else {
        lemma_split_join(s.drop_last(), sep);
        lemma_split_on_nonempty(s.drop_last(), sep);
        let prev = split_on(s.drop_last(), sep);
        if s.last() == sep {
            let next = prev.push(Seq::<u8>::empty());
            assert(next.drop_last() =~= prev);
            assert(join_with(next, sep) =~= s);
        } else {
            lemma_join_extend_last(prev, sep, s.last());
            assert(join_with(split_on(s, sep), sep) =~= s);
        }
    }
}

/// A line without the carriage return that ended it, where it had one.
pub open spec fn strip_cr(line: Seq<u8>) -> Seq<u8> {
    if line.len() > 0 && line.last() == 13u8 {
        line.drop_last()
    } else {
        line
    }
}

/// The lines of a text: the pieces between line feeds, each without the
/// carriage return before its line feed; a last piece without a line feed
/// after it is a line only if it is not empty, and keeps its carriage return.
pub open spec fn lines_of(s: Seq<u8>) -> Seq<Seq<u8>> {
    let pieces = split_on(s, 10u8);
    let ended = pieces.drop_last().map_values(|p: Seq<u8>| strip_cr(p));
    if pieces.last().len() == 0 {
        ended
    } else {
        ended.push(pieces.last())
    }
}

/// The pieces of `s` between the occurrences of `sep`.
pub fn split_bytes(s: &Vec<u8>, sep: u8) -> (r: Vec<Vec<u8>>)
    ensures
        r@.len() == split_on(s@, sep).len(),
        forall|i: int| 0 <= i < r@.len() ==> #[trigger] r@[i]@ == split_on(s@, sep)[i],
{
    let mut pieces: Vec<Vec<u8>> = Vec::new();
    let mut current: Vec<u8> = Vec::new();
    let mut i: usize = 0;
    while i < s.len()
        invariant
            i <= s@.len(),
            pieces@.len() + 1 == split_on(s@.take(i as int), sep).len(),
            forall|k: int| 0 <= k < pieces@.len() ==> #[trigger] pieces@[k]@ == split_on(s@.take(i as int), sep)[k],
            current@ == split_on(s@.take(i as int), sep).last(),
        decreases s@.len() - i,
    {
        proof {
            lemma_split_on_nonempty(s@.take(i as int), sep);
            assert(s@.take(i as int + 1).drop_last() =~= s@.take(i as int));
        }
        let b = s[i];
        if b == sep {
            pieces.push(current);
            current = Vec::new();
        } else {
            current.push(b);
        }
        i = i + 1;
    }
    assert(s@.take(i as int) =~= s@);
    pieces.push(current);
    pieces
}

/// The lines of a text, as `str::lines` splits them.
pub fn split_lines(s: &Vec<u8>) -> (r: Vec<Vec<u8>>)
    ensures
        r@.len() == lines_of(s@).len(),
        forall|i: int| 0 <= i < r@.len() ==> #[trigger] r@[i]@ == lines_of(s@)[i],
{
    let pieces = split_bytes(s, 10u8);
    let ghost spec_pieces = split_on(s@, 10u8);
    proof {
        lemma_split_on_nonempty(s@, 10u8);
    }
    let n = pieces.len();
    let mut lines: Vec<Vec<u8>> = Vec::new();
    let mut i: usize = 0;
    while i + 1 < n
        invariant
            n == pieces@.len(),
            n == spec_pieces.len(),
            n >= 1,
            spec_pieces == split_on(s@, 10u8),
            forall|k: int| 0 <= k < n ==> #[trigger] pieces@[k]@ == spec_pieces[k],
            i + 1 <= n,
            lines@.len() == i,
            forall|k: int| 0 <= k < i ==> #[trigger] lines@[k]@ == strip_cr(spec_pieces[k]),
        decreases n - i,
    {
        let piece = &pieces[i];
        let len = piece.len();
        let mut line: Vec<u8> = Vec::new();
        let keep = if len > 0 && piece[len - 1] == 13u8 { len - 1 } else { len };
        let mut j: usize = 0;
        while j < keep
            invariant
                keep <= piece@.len(),
                j <= keep,
                line@ == piece@.take(j as int),
            decreases keep - j,
        {
            line.push(piece[j]);
            assert(line@ =~= piece@.take(j as int + 1));
            j = j + 1;
        }
        assert(line@ =~= strip_cr(piece@));
        lines.push(line);
        i = i + 1;
    }
    let last = &pieces[n - 1];
    if last.len() > 0 {
        let mut copy: Vec<u8> = Vec::new();
        let mut j: usize = 0;
        while j < last.len()
            invariant
                j <= last@.len(),
                copy@ == last@.take(j as int),
            decreases last@.len() - j,
        {
            copy.push(last[j]);
            assert(copy@ =~= last@.take(j as int + 1));
            j = j + 1;
        }
        assert(copy@ =~= last@);
        lines.push(copy);
    }
    lines
}

/// Whether `s` begins with `prefix`.
pub open spec fn has_prefix(s: Seq<u8>, prefix: Seq<u8>) -> bool {
    prefix.len() <= s.len() && s.subrange(0, prefix.len() as int) == prefix
}

/// Whether `s` begins with `prefix`.
pub fn starts_with(s: &Vec<u8>, prefix: &[u8]) -> (r: bool)
    ensures
        r == has_prefix(s@, prefix@),
{
    if prefix.len() > s.len() {
        return false;
    }
    let mut i: usize = 0;
    while i < prefix.len()
        invariant
            prefix@.len() <= s@.len(),
            i <= prefix@.len(),
            forall|k: int| 0 <= k < i ==> s@[k] == prefix@[k],
        decreases prefix@.len() - i,
    {
        if s[i] != prefix[i] {
            assert(s@.subrange(0, prefix@.len() as int)[i as int] != prefix@[i as int]);
            return false;
        }
        i = i + 1;
    }
    assert(s@.subrange(0, prefix@.len() as int) =~= prefix@);
    true
}

/// The value of a run of decimal digits.
pub open spec fn digits_value(d: Seq<u8>) -> int
    decreases d.len(),
{
    if d.len() == 0 {
        0
    } else {
        digits_value(d.drop_last()) * 10 + (d.last() - 48)
    }
}

pub open spec fn is_digit(b: u8) -> bool {
    48 <= b <= 57
}

pub open spec fn all_digits(d: Seq<u8>) -> bool {
    forall|i: int| 0 <= i < d.len() ==> is_digit(#[trigger] d[i])
}

/// What `str::parse::<i32>` gives for `s`: an optional sign, then at least
/// one decimal digit and nothing else, with a value that fits.
pub open spec fn parsed_i32(s: Seq<u8>) -> Option<i32> {
    let negative = s.len() > 0 && s[0] == 45u8;
    let signed = s.len() > 0 && (s[0] == 45u8 || s[0] == 43u8);
    let d = if signed { s.drop_first() } else { s };
    let v = if negative { -digits_value(d) } else { digits_value(d) };
    if d.len() == 0 || !all_digits(d) || v < i32::MIN || v > i32::MAX {
        None
    } else {
        Some(v as i32)
    }
}

/// A prefix of digits is worth no more than the whole.
pub proof fn lemma_digits_value_monotonic(d: Seq<u8>, k: int)
    requires
        0 <= k <= d.len(),
        all_digits(d),
    ensures
        0 <= digits_value(d.take(k)) <= digits_value(d),
    decreases d.len() - k,
{
    if k < d.len() {
        lemma_digits_value_monotonic(d, k + 1);
        assert(d.take(k + 1).drop_last() =~= d.take(k));
    } else {
        assert(d.take(k) =~= d);
        lemma_digits_value_nonneg(d);
    }
}

pub proof fn lemma_digits_value_nonneg(d: Seq<u8>)
    requires
        all_digits(d),
    ensures
        digits_value(d) >= 0,
    decreases d.len(),
{
    if d.len() > 0 {
        assert(all_digits(d.drop_last())) by {
            assert forall|i: int| 0 <= i < d.drop_last().len() implies is_digit(#[trigger] d.drop_last()[i]) by {
                assert(d.drop_last()[i] == d[i]);
            }
        }
        lemma_digits_value_nonneg(d.drop_last());
        assert(is_digit(d[d.len() - 1]));
    }
}

/// The decimal integer `s` spells, as `str::parse::<i32>` reads it.
pub fn parse_i32(s: &Vec<u8>) -> (r: Option<i32>)
    ensures
        r == parsed_i32(s@),
{
    let n = s.len();
    if n == 0 {
        return None;
    }
    let negative = s[0] == 45u8;
    let start: usize = if s[0] == 45u8 || s[0] == 43u8 { 1 } else { 0 };
    let ghost d = if start == 1 { s@.drop_first() } else { s@ };
    assert(d =~= s@.subrange(start as int, n as int));
    if start == n {
        return None;
    }
    let limit: u64 = 0x8000_0000;
    let mut acc: u64 = 0;
    let mut i: usize = start;
    while i < n
        invariant
            start <= i <= n,
            n == s@.len(),
            d == s@.subrange(start as int, n as int),
            d == (if start == 1 { s@.drop_first() } else { s@ }),
            start == 1 <==> (s@[0] == 45u8 || s@[0] == 43u8),
            negative == (s@[0] == 45u8),
            n > 0,
            limit == 0x8000_0000u64,
            acc <= limit,
            all_digits(d.take(i - start)),
            acc == digits_value(d.take(i - start)),
        decreases n - i,
    {
        let b = s[i];
        proof {
            assert(d.take(i - start + 1).drop_last() =~= d.take(i - start));
            assert(d[i - start] == b);
        }
        if b < 48u8 || b > 57u8 {
            proof {
                assert(!is_digit(d[i - start]));
                assert(!all_digits(d));
            }
            return None;
        }
        assert(acc * 10 <= 0x5_0000_0000) by (nonlinear_arith)
            requires
                acc <= 0x8000_0000u64,
        ;
        let next = acc * 10 + (b - 48u8) as u64;
        proof {
            assert(next == digits_value(d.take(i - start + 1)));
            assert(all_digits(d.take(i - start + 1))) by {
                assert forall|k: int| 0 <= k < d.take(i - start + 1).len() implies is_digit(
                    #[trigger] d.take(i - start + 1)[k],
                ) by {
                    if k < i - start {
                        assert(d.take(i - start + 1)[k] == d.take(i - start)[k]);
                    }
                }
            }
        }
        if next > limit {
            proof {
                if all_digits(d) {
                    lemma_digits_value_monotonic(d, i - start + 1);
                    assert(digits_value(d) > 0x8000_0000);
                }
            }
            return None;
        }
        acc = next;
        i = i + 1;
    }
    assert(d.take(i - start) =~= d);
    if negative {
        let v: i64 = -(acc as i64);
        Some(v as i32)
    } else {
        if acc > 0x7FFF_FFFF {
            return None;
        }
        Some(acc as i32)
    }
}

} // verus!

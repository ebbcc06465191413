//! Text helpers: dotted names and decimal numbers.

use vstd::prelude::*;
use vstd::string::*;

verus! {

/// The segments joined into one text, with `sep` between neighbours.
pub open spec fn joined(parts: Seq<Seq<char>>, sep: char) -> Seq<char>
    decreases parts.len(),
{
    if parts.len() == 0 {
        Seq::empty()
    } else if parts.len() == 1 {
        parts[0]
    } else {
        joined(parts.drop_last(), sep) + seq![sep] + parts.last()
    }
}

/// The segments of a text between the occurrences of `sep`. A text without
/// `sep` is one segment; an empty segment is kept wherever two separators
/// meet and at either end.
pub open spec fn split_on(s: Seq<char>, sep: char) -> Seq<Seq<char>>
    decreases s.len(),
{
    if s.len() == 0 {
        seq![Seq::empty()]
    } else {
        let front = split_on(s.drop_last(), sep);
        if s.last() == sep {
            front.push(Seq::empty())
        } else {
            front.drop_last().push(front.last().push(s.last()))
        }
    }
}

/// The views of a list of strings.
pub open spec fn texts_of(parts: Seq<String>) -> Seq<Seq<char>> {
    Seq::new(parts.len(), |i: int| parts[i]@)
}

/// Splitting never yields an empty list.
pub proof fn lemma_split_non_empty(s: Seq<char>, sep: char)
    ensures
        split_on(s, sep).len() >= 1,
    decreases s.len(),
{
    if s.len() > 0 {
        lemma_split_non_empty(s.drop_last(), sep);
    }
}

/// Joining what was split gives the text back: no segment is merged or lost.
pub proof fn lemma_join_split(s: Seq<char>, sep: char)
    ensures
        joined(split_on(s, sep), sep) == s,
    decreases s.len(),
{
    if s.len() == 0 {
        assert(joined(split_on(s, sep), sep) =~= s);
    } else {
        let rest = s.drop_last();
        let front = split_on(rest, sep);
        lemma_split_non_empty(rest, sep);
        lemma_join_split(rest, sep);
        let all = split_on(s, sep);
        if s.last() == sep {
            assert(all.drop_last() =~= front);
            assert(joined(all, sep) =~= rest + seq![sep]);
            assert(rest + seq![sep] =~= s);
        } else {
            let grown = front.last().push(s.last());
            assert(all.drop_last() =~= front.drop_last());
            assert(all.last() == grown);
            if front.len() == 1 {
                assert(joined(front, sep) == front[0]);
                assert(joined(all, sep) =~= s);
            } else {
                assert(joined(front, sep) == joined(front.drop_last(), sep) + seq![sep]
                    + front.last());
                assert(joined(all, sep) =~= joined(front, sep).push(s.last()));
                assert(rest.push(s.last()) =~= s);
            }
        }
    }
}

/// Appending a text without separators lengthens the last segment.
pub proof fn lemma_split_append(a: Seq<char>, t: Seq<char>, sep: char)
    requires
        !t.contains(sep),
    ensures
        split_on(a + t, sep) == split_on(a, sep).drop_last().push(split_on(a, sep).last() + t),
    decreases t.len(),
{
    let whole = split_on(a, sep);
    lemma_split_non_empty(a, sep);
    if t.len() == 0 {
        assert(a + t =~= a);
        assert(whole.last() + t =~= whole.last());
        assert(whole.drop_last().push(whole.last()) =~= whole);
    } else {
        let shorter = t.drop_last();
        assert forall|i: int| 0 <= i < shorter.len() implies shorter[i] != sep by {
            assert(t[i] == shorter[i]);
            assert(t.contains(t[i]));
        }
        assert(!shorter.contains(sep));
        lemma_split_append(a, shorter, sep);
        assert((a + t).drop_last() =~= a + shorter);
        assert((a + t).last() == t.last());
        assert(t.contains(t.last()));
        let front = split_on(a + shorter, sep);
        assert(front.drop_last() =~= whole.drop_last());
        assert(front.last().push(t.last()) =~= whole.last() + t);
    }
}

/// Splitting what was joined gives the segments back, where there is at
/// least one segment and none holds a separator.
pub proof fn lemma_split_join(parts: Seq<Seq<char>>, sep: char)
    requires
        parts.len() > 0,
        forall|i: int| 0 <= i < parts.len() ==> !(#[trigger] parts[i]).contains(sep),
    ensures
        split_on(joined(parts, sep), sep) == parts,
    decreases parts.len(),
{
    let last = parts.last();
    if parts.len() == 1 {
        let none = Seq::<char>::empty();
        lemma_split_append(none, last, sep);
        assert(none + last =~= last);
        assert(split_on(none, sep) =~= seq![none]);
        assert(seq![none].drop_last().push(seq![none].last() + last) =~= parts);
    } else {
        let front = parts.drop_last();
        lemma_split_join(front, sep);
        let head = joined(front, sep) + seq![sep];
        assert(head.drop_last() =~= joined(front, sep));
        assert(split_on(head, sep) == front.push(Seq::<char>::empty()));
        lemma_split_append(head, last, sep);
        assert(front.push(Seq::<char>::empty()).drop_last().push(Seq::<char>::empty() + last)
            =~= parts);
    }
}

/// Joins the segments with dots.
pub fn join_dotted(parts: &Vec<String>) -> (r: String)
    ensures
        r@ == joined(texts_of(parts@), '.'),
{
    let mut out = String::new();
    let mut i: usize = 0;
    proof {
        reveal_strlit(".");
        assert(texts_of(parts@).take(0) =~= Seq::<Seq<char>>::empty());
    }
    while i < parts.len()
        invariant
            i <= parts.len(),
            "."@ == seq!['.'],
            out@ == joined(texts_of(parts@).take(i as int), '.'),
        decreases parts.len() - i,
    {
        proof {
            let now = texts_of(parts@).take(i + 1);
            assert(now.drop_last() =~= texts_of(parts@).take(i as int));
            assert(now.last() == parts@[i as int]@);
        }
        if i > 0 {
            out.append(".");
        }
        out.append(parts[i].as_str());
        i += 1;
        proof {
            if i == 1 {
                assert(out@ =~= parts@[0]@);
            }
        }
    }
    proof {
        assert(texts_of(parts@).take(parts@.len() as int) =~= texts_of(parts@));
    }
    out
}

/// Splits a dotted name into its segments.
pub fn split_dotted(s: &str) -> (r: Vec<String>)
    ensures
        texts_of(r@) == split_on(s@, '.'),
        r@.len() >= 1,
{
    let n = s.unicode_len();
    let mut out: Vec<String> = Vec::new();
    let mut start: usize = 0;
    let mut i: usize = 0;
    proof {
        assert(s@.take(0) =~= Seq::<char>::empty());
        assert(texts_of(out@).push(s@.subrange(0, 0)) =~= split_on(s@.take(0), '.'));
    }
    while i < n
        invariant
            n == s@.len(),
            start <= i <= n,
            split_on(s@.take(i as int), '.') == texts_of(out@).push(
                s@.subrange(start as int, i as int),
            ),
        decreases n - i,
    {
        let c = s.get_char(i);
        proof {
            assert(s@.take(i + 1).drop_last() =~= s@.take(i as int));
            assert(s@.take(i + 1).last() == c);
        }
        if c == '.' {
            let ghost before = out@;
            let segment = s.substring_char(start, i);
            out.push(segment.to_owned());
            start = i + 1;
            proof {
                assert(texts_of(out@) =~= texts_of(before).push(segment@));
                assert(s@.subrange(start as int, i + 1) =~= Seq::<char>::empty());
            }
        } else {
            proof {
                let front = split_on(s@.take(i as int), '.');
                assert(front.drop_last() =~= texts_of(out@));
                assert(front.last().push(c) =~= s@.subrange(start as int, i + 1));
            }
        }
        i += 1;
    }
    let ghost before = out@;
    let segment = s.substring_char(start, n);
    out.push(segment.to_owned());
    proof {
        assert(s@.take(n as int) =~= s@);
        assert(texts_of(out@) =~= texts_of(before).push(segment@));
    }
    out
}

/// The character of a decimal digit.
pub open spec fn digit_char(d: int) -> char {
    if d == 0 {
        '0'
    } else if d == 1 {
        '1'
    } else if d == 2 {
        '2'
    } else if d == 3 {
        '3'
    } else if d == 4 {
        '4'
    } else if d == 5 {
        '5'
    } else if d == 6 {
        '6'
    } else if d == 7 {
        '7'
    } else if d == 8 {
        '8'
    } else {
        '9'
    }
}

/// The decimal digits of a natural number, without leading zeros.
pub open spec fn decimal_digits(n: nat) -> Seq<char>
    decreases n,
{
    if n < 10 {
        seq![digit_char(n as int)]
    } else {
        decimal_digits(n / 10).push(digit_char((n % 10) as int))
    }
}

/// The decimal text of an integer, with a minus sign where it is negative.
pub open spec fn decimal_text(n: int) -> Seq<char> {
    if n < 0 {
        seq!['-'] + decimal_digits((-n) as nat)
    } else {
        decimal_digits(n as nat)
    }
}

/// The text of one decimal digit.
fn digit_str(d: u64) -> (r: &'static str)
    requires
        d < 10,
    ensures
        r@ == seq![digit_char(d as int)],
{
    proof {
        reveal_strlit("0");
        reveal_strlit("1");
        reveal_strlit("2");
        reveal_strlit("3");
        reveal_strlit("4");
        reveal_strlit("5");
        reveal_strlit("6");
        reveal_strlit("7");
        reveal_strlit("8");
        reveal_strlit("9");
    }
    let r = if d == 0 {
        "0"
    } else if d == 1 {
        "1"
    } else if d == 2 {
        "2"
    } else if d == 3 {
        "3"
    } else if d == 4 {
        "4"
    } else if d == 5 {
        "5"
    } else if d == 6 {
        "6"
    } else if d == 7 {
        "7"
    } else if d == 8 {
        "8"
    } else {
        "9"
    };
    proof {
        assert(r@ =~= seq![digit_char(d as int)]);
    }
    r
}

/// The decimal text of an unsigned number.
pub fn decimal_unsigned(n: u64) -> (r: String)
    ensures
        r@ == decimal_digits(n as nat),
    decreases n,
{
    if n < 10 {
        digit_str(n).to_owned()
    } else {
        let mut out = decimal_unsigned(n / 10);
        out.append(digit_str(n % 10));
        proof {
            assert(out@ =~= decimal_digits(n as nat));
        }
        out
    }
}

/// The decimal text of a signed number.
pub fn decimal(n: i64) -> (r: String)
    ensures
        r@ == decimal_text(n as int),
{
    if n < 0 {
        let magnitude: u64 = (-(n as i128)) as u64;
        let mut out = "-".to_owned();
        let digits = decimal_unsigned(magnitude);
        out.append(digits.as_str());
        proof {
            reveal_strlit("-");
            assert(out@ =~= decimal_text(n as int));
        }
        out
    } else {
        decimal_unsigned(n as u64)
    }
}

} // verus!

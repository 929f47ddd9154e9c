//! Verified string utilities the pipeline's parsing rests on: character
//! equality of strings, removal of a marker substring from a title, decimal
//! parsing, and splitting probe output into lines.

use vstd::prelude::*;

verus! {

/// Whether two strings hold the same characters.
pub fn str_eq(a: &str, b: &str) -> (r: bool)
    ensures
        r == (a@ == b@),
{
    let n = a.unicode_len();
    let m = b.unicode_len();
    if n != m {
        return false;
    }
    let mut i: usize = 0;
    while i < n
        invariant
            n == a@.len(),
            n == b@.len(),
            i <= n,
            forall|j: int| 0 <= j < i ==> a@[j] == b@[j],
        decreases n - i,
    {
        if a.get_char(i) != b.get_char(i) {
            return false;
        }
        i = i + 1;
    }
    proof {
        assert(a@ =~= b@);
    }
    true
}

/// `s` with every occurrence of `pat` removed, scanning left to right and
/// not rescanning removed text; `s` itself when `pat` is empty.
pub open spec fn strip_spec(s: Seq<char>, pat: Seq<char>) -> Seq<char>
    decreases s.len(),
{
    if pat.len() == 0 {
        s
    } else if s.len() < pat.len() {
        s
    } else if s.take(pat.len() as int) == pat {
        strip_spec(s.skip(pat.len() as int), pat)
    } else {
        seq![s[0]] + strip_spec(s.skip(1), pat)
    }
}

/// Whether `pat` occurs in `s` starting at character `i`.
fn matches_at(s: &str, pat: &str, i: usize) -> (r: bool)
    requires
        i + pat@.len() <= s@.len(),
        s@.len() <= usize::MAX,
    ensures
        r == (s@.subrange(i as int, i as int + pat@.len() as int) == pat@),
{
    let m = pat.unicode_len();
    let mut j: usize = 0;
    while j < m
        invariant
            m == pat@.len(),
            i + m <= s@.len(),
            s@.len() <= usize::MAX,
            j <= m,
            forall|k: int| 0 <= k < j ==> s@[i + k] == pat@[k],
        decreases m - j,
    {
        if s.get_char(i + j) != pat.get_char(j) {
            proof {
                assert(s@.subrange(i as int, i as int + m as int)[j as int] == s@[i + j]);
            }
            return false;
        }
        j = j + 1;
    }
    proof {
        assert(s@.subrange(i as int, i as int + m as int) =~= pat@);
    }
    true
}

/// Remove every occurrence of `pat` from `s`, left to right.
pub fn strip_occurrences(s: &str, pat: &str) -> (r: String)
    requires
        pat@.len() > 0,
    ensures
        r@ == strip_spec(s@, pat@),
{
    let n = s.unicode_len();
    let m = pat.unicode_len();
    let mut out = String::new();
    let mut i: usize = 0;
    proof {
        assert(s@.skip(0) =~= s@);
    }
    while i < n
        invariant
            n == s@.len(),
            m == pat@.len(),
            m > 0,
            i <= n,
            out@ + strip_spec(s@.skip(i as int), pat@) == strip_spec(s@, pat@),
        decreases n - i,
    {
        let rest = n - i;
        if m <= rest && matches_at(s, pat, i) {
            proof {
                let t = s@.skip(i as int);
                assert(t.take(m as int) =~= s@.subrange(i as int, i as int + m as int));
                assert(t.skip(m as int) =~= s@.skip(i as int + m as int));
            }
            i = i + m;
        } else if m <= rest {
            let piece = s.substring_char(i, i + 1);
            let ghost prev = out@;
            out.append(piece);
            proof {
                let t = s@.skip(i as int);
                assert(t.take(m as int) =~= s@.subrange(i as int, i as int + m as int));
                assert(t.skip(1) =~= s@.skip(i as int + 1));
                assert(seq![t[0]] =~= s@.subrange(i as int, i as int + 1));
                assert(out@ + strip_spec(s@.skip(i as int + 1), pat@) == strip_spec(s@, pat@)) by {
                    assert(prev + (seq![t[0]] + strip_spec(t.skip(1), pat@)) =~= (prev + seq![
                        t[0],
                    ]) + strip_spec(t.skip(1), pat@));
                }
            }
            i = i + 1;
        } else {
            let piece = s.substring_char(i, n);
            let ghost prev = out@;
            out.append(piece);
            proof {
                let t = s@.skip(i as int);
                assert(t =~= s@.subrange(i as int, n as int));
                assert(s@.skip(n as int) =~= Seq::<char>::empty());
                assert(prev + t == prev + strip_spec(t, pat@));
            }
            i = n;
        }
    }
    proof {
        assert(s@.skip(n as int) =~= Seq::<char>::empty());
    }
    out
}

/// Whether `c` is a decimal digit.
pub open spec fn is_digit(c: char) -> bool {
    48 <= c as int <= 57
}

/// Numeric value of a digit character.
pub open spec fn digit_val(c: char) -> nat {
    (c as int - 48) as nat
}

/// Whether every character of `s` is a decimal digit.
pub open spec fn all_digits(s: Seq<char>) -> bool {
    forall|i: int| 0 <= i < s.len() ==> is_digit(#[trigger] s[i])
}

/// Value of `s` read as a decimal numeral.
pub open spec fn dec_val(s: Seq<char>) -> nat
    decreases s.len(),
{
    if s.len() == 0 {
        0
    } else {
        dec_val(s.drop_last()) * 10 + digit_val(s.last())
    }
}

/// A numeral's value only grows as more digits are appended: the value of a
/// prefix never exceeds the value of the whole.
proof fn lemma_dec_val_prefix(s: Seq<char>, i: int)
    requires
        0 <= i <= s.len(),
    ensures
        dec_val(s.take(i)) <= dec_val(s),
    decreases s.len() - i,
{
    if i == s.len() {
        assert(s.take(i) =~= s);
    } else {
        lemma_dec_val_prefix(s, i + 1);
        assert(s.take(i + 1).drop_last() =~= s.take(i));
        assert(dec_val(s.take(i + 1)) == dec_val(s.take(i)) * 10 + digit_val(s.take(i + 1).last()));
    }
}

/// Parse a decimal numeral: the value when `s` is one or more digits whose
/// value fits; nothing on an empty string, a non-digit, or a value over the
/// `u32` range.
pub fn parse_u32(s: &str) -> (r: Option<u32>)
    ensures
        match r {
            Some(v) => s@.len() > 0 && all_digits(s@) && v == dec_val(s@),
            None => s@.len() == 0 || !all_digits(s@) || dec_val(s@) > u32::MAX,
        },
{
    let n = s.unicode_len();
    if n == 0 {
        return None;
    }
    let mut acc: u64 = 0;
    let mut i: usize = 0;
    while i < n
        invariant
            n == s@.len(),
            0 < n <= usize::MAX,
            i <= n,
            acc == dec_val(s@.take(i as int)),
            acc <= u32::MAX,
            forall|j: int| 0 <= j < i ==> is_digit(#[trigger] s@[j]),
        decreases n - i,
    {
        let c = s.get_char(i);
        let code = c as u32;
        if code < 48 || code > 57 {
            return None;
        }
        proof {
            assert(s@.take(i as int + 1).drop_last() =~= s@.take(i as int));
            assert(s@.take(i as int + 1).last() == s@[i as int]);
        }
        acc = acc * 10 + (code - 48) as u64;
        i = i + 1;
        if acc > 0xFFFF_FFFF {
            proof {
                lemma_dec_val_prefix(s@, i as int);
            }
            return None;
        }
    }
    proof {
        assert(s@.take(n as int) =~= s@);
    }
    Some(acc as u32)
}

/// Index of the first newline of `s`, or its length when it has none.
pub open spec fn newline_at(s: Seq<char>) -> nat
    decreases s.len(),
{
    if s.len() == 0 {
        0
    } else if s[0] == '\n' {
        0
    } else {
        1 + newline_at(s.skip(1))
    }
}

/// A line with a trailing carriage return dropped.
pub open spec fn trim_cr(line: Seq<char>) -> Seq<char> {
    if line.len() > 0 && line.last() == '\r' {
        line.drop_last()
    } else {
        line
    }
}

/// `s` split at newlines, each line with a trailing carriage return
/// dropped; a trailing newline opens no empty final line.
pub open spec fn line_split(s: Seq<char>) -> Seq<Seq<char>>
    decreases s.len(),
{
    if s.len() == 0 {
        seq![]
    } else {
        let k = newline_at(s);
        if k >= s.len() {
            seq![trim_cr(s)]
        } else {
            seq![trim_cr(s.take(k as int))] + line_split(s.skip(k as int + 1))
        }
    }
}

/// `newline_at` is exactly the index of the first newline.
proof fn lemma_newline_at_value(t: Seq<char>, d: int)
    requires
        0 <= d <= t.len(),
        forall|j: int| 0 <= j < d ==> t[j] != '\n',
        d < t.len() ==> t[d] == '\n',
    ensures
        newline_at(t) == d,
    decreases d,
{
    if t.len() == 0 {
    } else if d == 0 {
    } else {
        assert(t[0] != '\n');
        lemma_newline_at_value(t.skip(1), d - 1);
    }
}

/// Split `s` into its lines: at every newline, dropping a carriage return
/// at the end of a line.
pub fn split_lines(s: &str) -> (r: Vec<String>)
    ensures
        r@.len() == line_split(s@).len(),
        forall|i: int| 0 <= i < r@.len() ==> (#[trigger] r@[i])@ == line_split(s@)[i],
{
    let n = s.unicode_len();
    let mut lines: Vec<String> = Vec::new();
    let mut start: usize = 0;
    proof {
        assert(s@.skip(0) =~= s@);
        assert(lines@.map_values(|l: String| l@) + line_split(s@) =~= line_split(s@));
    }
    while start < n
        invariant
            n == s@.len(),
            start <= n,
            line_split(s@) =~= lines@.map_values(|l: String| l@) + line_split(
                s@.skip(start as int),
            ),
        decreases n - start,
    {
        let mut k: usize = start;
        while k < n && s.get_char(k) != '\n'
            invariant
                n == s@.len(),
                start <= k <= n,
                forall|j: int| start <= j < k ==> s@[j] != '\n',
            decreases n - k,
        {
            k = k + 1;
        }
        proof {
            let t = s@.skip(start as int);
            lemma_newline_at_value(t, k - start);
        }
        let has_cr = k > start && s.get_char(k - 1) == '\r';
        let line_end = if has_cr {
            k - 1
        } else {
            k
        };
        let piece = s.substring_char(start, line_end);
        let line = String::from_str(piece);
        let ghost done = lines@.map_values(|l: String| l@);
        lines.push(line);
        proof {
            let t = s@.skip(start as int);
            assert(lines@.map_values(|l: String| l@) =~= done.push(piece@));
            if k == n {
                assert(t.take((k - start) as int) =~= t);
                assert(trim_cr(t) =~= piece@);
                assert(s@.skip(n as int) =~= Seq::<char>::empty());
                assert(done.push(piece@) + line_split(s@.skip(n as int)) =~= done + line_split(t));
            } else {
                assert(t.take((k - start) as int) =~= s@.subrange(start as int, k as int));
                assert(trim_cr(t.take((k - start) as int)) =~= piece@);
                assert(t.skip((k - start) as int + 1) =~= s@.skip(k as int + 1));
                assert(done.push(piece@) + line_split(s@.skip(k as int + 1)) =~= done + line_split(
                    t,
                ));
            }
        }
        start = if k < n {
            k + 1
        } else {
            n
        };
    }
    proof {
        assert(s@.skip(n as int) =~= Seq::<char>::empty());
        assert(lines@.map_values(|l: String| l@) + line_split(s@.skip(n as int))
            =~= lines@.map_values(|l: String| l@));
        assert(forall|i: int|
            0 <= i < lines@.len() ==> (#[trigger] lines@[i])@ == lines@.map_values(
                |l: String| l@,
            )[i]);
    }
    lines
}

} // verus!

//! Character-level helpers: string equality, whitespace trimming, and
//! the comma-separated list format used by the extensions environment
//! variable.

use vstd::prelude::*;
use vstd::string::*;

verus! {

/// The Unicode whitespace characters, as the `White_Space` property
/// lists them.
pub open spec fn is_space(c: char) -> bool {
    ||| c == '\t'
    ||| c == '\n'
    ||| c == '\u{B}'
    ||| c == '\u{C}'
    ||| c == '\r'
    ||| c == ' '
    ||| c == '\u{85}'
    ||| c == '\u{A0}'
    ||| c == '\u{1680}'
    ||| c == '\u{2000}'
    ||| c == '\u{2001}'
    ||| c == '\u{2002}'
    ||| c == '\u{2003}'
    ||| c == '\u{2004}'
    ||| c == '\u{2005}'
    ||| c == '\u{2006}'
    ||| c == '\u{2007}'
    ||| c == '\u{2008}'
    ||| c == '\u{2009}'
    ||| c == '\u{200A}'
    ||| c == '\u{2028}'
    ||| c == '\u{2029}'
    ||| c == '\u{202F}'
    ||| c == '\u{205F}'
    ||| c == '\u{3000}'
}

/// Whether `c` is whitespace, as `is_space` defines it.
pub fn is_space_char(c: char) -> (r: bool)
    ensures
        r == is_space(c),
{
    c == '\t' || c == '\n' || c == '\u{B}' || c == '\u{C}' || c == '\r' || c == ' ' || c
        == '\u{85}' || c == '\u{A0}' || c == '\u{1680}' || c == '\u{2000}' || c == '\u{2001}' || c
        == '\u{2002}' || c == '\u{2003}' || c == '\u{2004}' || c == '\u{2005}' || c == '\u{2006}'
        || c == '\u{2007}' || c == '\u{2008}' || c == '\u{2009}' || c == '\u{200A}' || c
        == '\u{2028}' || c == '\u{2029}' || c == '\u{202F}' || c == '\u{205F}' || c == '\u{3000}'
}

/// Character-by-character string equality.
pub fn str_eq(a: &str, b: &str) -> (r: bool)
    ensures
        r == (a@ == b@),
{
    let an = a.unicode_len();
    let bn = b.unicode_len();
    if an != bn {
        return false;
    }
    let mut i: usize = 0;
    while i < an
        invariant
            i <= an,
            an == a@.len(),
            an == b@.len(),
            forall|j: int| 0 <= j < i ==> a@[j] == b@[j],
        decreases an - i,
    {
        if a.get_char(i) != b.get_char(i) {
            return false;
        }
        i += 1;
    }
    proof {
        assert(a@ =~= b@);
    }
    true
}

/// The sequence without its leading whitespace.
pub open spec fn trim_start(s: Seq<char>) -> Seq<char>
    decreases s.len(),
{
    if s.len() > 0 && is_space(s[0]) {
        trim_start(s.drop_first())
    } else {
        s
    }
}

/// The sequence without its trailing whitespace.
pub open spec fn trim_end(s: Seq<char>) -> Seq<char>
    decreases s.len(),
{
    if s.len() > 0 && is_space(s.last()) {
        trim_end(s.drop_last())
    } else {
        s
    }
}

/// The sequence without leading or trailing whitespace.
pub open spec fn trimmed(s: Seq<char>) -> Seq<char> {
    trim_end(trim_start(s))
}

proof fn lemma_trim_start_prefix(s: Seq<char>, k: int)
    requires
        0 <= k <= s.len(),
        forall|j: int| 0 <= j < k ==> is_space(s[j]),
        k < s.len() ==> !is_space(s[k]),
    ensures
        trim_start(s) == s.subrange(k, s.len() as int),
    decreases k,
{
    if k == 0 {
        assert(s.subrange(0, s.len() as int) =~= s);
    } else {
        lemma_trim_start_prefix(s.drop_first(), k - 1);
        assert(s.drop_first().subrange(k - 1, s.len() - 1) =~= s.subrange(k, s.len() as int));
    }
}

proof fn lemma_trim_end_suffix(s: Seq<char>, k: int)
    requires
        0 <= k <= s.len(),
        forall|j: int| k <= j < s.len() ==> is_space(s[j]),
        k > 0 ==> !is_space(s[k - 1]),
    ensures
        trim_end(s) == s.subrange(0, k),
    decreases s.len() - k,
{
    if k == s.len() {
        assert(s.subrange(0, k) =~= s);
    } else {
        lemma_trim_end_suffix(s.drop_last(), k);
        assert(s.drop_last().subrange(0, k) =~= s.subrange(0, k));
    }
}

/// A copy of `s` without leading or trailing whitespace.
pub fn trim(s: &str) -> (r: String)
    ensures
        r@ == trimmed(s@),
{
    let n = s.unicode_len();
    let mut a: usize = 0;
    while a < n && is_space_char(s.get_char(a))
        invariant
            a <= n,
            n == s@.len(),
            forall|j: int| 0 <= j < a ==> is_space(s@[j]),
        decreases n - a,
    {
        a += 1;
    }
    let mut b: usize = n;
    while b > a && is_space_char(s.get_char(b - 1))
        invariant
            a <= b <= n,
            n == s@.len(),
            forall|j: int| b <= j < n ==> is_space(s@[j]),
        decreases b,
    {
        b -= 1;
    }
    let sub = s.substring_char(a, b);
    proof {
        lemma_trim_start_prefix(s@, a as int);
        let t = s@.subrange(a as int, n as int);
        assert(forall|j: int| b - a <= j < t.len() ==> is_space(t[j]));
        lemma_trim_end_suffix(t, b - a);
        assert(t.subrange(0, b - a) =~= s@.subrange(a as int, b as int));
    }
    String::from_str(sub)
}

/// The comma-separated segments of `s`, empties included; an empty
/// input has one empty segment.
pub open spec fn split_commas(s: Seq<char>) -> Seq<Seq<char>>
    decreases s.len(),
{
    if s.len() == 0 {
        seq![Seq::<char>::empty()]
    } else if s[0] == ',' {
        seq![Seq::<char>::empty()] + split_commas(s.drop_first())
    } else {
        let rest = split_commas(s.drop_first());
        seq![seq![s[0]] + rest.first()] + rest.drop_first()
    }
}

/// Each segment trimmed, with the segments that trim to nothing
/// discarded.
pub open spec fn kept_entries(segs: Seq<Seq<char>>) -> Seq<Seq<char>>
    decreases segs.len(),
{
    if segs.len() == 0 {
        Seq::<Seq<char>>::empty()
    } else {
        let t = trimmed(segs.first());
        let rest = kept_entries(segs.drop_first());
        if t.len() > 0 {
            seq![t] + rest
        } else {
            rest
        }
    }
}

/// The list a comma-separated environment value stands for: split on
/// commas, each entry trimmed, empty entries discarded.
pub open spec fn list_of_env(s: Seq<char>) -> Seq<Seq<char>> {
    kept_entries(split_commas(s))
}

proof fn lemma_split_commas_len(s: Seq<char>)
    ensures
        split_commas(s).len() >= 1,
    decreases s.len(),
{
    if s.len() == 0 {
    } else {
        lemma_split_commas_len(s.drop_first());
    }
}

proof fn lemma_split_first_comma(s: Seq<char>, k: int)
    requires
        0 <= k <= s.len(),
        forall|j: int| 0 <= j < k ==> s[j] != ',',
        k < s.len() ==> s[k] == ',',
    ensures
        k == s.len() ==> split_commas(s) == seq![s],
        k < s.len() ==> split_commas(s) == seq![s.subrange(0, k)] + split_commas(
            s.subrange(k + 1, s.len() as int),
        ),
    decreases k,
{
    lemma_split_commas_len(s.drop_first());
    if k == 0 {
        if k == s.len() {
            assert(s =~= Seq::<char>::empty());
        }
        if k < s.len() {
            assert(s.subrange(0, 0) =~= Seq::<char>::empty());
            assert(s.subrange(1, s.len() as int) =~= s.drop_first());
        }
    } else {
        let d = s.drop_first();
        lemma_split_first_comma(d, k - 1);
        let rest = split_commas(d);
        if k == s.len() {
            assert(rest == seq![d]);
            assert(rest.first() == d);
            assert(rest.drop_first() =~= Seq::<Seq<char>>::empty());
            assert(seq![s[0]] + d =~= s);
            assert(split_commas(s) =~= seq![s]);
        } else {
            assert(rest == seq![d.subrange(0, k - 1)] + split_commas(
                d.subrange(k, d.len() as int),
            ));
            assert(rest.first() == d.subrange(0, k - 1));
            assert(rest.drop_first() =~= split_commas(d.subrange(k, d.len() as int)));
            assert(seq![s[0]] + d.subrange(0, k - 1) =~= s.subrange(0, k));
            assert(d.subrange(k, d.len() as int) =~= s.subrange(k + 1, s.len() as int));
            assert(split_commas(s) =~= seq![s.subrange(0, k)] + split_commas(
                s.subrange(k + 1, s.len() as int),
            ));
        }
    }
}

proof fn lemma_kept_entries_cons(x: Seq<char>, rest: Seq<Seq<char>>)
    ensures
        trimmed(x).len() > 0 ==> kept_entries(seq![x] + rest) == seq![trimmed(x)] + kept_entries(
            rest,
        ),
        trimmed(x).len() == 0 ==> kept_entries(seq![x] + rest) == kept_entries(rest),
{
    let segs = seq![x] + rest;
    assert(segs.first() == x);
    assert(segs.drop_first() =~= rest);
}

/// Split a comma-separated value into its non-empty trimmed entries, in
/// order.
pub fn split_list(s: &str) -> (r: Vec<String>)
    ensures
        r.deep_view() == list_of_env(s@),
{
    let n = s.unicode_len();
    let mut out: Vec<String> = Vec::new();
    let mut start: usize = 0;
    let mut i: usize = 0;
    proof {
        assert(s@.subrange(0, n as int) =~= s@);
        assert(out.deep_view() =~= Seq::<Seq<char>>::empty());
        assert(Seq::<Seq<char>>::empty() + kept_entries(split_commas(s@)) =~= kept_entries(
            split_commas(s@),
        ));
    }
    while i < n
        invariant
            0 <= start <= i <= n,
            n == s@.len(),
            forall|j: int| start <= j < i ==> s@[j] != ',',
            list_of_env(s@) == out.deep_view() + kept_entries(
                split_commas(s@.subrange(start as int, n as int)),
            ),
        decreases n - i,
    {
        if s.get_char(i) == ',' {
            let seg = s.substring_char(start, i);
            let entry = trim(seg);
            let ghost prev = out.deep_view();
            let ghost t = s@.subrange(start as int, n as int);
            let ghost segv = s@.subrange(start as int, i as int);
            let ghost restv = split_commas(s@.subrange(i + 1, n as int));
            proof {
                lemma_split_first_comma(t, i - start);
                assert(t.subrange(0, i - start) =~= segv);
                assert(t.subrange(i - start + 1, t.len() as int) =~= s@.subrange(i + 1, n as int));
                assert(split_commas(t) == seq![segv] + restv);
                lemma_kept_entries_cons(segv, restv);
            }
            if !entry.as_str().is_empty() {
                out.push(entry);
                proof {
                    assert(out.deep_view() =~= prev.push(trimmed(segv)));
                    assert(prev.push(trimmed(segv)) + kept_entries(restv) =~= prev + (seq![
                        trimmed(segv),
                    ] + kept_entries(restv)));
                }
            }
            start = i + 1;
        }
        i += 1;
    }
    let seg = s.substring_char(start, n);
    let entry = trim(seg);
    let ghost prev = out.deep_view();
    let ghost t = s@.subrange(start as int, n as int);
    proof {
        lemma_split_first_comma(t, n - start);
        assert(seq![t] =~= seq![t] + Seq::<Seq<char>>::empty());
        lemma_kept_entries_cons(t, Seq::<Seq<char>>::empty());
        assert(kept_entries(Seq::<Seq<char>>::empty()) == Seq::<Seq<char>>::empty());
    }
    if !entry.as_str().is_empty() {
        out.push(entry);
        proof {
            assert(out.deep_view() =~= prev.push(trimmed(t)));
            assert(seq![trimmed(t)] + Seq::<Seq<char>>::empty() =~= seq![trimmed(t)]);
            assert(prev.push(trimmed(t)) =~= prev + seq![trimmed(t)]);
        }
    } else {
        proof {
            assert(prev + Seq::<Seq<char>>::empty() =~= prev);
        }
    }
    out
}

} // verus!

//! Character-level scanning used by the quote decoder: classifying
//! characters, finding a separator, splitting on a separator, and
//! trimming surrounding whitespace.
use vstd::prelude::*;

verus! {

/// True exactly for the ten ASCII digit characters.
pub open spec fn is_digit(c: char) -> bool {
    48 <= c as u32 <= 57
}

/// Numeric value of an ASCII digit character.
pub open spec fn digit_val(c: char) -> int {
    c as u32 - 48
}

/// Whether `c` is an ASCII digit, and its value if so.
pub fn digit_of(c: char) -> (r: Option<u8>)
    ensures
        r is Some <==> is_digit(c),
        r is Some ==> r->0 == digit_val(c),
{
    let u: u32 = c as u32;
    if 48 <= u && u <= 57 {
        Some((u - 48) as u8)
    } else {
        None
    }
}

/// The whitespace that may surround a quote line within the response body.
pub open spec fn is_space(c: char) -> bool {
    c == ' ' || c == '\t' || c == '\r' || c == '\n'
}

/// Position of the first occurrence of `c` in `s`, if any.
pub open spec fn find_spec(s: Seq<char>, c: char) -> Option<int>
    decreases s.len(),
{
    if s.len() == 0 {
        None
    } else if s[0] == c {
        Some(0int)
    } else {
        match find_spec(s.drop_first(), c) {
            None => None,
            Some(i) => Some(i + 1),
        }
    }
}

/// `find_spec` returns the first occurrence: a position holding `c`
/// with no occurrence of `c` before it, or `None` when `c` is absent.
pub proof fn lemma_find_spec(s: Seq<char>, c: char)
    ensures
        match find_spec(s, c) {
            None => forall|i: int| 0 <= i < s.len() ==> s[i] != c,
            Some(i) => 0 <= i < s.len() && s[i] == c && (forall|j: int| 0 <= j < i ==> s[j] != c),
        },
    decreases s.len(),
{
    if s.len() > 0 && s[0] != c {
        lemma_find_spec(s.drop_first(), c);
        match find_spec(s.drop_first(), c) {
            None => {
                assert forall|i: int| 0 <= i < s.len() implies s[i] != c by {
                    if i > 0 {
                        assert(s.drop_first()[i - 1] == s[i]);
                    }
                }
            },
            Some(k) => {
                assert(s.drop_first()[k] == s[k + 1]);
                assert forall|j: int| 0 <= j < k + 1 implies s[j] != c by {
                    if j > 0 {
                        assert(s.drop_first()[j - 1] == s[j]);
                    }
                }
            },
        }
    }
}

/// First position of `c` in `s`, decided executably.
pub fn find_char(s: &str, c: char) -> (r: Option<usize>)
    ensures
        match r {
            None => find_spec(s@, c) is None,
            Some(i) => find_spec(s@, c) == Some(i as int),
        },
{
    let n: usize = s.unicode_len();
    let mut i: usize = 0;
    while i < n
        invariant
            n == s@.len(),
            0 <= i <= n,
            forall|j: int| 0 <= j < i ==> s@[j] != c,
        decreases n - i,
    {
        if s.get_char(i) == c {
            proof {
                lemma_find_spec(s@, c);
            }
            return Some(i);
        }
        i = i + 1;
    }
    proof {
        lemma_find_spec(s@, c);
    }
    None
}

/// The pieces of `s` between occurrences of the separator `sep`,
/// in order; a string with no separator yields itself as the one piece.
pub open spec fn split_spec(s: Seq<char>, sep: char) -> Seq<Seq<char>>
    decreases s.len(),
{
    if s.len() == 0 {
        seq![Seq::<char>::empty()]
    } else if s[0] == sep {
        seq![Seq::<char>::empty()] + split_spec(s.drop_first(), sep)
    } else {
        let r = split_spec(s.drop_first(), sep);
        seq![seq![s[0]] + r[0]] + r.drop_first()
    }
}

/// A split always yields at least one piece.
pub proof fn lemma_split_spec_len(s: Seq<char>, sep: char)
    ensures
        split_spec(s, sep).len() >= 1,
    decreases s.len(),
{
    if s.len() > 0 {
        lemma_split_spec_len(s.drop_first(), sep);
    }
}

/// Appending one character to `s` extends the last piece of the split,
/// or opens a fresh empty piece when the character is the separator.
pub proof fn lemma_split_spec_push(s: Seq<char>, sep: char, c: char)
    ensures
        split_spec(s, sep).len() >= 1,
        c == sep ==> split_spec(s.push(c), sep) =~~= split_spec(s, sep) + seq![
            Seq::<char>::empty(),
        ],
        c != sep ==> split_spec(s.push(c), sep) =~~= split_spec(s, sep).update(
            split_spec(s, sep).len() - 1,
            split_spec(s, sep).last().push(c),
        ),
    decreases s.len(),
{
    lemma_split_spec_len(s, sep);
    let t = s.push(c);
    assert(t.len() == s.len() + 1);
    if s.len() == 0 {
        assert(t[0] == c);
        assert(t.drop_first() =~= Seq::<char>::empty());
        assert(split_spec(Seq::<char>::empty(), sep) =~~= seq![Seq::<char>::empty()]);
        if c == sep {
            assert(split_spec(t, sep) =~~= seq![Seq::<char>::empty()] + seq![
                Seq::<char>::empty(),
            ]);
        } else {
            assert(split_spec(t, sep) =~~= seq![seq![c]]);
            assert(split_spec(s, sep).update(0, split_spec(s, sep).last().push(c)) =~~= seq![
                seq![c],
            ]);
        }
    } else {
        lemma_split_spec_push(s.drop_first(), sep, c);
        lemma_split_spec_len(s.drop_first(), sep);
        assert(t.drop_first() =~= s.drop_first().push(c));
        assert(t[0] == s[0]);
        let r = split_spec(s.drop_first(), sep);
        let rp = split_spec(t.drop_first(), sep);
        if c == sep {
            assert(rp =~~= r + seq![Seq::<char>::empty()]);
            if s[0] == sep {
                assert(split_spec(t, sep) =~~= seq![Seq::<char>::empty()] + rp);
                assert(split_spec(s, sep) =~~= seq![Seq::<char>::empty()] + r);
            } else {
                assert(rp[0] == r[0]);
                assert(rp.drop_first() =~~= r.drop_first() + seq![Seq::<char>::empty()]);
                assert(split_spec(t, sep) =~~= seq![seq![s[0]] + rp[0]] + rp.drop_first());
                assert(split_spec(s, sep) =~~= seq![seq![s[0]] + r[0]] + r.drop_first());
            }
            assert(split_spec(t, sep) =~~= split_spec(s, sep) + seq![Seq::<char>::empty()]);
        } else {
            assert(rp =~~= r.update(r.len() - 1, r.last().push(c)));
            if s[0] == sep {
                assert(split_spec(t, sep) =~~= seq![Seq::<char>::empty()] + rp);
                assert(split_spec(s, sep) =~~= seq![Seq::<char>::empty()] + r);
                assert(split_spec(t, sep) =~~= split_spec(s, sep).update(
                    split_spec(s, sep).len() - 1,
                    split_spec(s, sep).last().push(c),
                ));
            } else {
                assert(split_spec(t, sep) =~~= seq![seq![s[0]] + rp[0]] + rp.drop_first());
                assert(split_spec(s, sep) =~~= seq![seq![s[0]] + r[0]] + r.drop_first());
                if r.len() == 1 {
                    assert(rp[0] == r[0].push(c));
                    assert(rp.drop_first() =~~= r.drop_first());
                    assert(seq![s[0]] + r[0].push(c) =~= (seq![s[0]] + r[0]).push(c));
                    assert(split_spec(t, sep) =~~= split_spec(s, sep).update(
                        split_spec(s, sep).len() - 1,
                        split_spec(s, sep).last().push(c),
                    ));
                } else {
                    assert(rp[0] == r[0]);
                    assert(rp.drop_first() =~~= r.drop_first().update(
                        r.len() - 2,
                        r.last().push(c),
                    ));
                    assert(split_spec(t, sep) =~~= split_spec(s, sep).update(
                        split_spec(s, sep).len() - 1,
                        split_spec(s, sep).last().push(c),
                    ));
                }
            }
        }
    }
}

/// Splitting `s` on `sep`, decided executably.
pub fn split_str(s: &str, sep: char) -> (r: Vec<String>)
    ensures
        r.deep_view() =~~= split_spec(s@, sep),
        r.len() >= 1,
{
    let n: usize = s.unicode_len();
    let mut i: usize = 0;
    let mut cur: String = String::new();
    let mut res: Vec<String> = Vec::new();
    while i < n
        invariant
            n == s@.len(),
            0 <= i <= n,
            res.deep_view().push(cur@) =~~= split_spec(s@.take(i as int), sep),
        decreases n - i,
    {
        let c: char = s.get_char(i);
        proof {
            assert(s@.take(i + 1) =~= s@.take(i as int).push(s@[i as int]));
            lemma_split_spec_push(s@.take(i as int), sep, c);
        }
        if c == sep {
            res.push(cur);
            cur = String::new();
        } else {
            let piece: &str = s.substring_char(i, i + 1);
            proof {
                assert(piece@ =~= seq![c]);
            }
            cur.append(piece);
        }
        proof {
            assert(res.deep_view().push(cur@) =~~= split_spec(s@.take(i + 1), sep));
        }
        i = i + 1;
    }
    proof {
        assert(s@.take(n as int) =~= s@);
    }
    res.push(cur);
    proof {
        lemma_split_spec_len(s@, sep);
    }
    res
}

/// `s` with leading whitespace removed.
pub open spec fn trim_start_spec(s: Seq<char>) -> Seq<char>
    decreases s.len(),
{
    if s.len() > 0 && is_space(s[0]) {
        trim_start_spec(s.drop_first())
    } else {
        s
    }
}

/// `s` with trailing whitespace removed.
pub open spec fn trim_end_spec(s: Seq<char>) -> Seq<char>
    decreases s.len(),
{
    if s.len() > 0 && is_space(s.last()) {
        trim_end_spec(s.drop_last())
    } else {
        s
    }
}

/// `s` with surrounding whitespace removed.
pub open spec fn trim_spec(s: Seq<char>) -> Seq<char> {
    trim_end_spec(trim_start_spec(s))
}

/// Dropping a whitespace prefix of `a` characters leaves `trim_start_spec`
/// unchanged provided the character at `a`, if any, is not whitespace.
proof fn lemma_trim_start_skip(s: Seq<char>, a: int)
    requires
        0 <= a <= s.len(),
        forall|j: int| 0 <= j < a ==> is_space(s[j]),
        a == s.len() || !is_space(s[a]),
    ensures
        trim_start_spec(s) =~= s.skip(a),
    decreases a,
{
    if a == 0 {
        assert(s.skip(0) =~= s);
    } else {
        lemma_trim_start_skip(s.drop_first(), a - 1);
        assert(s.drop_first().skip(a - 1) =~= s.skip(a));
    }
}

/// Keeping only the first `b` characters leaves `trim_end_spec`
/// unchanged provided everything beyond `b` is whitespace and the
/// character just before `b`, if any, is not.
proof fn lemma_trim_end_take(s: Seq<char>, b: int)
    requires
        0 <= b <= s.len(),
        forall|j: int| b <= j < s.len() ==> is_space(s[j]),
        b == 0 || !is_space(s[b - 1]),
    ensures
        trim_end_spec(s) =~= s.take(b),
    decreases s.len() - b,
{
    if b == s.len() {
        assert(s.take(b) =~= s);
    } else {
        lemma_trim_end_take(s.drop_last(), b);
    }
}

/// Trimming `s`, decided executably.
pub fn trim_str<'a>(s: &'a str) -> (r: &'a str)
    ensures
        r@ == trim_spec(s@),
{
    let n: usize = s.unicode_len();
    let mut a: usize = 0;
    while a < n && is_space_char(s.get_char(a))
        invariant
            n == s@.len(),
            0 <= a <= n,
            forall|j: int| 0 <= j < a ==> is_space(s@[j]),
        decreases n - a,
    {
        a = a + 1;
    }
    proof {
        lemma_trim_start_skip(s@, a as int);
    }
    let mut b: usize = n;
    while b > a && is_space_char(s.get_char(b - 1))
        invariant
            n == s@.len(),
            a <= b <= n,
            trim_start_spec(s@) =~= s@.skip(a as int),
            forall|j: int| 0 <= j < a ==> is_space(s@[j]),
            forall|j: int| b <= j < n ==> is_space(s@[j]),
        decreases b,
    {
        b = b - 1;
    }
    let r: &str = s.substring_char(a, b);
    proof {
        let t = s@.skip(a as int);
        assert(forall|j: int| b - a <= j < t.len() ==> is_space(t[j]));
        if b > a {
            assert(!is_space(t[b - a - 1]));
        }
        lemma_trim_end_take(t, b - a);
        assert(r@ =~= t.take(b - a));
    }
    r
}

/// Executable form of `is_space`.
pub fn is_space_char(c: char) -> (r: bool)
    ensures
        r == is_space(c),
{
    c == ' ' || c == '\t' || c == '\r' || c == '\n'
}

} // verus!

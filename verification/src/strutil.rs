//! String building blocks shared by the fact formatters, the resolver and the
//! compositor: decimal rendering, padding, substring search, splitting and
//! joining, all specified over `Seq<char>` views.

use vstd::prelude::*;

verus! {

/// `n` space characters.
pub open spec fn spaces(n: nat) -> Seq<char>
    decreases n,
{
    if n == 0 {
        Seq::empty()
    } else {
        spaces((n - 1) as nat).push(' ')
    }
}

/// The character for one decimal digit.
pub open spec fn digit_char(d: nat) -> char {
    if d == 0 {
        '0'
    } else if d == 1 {
        '1'
    } else if d == 2 {
        '2'
    } else if d == 3 {
        '3'
    } else if d == 4 {
        '4'
    } else if d == 5 {
        '5'
    } else if d == 6 {
        '6'
    } else if d == 7 {
        '7'
    } else if d == 8 {
        '8'
    } else {
        '9'
    }
}

/// The usual decimal rendering of `n`, without sign or leading zeros.
pub open spec fn dec_str(n: nat) -> Seq<char>
    decreases n,
{
    if n < 10 {
        seq![digit_char(n)]
    } else {
        dec_str(n / 10).push(digit_char(n % 10))
    }
}

/// A string of `n` spaces.
pub fn space_string(n: usize) -> (r: String)
    ensures
        r@ == spaces(n as nat),
{
    let mut s = String::new();
    let mut i: usize = 0;
    while i < n
        invariant
            i <= n,
            s@ == spaces(i as nat),
        decreases n - i,
    {
        s.append(" ");
        proof {
            reveal_strlit(" ");
            assert(s@ =~= spaces((i + 1) as nat));
        }
        i = i + 1;
    }
    s
}

/// The digit character of `d`, as a one-character string slice.
pub fn digit_str(d: u64) -> (r: &'static str)
    requires
        d < 10,
    ensures
        r@ =~= seq![digit_char(d as nat)],
{
    if d == 0 {
        proof { reveal_strlit("0"); }
        "0"
    } else if d == 1 {
        proof { reveal_strlit("1"); }
        "1"
    } else if d == 2 {
        proof { reveal_strlit("2"); }
        "2"
    } else if d == 3 {
        proof { reveal_strlit("3"); }
        "3"
    } else if d == 4 {
        proof { reveal_strlit("4"); }
        "4"
    } else if d == 5 {
        proof { reveal_strlit("5"); }
        "5"
    } else if d == 6 {
        proof { reveal_strlit("6"); }
        "6"
    } else if d == 7 {
        proof { reveal_strlit("7"); }
        "7"
    } else if d == 8 {
        proof { reveal_strlit("8"); }
        "8"
    } else {
        proof { reveal_strlit("9"); }
        "9"
    }
}

/// Decimal rendering of a `u64`.
pub fn u64_dec(n: u64) -> (r: String)
    ensures
        r@ == dec_str(n as nat),
    decreases n,
{
    if n < 10 {
        let mut s = String::new();
        s.append(digit_str(n));
        proof {
            assert(s@ =~= dec_str(n as nat));
        }
        s
    } else {
        let mut s = u64_dec(n / 10);
        s.append(digit_str(n % 10));
        proof {
            assert(s@ =~= dec_str(n as nat));
        }
        s
    }
}

/// Whether two string slices hold the same characters.
pub fn eq_str(a: &str, b: &str) -> (r: bool)
    ensures
        r == (a@ == b@),
{
    let la = a.unicode_len();
    let lb = b.unicode_len();
    if la != lb {
        return false;
    }
    let mut i: usize = 0;
    while i < la
        invariant
            i <= la,
            la == a@.len(),
            la == b@.len(),
            forall|k: int| 0 <= k < i ==> a@[k] == b@[k],
        decreases la - i,
    {
        if a.get_char(i) != b.get_char(i) {
            return false;
        }
        i = i + 1;
    }
    proof {
        assert(a@ =~= b@);
    }
    true
}

/// Whether `needle` occurs contiguously inside `hay`.
pub open spec fn contains_seq(hay: Seq<char>, needle: Seq<char>) -> bool {
    exists|i: int|
        0 <= i && i + needle.len() <= hay.len() && #[trigger] hay.subrange(i, i + needle.len())
            == needle
}

/// Whether `needle` stands at position `i` of `hay`.
fn matches_at(hay: &str, needle: &str, i: usize) -> (r: bool)
    requires
        i + needle@.len() <= hay@.len(),
    ensures
        r == (hay@.subrange(i as int, i + needle@.len()) == needle@),
{
    let lh = hay.unicode_len();
    let ln = needle.unicode_len();
    let mut j: usize = 0;
    while j < ln
        invariant
            lh == hay@.len(),
            i + ln <= lh,
            ln == needle@.len(),
            j <= ln,
            forall|k: int| 0 <= k < j ==> hay@[i + k] == needle@[k],
        decreases ln - j,
    {
        if hay.get_char(i + j) != needle.get_char(j) {
            proof {
                let jj = j as int;
                assert(hay@.subrange(i as int, i + needle@.len())[jj] != needle@[jj]);
            }
            return false;
        }
        j = j + 1;
    }
    proof {
        assert(hay@.subrange(i as int, i + needle@.len()) =~= needle@);
    }
    true
}

/// Whether `needle` occurs contiguously inside `hay`, as `str::contains` reports it.
pub fn contains_str(hay: &str, needle: &str) -> (r: bool)
    ensures
        r == contains_seq(hay@, needle@),
{
    let lh = hay.unicode_len();
    let ln = needle.unicode_len();
    if ln > lh {
        return false;
    }
    if ln == 0 {
        proof {
            assert(hay@.subrange(0, 0 + needle@.len() as int) =~= needle@);
        }
        return true;
    }
    let mut i: usize = 0;
    while i <= lh - ln
        invariant
            0 < ln <= lh,
            lh == hay@.len(),
            ln == needle@.len(),
            i <= lh - ln + 1,
            forall|k: int|
                0 <= k < i ==> #[trigger] hay@.subrange(k, k + needle@.len()) != needle@,
        decreases lh - ln + 1 - i,
    {
        if matches_at(hay, needle, i) {
            return true;
        }
        i = i + 1;
    }
    proof {
        assert forall|k: int| 0 <= k && k + needle@.len() <= hay@.len() implies #[trigger] hay@
            .subrange(k, k + needle@.len()) != needle@ by {
            assert(k < i);
        }
    }
    false
}

/// The character sequences of a sequence of strings.
pub open spec fn views_of(parts: Seq<String>) -> Seq<Seq<char>> {
    Seq::new(parts.len(), |i: int| parts[i]@)
}

/// The parts, joined with one `sep` between each pair of neighbours.
pub open spec fn join_with(parts: Seq<Seq<char>>, sep: char) -> Seq<char>
    decreases parts.len(),
{
    if parts.len() == 0 {
        Seq::empty()
    } else if parts.len() == 1 {
        parts[0]
    } else {
        join_with(parts.drop_last(), sep) + seq![sep] + parts.last()
    }
}

/// Join string parts with a one-character separator, as `[T]::join` does.
pub fn join_strings(parts: &Vec<String>, sep: &str) -> (r: String)
    requires
        sep@.len() == 1,
    ensures
        r@ == join_with(views_of(parts@), sep@[0]),
{
    if parts.len() == 0 {
        let r = String::new();
        proof {
            assert(views_of(parts@).len() == 0);
        }
        return r;
    }
    let mut acc = parts[0].clone();
    let mut i: usize = 1;
    proof {
        assert(views_of(parts@.subrange(0, 1)).len() == 1);
        assert(views_of(parts@.subrange(0, 1))[0] == parts@[0]@);
    }
    while i < parts.len()
        invariant
            1 <= i <= parts@.len(),
            acc@ == join_with(views_of(parts@.subrange(0, i as int)), sep@[0]),
            sep@.len() == 1,
        decreases parts@.len() - i,
    {
        acc.append(sep);
        acc.append(parts[i].as_str());
        proof {
            let prev = views_of(parts@.subrange(0, i as int));
            let next = views_of(parts@.subrange(0, i + 1));
            assert(next.drop_last() =~= prev);
            assert(parts@.subrange(0, i + 1)[i as int] == parts@[i as int]);
            assert(next.last() == parts@[i as int]@);
            assert(join_with(next, sep@[0]) == join_with(prev, sep@[0]) + seq![sep@[0]]
                + parts@[i as int]@);
            assert(seq![sep@[0]] =~= sep@);
            assert(acc@ =~= join_with(prev, sep@[0]) + seq![sep@[0]] + parts@[i as int]@);
        }
        i = i + 1;
    }
    proof {
        assert(parts@.subrange(0, parts@.len() as int) =~= parts@);
    }
    acc
}

/// The parts of `s` between the occurrences of `sep`, in order: what
/// `str::split` yields. An empty string yields one empty part, and every
/// separator opens a fresh part.
pub open spec fn split_spec(s: Seq<char>, sep: char) -> Seq<Seq<char>>
    decreases s.len(),
{
    if s.len() == 0 {
        seq![s]
    } else if s.last() == sep {
        split_spec(s.drop_last(), sep).push(Seq::empty())
    } else {
        let r = split_spec(s.drop_last(), sep);
        r.update(r.len() - 1, r.last().push(s.last()))
    }
}

/// A split yields one part more than the string holds separators.
pub proof fn lemma_split_len(s: Seq<char>, sep: char)
    ensures
        split_spec(s, sep).len() == count_char(s, sep) + 1,
    decreases s.len(),
{
    if s.len() > 0 {
        lemma_split_len(s.drop_last(), sep);
    }
}

/// Split at every occurrence of `sep`, as `str::split` does.
pub fn split_string(s: &str, sep: char) -> (r: Vec<String>)
    ensures
        views_of(r@) == split_spec(s@, sep),
        r@.len() >= 1,
{
    let l = s.unicode_len();
    let mut acc: Vec<String> = Vec::new();
    let mut start: usize = 0;
    let mut i: usize = 0;
    proof {
        assert(views_of(acc@).push(s@.subrange(0, 0)) =~= seq![s@.subrange(0, 0)]);
        assert(split_spec(s@.subrange(0, 0), sep) =~= seq![s@.subrange(0, 0)]) by {
            assert(s@.subrange(0, 0).len() == 0);
        }
    }
    while i < l
        invariant
            l == s@.len(),
            start <= i <= l,
            views_of(acc@).push(s@.subrange(start as int, i as int)) == split_spec(
                s@.subrange(0, i as int),
                sep,
            ),
        decreases l - i,
    {
        let ghost cur = s@.subrange(start as int, i as int);
        let ghost accm = views_of(acc@);
        let ghost prefix = s@.subrange(0, i as int);
        let ghost prefix1 = s@.subrange(0, i + 1);
        proof {
            assert(prefix1.drop_last() =~= prefix);
            assert(prefix1.last() == s@[i as int]);
        }
        if s.get_char(i) == sep {
            let part = String::from_str(s.substring_char(start, i));
            let ghost acc0 = acc@;
            acc.push(part);
            proof {
                assert(views_of(acc@) =~= accm.push(cur)) by {
                    assert(acc@ == acc0.push(part));
                    assert forall|j: int| 0 <= j < acc@.len() implies views_of(acc@)[j]
                        == accm.push(cur)[j] by {
                        assert(views_of(acc@)[j] == acc@[j]@);
                        if j < acc0.len() {
                            assert(acc@[j] == acc0[j]);
                            assert(accm[j] == acc0[j]@);
                        } else {
                            assert(acc@[j] == part);
                        }
                    }
                }
                assert(split_spec(prefix1, sep) == split_spec(prefix, sep).push(Seq::empty()));
                assert(views_of(acc@).push(s@.subrange(i + 1, i + 1)) =~= accm.push(cur).push(
                    Seq::empty(),
                )) by {
                    assert(s@.subrange(i + 1, i + 1) =~= Seq::<char>::empty());
                }
            }
            start = i + 1;
        } else {
            proof {
                let old_split = split_spec(prefix, sep);
                assert(old_split == accm.push(cur));
                assert(split_spec(prefix1, sep) == old_split.update(
                    old_split.len() - 1,
                    old_split.last().push(s@[i as int]),
                ));
                assert(cur.push(s@[i as int]) =~= s@.subrange(start as int, i + 1));
                assert(views_of(acc@).push(s@.subrange(start as int, i + 1)) =~= old_split
                    .update(old_split.len() - 1, cur.push(s@[i as int])));
            }
        }
        i = i + 1;
    }
    let last_part = String::from_str(s.substring_char(start, l));
    let ghost accm = views_of(acc@);
    let ghost acc0 = acc@;
    acc.push(last_part);
    proof {
        assert(views_of(acc@) =~= accm.push(s@.subrange(start as int, l as int))) by {
            assert(acc@ == acc0.push(last_part));
            assert forall|j: int| 0 <= j < acc@.len() implies views_of(acc@)[j] == accm.push(
                s@.subrange(start as int, l as int),
            )[j] by {
                assert(views_of(acc@)[j] == acc@[j]@);
                if j < acc0.len() {
                    assert(acc@[j] == acc0[j]);
                    assert(accm[j] == acc0[j]@);
                } else {
                    assert(acc@[j] == last_part);
                }
            }
        }
        assert(s@.subrange(0, l as int) =~= s@);
    }
    acc
}

/// What is left after removing every leading `c`.
pub open spec fn drop_leading(s: Seq<char>, c: char) -> Seq<char>
    decreases s.len(),
{
    if s.len() > 0 && s[0] == c {
        drop_leading(s.drop_first(), c)
    } else {
        s
    }
}

/// What is left after removing every trailing `c`.
pub open spec fn drop_trailing(s: Seq<char>, c: char) -> Seq<char>
    decreases s.len(),
{
    if s.len() > 0 && s.last() == c {
        drop_trailing(s.drop_last(), c)
    } else {
        s
    }
}

/// What is left after removing every leading and trailing `c`.
pub open spec fn trimmed(s: Seq<char>, c: char) -> Seq<char> {
    drop_trailing(drop_leading(s, c), c)
}

/// Remove leading and trailing occurrences of `c`, as `str::trim_matches` does.
pub fn trim_char(s: &str, c: char) -> (r: String)
    ensures
        r@ == trimmed(s@, c),
{
    let l = s.unicode_len();
    let mut a: usize = 0;
    proof {
        assert(s@.subrange(0, l as int) =~= s@);
    }
    while a < l && s.get_char(a) == c
        invariant
            a <= l,
            l == s@.len(),
            drop_leading(s@, c) == drop_leading(s@.subrange(a as int, l as int), c),
        decreases l - a,
    {
        proof {
            assert(s@.subrange(a as int, l as int).drop_first() =~= s@.subrange(
                a + 1,
                l as int,
            ));
        }
        a = a + 1;
    }
    proof {
        if a < l {
            assert(drop_leading(s@.subrange(a as int, l as int), c) == s@.subrange(
                a as int,
                l as int,
            ));
        } else {
            assert(s@.subrange(a as int, l as int) =~= Seq::<char>::empty());
        }
        assert(trimmed(s@, c) == drop_trailing(s@.subrange(a as int, l as int), c));
    }
    let mut b: usize = l;
    while b > a && s.get_char(b - 1) == c
        invariant
            a <= b <= l,
            l == s@.len(),
            trimmed(s@, c) == drop_trailing(s@.subrange(a as int, b as int), c),
        decreases b,
    {
        proof {
            assert(s@.subrange(a as int, b as int).last() == c);
            assert(s@.subrange(a as int, b as int).drop_last() =~= s@.subrange(
                a as int,
                b - 1,
            ));
        }
        b = b - 1;
    }
    proof {
        if b > a {
            assert(drop_trailing(s@.subrange(a as int, b as int), c) == s@.subrange(
                a as int,
                b as int,
            ));
        } else {
            assert(s@.subrange(a as int, b as int) =~= Seq::<char>::empty());
        }
    }
    String::from_str(s.substring_char(a, b))
}

/// The string with every occurrence of `c` removed.
pub open spec fn removed(s: Seq<char>, c: char) -> Seq<char>
    decreases s.len(),
{
    if s.len() == 0 {
        s
    } else if s.last() == c {
        removed(s.drop_last(), c)
    } else {
        removed(s.drop_last(), c).push(s.last())
    }
}

/// Remove every occurrence of `c`, as `str::replace(c, "")` does.
pub fn remove_char(s: &str, c: char) -> (r: String)
    ensures
        r@ == removed(s@, c),
{
    let l = s.unicode_len();
    let mut out = String::new();
    let mut i: usize = 0;
    proof {
        assert(s@.subrange(0, 0) =~= Seq::<char>::empty());
    }
    while i < l
        invariant
            i <= l,
            l == s@.len(),
            out@ == removed(s@.subrange(0, i as int), c),
        decreases l - i,
    {
        proof {
            assert(s@.subrange(0, i + 1).drop_last() =~= s@.subrange(0, i as int));
            assert(s@.subrange(0, i + 1).last() == s@[i as int]);
        }
        if s.get_char(i) != c {
            out.append(s.substring_char(i, i + 1));
            proof {
                assert(s@.subrange(i as int, i + 1) =~= seq![s@[i as int]]);
                assert(out@ =~= removed(s@.subrange(0, i as int), c).push(s@[i as int]));
            }
        }
        i = i + 1;
    }
    proof {
        assert(s@.subrange(0, l as int) =~= s@);
    }
    out
}

/// How often `c` occurs in `s`.
pub open spec fn count_char(s: Seq<char>, c: char) -> nat
    decreases s.len(),
{
    if s.len() == 0 {
        0
    } else if s.last() == c {
        count_char(s.drop_last(), c) + 1
    } else {
        count_char(s.drop_last(), c)
    }
}

/// What follows the last occurrence of `c`, or nothing when `c` does not occur.
pub open spec fn after_last(s: Seq<char>, c: char) -> Option<Seq<char>>
    decreases s.len(),
{
    if s.len() == 0 {
        None
    } else if s.last() == c {
        Some(Seq::empty())
    } else {
        match after_last(s.drop_last(), c) {
            Some(t) => Some(t.push(s.last())),
            None => None,
        }
    }
}

/// When the suffix from `b` on is free of `c`, the text after the last `c`
/// is found in the prefix, with that suffix appended.
proof fn lemma_after_last_suffix(s: Seq<char>, c: char, b: int)
    requires
        0 <= b <= s.len(),
        forall|k: int| b <= k < s.len() ==> s[k] != c,
    ensures
        after_last(s, c) == match after_last(s.subrange(0, b), c) {
            Some(t) => Some(t + s.subrange(b, s.len() as int)),
            None => None::<Seq<char>>,
        },
    decreases s.len() - b,
{
    let l = s.len() as int;
    if b == l {
        assert(s.subrange(0, b) =~= s);
        assert(s.subrange(b, l) =~= Seq::<char>::empty());
        match after_last(s, c) {
            Some(t) => {
                assert(t + s.subrange(b, l) =~= t);
            },
            None => {},
        }
    } else {
        assert(s[l - 1] != c);
        assert(s.drop_last() =~= s.subrange(0, l - 1));
        lemma_after_last_suffix(s.subrange(0, l - 1), c, b);
        assert(s.subrange(0, l - 1).subrange(0, b) =~= s.subrange(0, b));
        match after_last(s.subrange(0, b), c) {
            Some(t) => {
                assert(s.subrange(0, l - 1).subrange(b, l - 1) =~= s.subrange(b, l - 1));
                assert(after_last(s.subrange(0, l - 1), c) == Some(
                    t + s.subrange(b, l - 1),
                ));
                assert(after_last(s, c) == Some((t + s.subrange(b, l - 1)).push(s.last())));
                assert((t + s.subrange(b, l - 1)).push(s.last()) =~= t + s.subrange(b, l));
            },
            None => {
                assert(s.subrange(0, l - 1).subrange(b, l - 1) =~= s.subrange(b, l - 1));
                assert(after_last(s.subrange(0, l - 1), c) is None);
            },
        }
    }
}

/// The text after the last occurrence of `c`, as the second half of
/// `str::rsplit_once` reports it.
pub fn after_last_str(s: &str, c: char) -> (r: Option<String>)
    ensures
        match r {
            Some(t) => after_last(s@, c) == Some(t@),
            None => after_last(s@, c) is None,
        },
{
    let l = s.unicode_len();
    let mut b: usize = l;
    while b > 0
        invariant
            b <= l,
            l == s@.len(),
            forall|k: int| b <= k < l ==> s@[k] != c,
        decreases b,
    {
        if s.get_char(b - 1) == c {
            let tail = String::from_str(s.substring_char(b, l));
            proof {
                lemma_after_last_suffix(s@, c, b as int);
                assert(s@.subrange(0, b as int).last() == c);
                assert(after_last(s@.subrange(0, b as int), c) == Some(Seq::<char>::empty()));
                assert(Seq::<char>::empty() + s@.subrange(b as int, l as int) =~= s@.subrange(
                    b as int,
                    l as int,
                ));
            }
            return Some(tail);
        }
        b = b - 1;
    }
    proof {
        lemma_after_last_suffix(s@, c, 0);
        assert(s@.subrange(0, 0) =~= Seq::<char>::empty());
    }
    None
}

} // verus!

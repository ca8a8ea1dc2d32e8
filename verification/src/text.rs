//! Text building blocks: decimal numbers, substring search, path segments.
use vstd::prelude::*;
use vstd::string::*;

verus! {

/// `String::push` of std. Trusted: the text afterwards is the text before
/// with `ch` at its end.
pub assume_specification[ String::push ](s: &mut String, ch: char)
    ensures
        final(s)@ == old(s)@.push(ch),
;

/// The character of a decimal digit.
pub open spec fn digit_char(d: nat) -> char
    recommends
        d < 10,
{
    (('0' as u8) + d) as char
}

/// A natural number in decimal, without leading zeros.
pub open spec fn decimal(n: nat) -> Seq<char>
    decreases n,
{
    if n < 10 {
        seq![digit_char(n)]
    } else {
        decimal(n / 10).push(digit_char(n % 10))
    }
}

/// A decimal numeral is not empty, holds digits only, and has two or more
/// of them from ten on.
pub proof fn lemma_decimal_digits(n: nat)
    ensures
        decimal(n).len() >= 1,
        n >= 10 ==> decimal(n).len() >= 2,
        forall|i: int| 0 <= i < decimal(n).len() ==> '0' <= #[trigger] decimal(n)[i] <= '9',
    decreases n,
{
    if n >= 10 {
        lemma_decimal_digits(n / 10);
    }
}

/// Two numbers with the same numeral are the same number.
pub proof fn lemma_decimal_injective(a: nat, b: nat)
    requires
        decimal(a) == decimal(b),
    ensures
        a == b,
    decreases a,
{
    lemma_decimal_digits(a);
    lemma_decimal_digits(b);
    if a >= 10 && b >= 10 {
        assert(decimal(a).drop_last() =~= decimal(a / 10));
        assert(decimal(b).drop_last() =~= decimal(b / 10));
        assert(decimal(a).last() == digit_char(a % 10));
        assert(decimal(b).last() == digit_char(b % 10));
        lemma_decimal_injective(a / 10, b / 10);
    } else if a < 10 && b < 10 {
        assert(decimal(a)[0] == digit_char(a));
        assert(decimal(b)[0] == digit_char(b));
    }
}

/// Two texts that agree, each made of a part free of `mark`, then `mark`,
/// then a rest, agree part by part.
pub proof fn lemma_split_at_mark(
    head_a: Seq<char>,
    rest_a: Seq<char>,
    head_b: Seq<char>,
    rest_b: Seq<char>,
    mark: char,
)
    requires
        head_a.push(mark) + rest_a == head_b.push(mark) + rest_b,
        forall|i: int| 0 <= i < head_a.len() ==> head_a[i] != mark,
        forall|i: int| 0 <= i < head_b.len() ==> head_b[i] != mark,
    ensures
        head_a == head_b,
        rest_a == rest_b,
{
    let whole_a = head_a.push(mark) + rest_a;
    let whole_b = head_b.push(mark) + rest_b;
    let la = head_a.len() as int;
    let lb = head_b.len() as int;
    assert(whole_a[la] == mark);
    assert(whole_b[lb] == mark);
    if la < lb {
        assert(whole_b[la] == head_b[la]);
    }
    if lb < la {
        assert(whole_a[lb] == head_a[lb]);
    }
    assert(la == lb);
    assert forall|i: int| 0 <= i < la implies head_a[i] == head_b[i] by {
        assert(whole_a[i] == head_a[i]);
        assert(whole_b[i] == head_b[i]);
    }
    assert(head_a =~= head_b);
    assert(whole_a.len() == whole_b.len());
    assert forall|i: int| 0 <= i < rest_a.len() implies rest_a[i] == rest_b[i] by {
        assert(whole_a[la + 1 + i] == rest_a[i]);
        assert(whole_b[lb + 1 + i] == rest_b[i]);
    }
    assert(rest_a =~= rest_b);
}

/// Appends `n` in decimal to `out`.
pub fn push_decimal(out: &mut String, n: usize)
    ensures
        final(out)@ == old(out)@ + decimal(n as nat),
    decreases n,
{
    if n >= 10 {
        push_decimal(out, n / 10);
    }
    let d: u8 = (n % 10) as u8;
    out.push((48u8 + d) as char);
    proof {
        let prefix = old(out)@;
        if n >= 10 {
            assert(prefix + decimal(n as nat) =~= (prefix + decimal((n / 10) as nat)).push(
                digit_char((n % 10) as nat),
            ));
        } else {
            assert(prefix + decimal(n as nat) =~= prefix.push(digit_char(n as nat)));
        }
    }
}

/// `n` in decimal.
pub fn decimal_text(n: usize) -> (text: String)
    ensures
        text@ == decimal(n as nat),
{
    let mut text = String::new();
    push_decimal(&mut text, n);
    assert(Seq::<char>::empty() + decimal(n as nat) =~= decimal(n as nat));
    text
}

/// The characters of `s`, in order.
pub fn chars_of(s: &str) -> (chars: Vec<char>)
    ensures
        chars@ == s@,
{
    let n: usize = s.unicode_len();
    let mut chars: Vec<char> = Vec::new();
    let mut i: usize = 0;
    while i < n
        invariant
            n == s@.len(),
            i <= n,
            chars@ == s@.subrange(0, i as int),
        decreases n - i,
    {
        chars.push(s.get_char(i));
        i += 1;
        assert(chars@ =~= s@.subrange(0, i as int));
    }
    assert(s@.subrange(0, n as int) =~= s@);
    chars
}

/// The string made of `chars[from..to]`.
pub(crate) fn text_of(chars: &Vec<char>, from: usize, to: usize) -> (text: String)
    requires
        from <= to <= chars.len(),
    ensures
        text@ == chars@.subrange(from as int, to as int),
{
    let mut text = String::new();
    let mut i: usize = from;
    while i < to
        invariant
            from <= i <= to <= chars.len(),
            text@ == chars@.subrange(from as int, i as int),
        decreases to - i,
    {
        text.push(chars[i]);
        i += 1;
        assert(text@ =~= chars@.subrange(from as int, i as int));
    }
    text
}

/// `needle` stands in `hay` at position `at`.
pub open spec fn occurs_at(hay: Seq<char>, needle: Seq<char>, at: int) -> bool {
    &&& 0 <= at
    &&& at + needle.len() <= hay.len()
    &&& hay.subrange(at, at + needle.len()) == needle
}

/// `needle` stands somewhere in `hay`.
pub open spec fn contains_text(hay: Seq<char>, needle: Seq<char>) -> bool {
    exists|at: int| occurs_at(hay, needle, at)
}

fn matches_at(hay: &Vec<char>, needle: &Vec<char>, at: usize) -> (found: bool)
    requires
        at + needle.len() <= hay.len(),
    ensures
        found == occurs_at(hay@, needle@, at as int),
{
    let mut k: usize = 0;
    while k < needle.len()
        invariant
            at + needle.len() <= hay.len(),
            k <= needle.len(),
            hay@.subrange(at as int, at + k) == needle@.subrange(0, k as int),
        decreases needle.len() - k,
    {
        if hay[at + k] != needle[k] {
            proof {
                let window = hay@.subrange(at as int, at + needle.len());
                assert(window[k as int] != needle@[k as int]);
            }
            return false;
        }
        k += 1;
        assert(hay@.subrange(at as int, at + k) =~= needle@.subrange(0, k as int)) by {
            let before = hay@.subrange(at as int, at + k - 1);
            assert(before == needle@.subrange(0, k - 1));
            assert(hay@.subrange(at as int, at + k) =~= before.push(hay@[at + k - 1]));
            assert(needle@.subrange(0, k as int) =~= needle@.subrange(0, k - 1).push(
                needle@[k - 1],
            ));
        }
    }
    assert(needle@.subrange(0, k as int) =~= needle@);
    true
}

/// Whether `needle` stands somewhere in `hay`.
pub fn contains(hay: &str, needle: &str) -> (found: bool)
    ensures
        found == contains_text(hay@, needle@),
{
    let h = chars_of(hay);
    let n = chars_of(needle);
    if n.len() > h.len() {
        return false;
    }
    let last: usize = h.len() - n.len();
    let mut at: usize = 0;
    loop
        invariant
            h@ == hay@,
            n@ == needle@,
            last == h.len() - n.len(),
            at <= last,
            forall|j: int| 0 <= j < at ==> !occurs_at(hay@, needle@, j),
        decreases last - at,
    {
        if matches_at(&h, &n, at) {
            return true;
        }
        if at == last {
            return false;
        }
        at += 1;
    }
}

/// What follows the last `/` of `path`; all of `path` where it has none.
pub open spec fn last_segment(path: Seq<char>) -> Seq<char>
    decreases path.len(),
{
    if path.len() == 0 || path.last() == '/' {
        Seq::empty()
    } else {
        last_segment(path.drop_last()).push(path.last())
    }
}

/// A tail of `path` without `/`, which begins the text or follows a `/`,
/// is the last segment.
pub proof fn lemma_last_segment(path: Seq<char>, start: int)
    requires
        0 <= start <= path.len(),
        start == 0 || path[start - 1] == '/',
        forall|j: int| start <= j < path.len() ==> path[j] != '/',
    ensures
        last_segment(path) == path.skip(start),
    decreases path.len(),
{
    if path.len() == start {
        assert(path.skip(start) =~= Seq::<char>::empty());
    } else {
        let shorter = path.drop_last();
        lemma_last_segment(shorter, start);
        assert(path.skip(start) =~= shorter.skip(start).push(path.last()));
    }
}

/// The last segment of `path`.
pub fn last_segment_of(path: &str) -> (segment: String)
    ensures
        segment@ == last_segment(path@),
{
    let chars = chars_of(path);
    let mut start: usize = chars.len();
    while start > 0 && chars[start - 1] != '/'
        invariant
            start <= chars.len(),
            forall|j: int| start <= j < chars.len() ==> chars@[j] != '/',
        decreases start,
    {
        start -= 1;
    }
    proof {
        lemma_last_segment(chars@, start as int);
        assert(chars@.skip(start as int) =~= chars@.subrange(start as int, chars.len() as int));
    }
    text_of(&chars, start, chars.len())
}

/// `text` without the occurrences of `pattern`, taken from the left and
/// not overlapping. An empty pattern removes nothing.
pub open spec fn without(text: Seq<char>, pattern: Seq<char>) -> Seq<char>
    decreases text.len(),
{
    if pattern.len() == 0 || text.len() < pattern.len() {
        text
    } else if occurs_at(text, pattern, 0) {
        without(text.skip(pattern.len() as int), pattern)
    } else {
        seq![text[0]] + without(text.skip(1), pattern)
    }
}

/// Removes the occurrences of `pattern` from `text`.
pub fn remove_all(text: &str, pattern: &str) -> (rest: String)
    ensures
        rest@ == without(text@, pattern@),
{
    let chars = chars_of(text);
    let pat = chars_of(pattern);
    let mut rest = String::new();
    if pat.len() == 0 {
        return text_of(&chars, 0, chars.len());
    }
    let mut i: usize = 0;
    assert(text@.skip(0) =~= text@);
    assert(rest@ + without(text@, pattern@) =~= without(text@, pattern@));
    while i < chars.len() && chars.len() - i >= pat.len()
        invariant
            chars@ == text@,
            pat@ == pattern@,
            pat.len() > 0,
            i <= chars.len(),
            rest@ + without(text@.skip(i as int), pattern@) == without(text@, pattern@),
        decreases chars.len() - i,
    {
        let ghost tail = text@.skip(i as int);
        let found = matches_at(&chars, &pat, i);
        proof {
            assert(tail.subrange(0, pat.len() as int) =~= text@.subrange(
                i as int,
                i + pat.len(),
            ));
        }
        if found {
            i += pat.len();
            assert(tail.skip(pat.len() as int) =~= text@.skip(i as int));
        } else {
            rest.push(chars[i]);
            i += 1;
            assert(tail.skip(1) =~= text@.skip(i as int));
            assert(rest@ + without(text@.skip(i as int), pattern@) =~= rest@.drop_last() + (
                seq![tail[0]] + without(tail.skip(1), pattern@)
            ));
        }
    }
    let ghost done = rest@;
    let ghost tail = text@.skip(i as int);
    assert(without(tail, pattern@) == tail);
    let mut j: usize = i;
    while j < chars.len()
        invariant
            chars@ == text@,
            i <= j <= chars.len(),
            rest@ == done + text@.subrange(i as int, j as int),
        decreases chars.len() - j,
    {
        rest.push(chars[j]);
        j += 1;
        assert(rest@ =~= done + text@.subrange(i as int, j as int));
    }
    assert(text@.subrange(i as int, j as int) =~= tail);
    rest
}

} // verus!

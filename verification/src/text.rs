use vstd::prelude::*;
use vstd::std_specs::iter::IteratorSpec;

verus! {

broadcast use vstd::string::next_postcondition, vstd::string::axiom_spec_iter;

/// An ASCII decimal digit.
pub open spec fn is_digit(c: char) -> bool {
    '0' <= c && c <= '9'
}

pub open spec fn digit_val(c: char) -> int {
    c as int - '0' as int
}

pub fn check_digit(c: char) -> (r: bool)
    ensures
        r == is_digit(c),
{
    '0' <= c && c <= '9'
}

/// The character for a single decimal digit value.
pub open spec fn digit_char(d: int) -> char {
    (('0' as int) + d) as char
}

pub fn to_digit_char(d: u64) -> (c: char)
    requires
        d < 10,
    ensures
        c == digit_char(d as int),
{
    (48u8 + (d as u8)) as char
}

/// The usual decimal rendering of a natural number, most significant digit first.
pub open spec fn dec_digits(n: nat) -> Seq<char>
    decreases n,
{
    if n < 10 {
        seq![digit_char(n as int)]
    } else {
        dec_digits(n / 10).push(digit_char((n % 10) as int))
    }
}

fn push_dec_digits(n: u64, v: &mut Vec<char>)
    ensures
        final(v)@ == old(v)@ + dec_digits(n as nat),
    decreases n,
{
    if n < 10 {
        v.push(to_digit_char(n));
        proof {
            assert(v@ =~= old(v)@ + dec_digits(n as nat));
        }
    } else {
        push_dec_digits(n / 10, v);
        v.push(to_digit_char(n % 10));
        proof {
            assert(dec_digits(n as nat) == dec_digits(n as nat / 10).push(
                digit_char((n as nat % 10) as int),
            ));
            assert(v@ =~= old(v)@ + dec_digits(n as nat));
        }
    }
}

pub fn u64_to_chars(n: u64) -> (v: Vec<char>)
    ensures
        v@ == dec_digits(n as nat),
{
    let mut v: Vec<char> = Vec::new();
    push_dec_digits(n, &mut v);
    proof {
        assert(v@ =~= dec_digits(n as nat));
    }
    v
}

/// The value of a string of decimal digits.
pub open spec fn dec_val(s: Seq<char>) -> nat
    decreases s.len(),
{
    if s.len() == 0 {
        0
    } else {
        dec_val(s.drop_last()) * 10 + (if is_digit(s.last()) {
            digit_val(s.last())
        } else {
            0
        }) as nat
    }
}

/// How many leading characters of `s` satisfy `f`.
pub open spec fn count_while(s: Seq<char>, f: spec_fn(char) -> bool) -> int
    decreases s.len(),
{
    if s.len() > 0 && f(s[0]) {
        1 + count_while(s.drop_first(), f)
    } else {
        0
    }
}

pub proof fn lemma_count_while_bounds(s: Seq<char>, f: spec_fn(char) -> bool)
    ensures
        0 <= count_while(s, f) <= s.len(),
        forall|i: int| 0 <= i < count_while(s, f) ==> f(s[i]),
        count_while(s, f) < s.len() ==> !f(s[count_while(s, f)]),
    decreases s.len(),
{
    if s.len() > 0 && f(s[0]) {
        lemma_count_while_bounds(s.drop_first(), f);
        assert forall|i: int| 0 <= i < count_while(s, f) implies f(s[i]) by {
            if i > 0 {
                assert(f(s.drop_first()[i - 1]));
            }
        }
    }
}

/// ASCII whitespace, the kind that pads table cells.
pub open spec fn is_space(c: char) -> bool {
    c == ' ' || c == '\t' || c == '\r' || c == '\n'
}

pub fn check_space(c: char) -> (r: bool)
    ensures
        r == is_space(c),
{
    c == ' ' || c == '\t' || c == '\r' || c == '\n'
}

pub open spec fn trim_front(s: Seq<char>) -> Seq<char>
    decreases s.len(),
{
    if s.len() > 0 && is_space(s[0]) {
        trim_front(s.drop_first())
    } else {
        s
    }
}

pub open spec fn trim_back(s: Seq<char>) -> Seq<char>
    decreases s.len(),
{
    if s.len() > 0 && is_space(s.last()) {
        trim_back(s.drop_last())
    } else {
        s
    }
}

/// `s` with ASCII whitespace removed from both ends.
pub open spec fn trim_spec(s: Seq<char>) -> Seq<char> {
    trim_back(trim_front(s))
}

proof fn lemma_trim_front_skip(s: Seq<char>, k: int)
    requires
        0 <= k <= s.len(),
        forall|i: int| 0 <= i < k ==> is_space(s[i]),
        k < s.len() ==> !is_space(s[k]),
    ensures
        trim_front(s) == s.skip(k),
    decreases k,
{
    if k == 0 {
        assert(s.skip(0) =~= s);
    } else {
        assert(is_space(s[0]));
        lemma_trim_front_skip(s.drop_first(), k - 1);
        assert(s.drop_first().skip(k - 1) =~= s.skip(k));
    }
}

proof fn lemma_trim_back_take(s: Seq<char>, k: int)
    requires
        0 <= k <= s.len(),
        forall|i: int| k <= i < s.len() ==> is_space(s[i]),
        k > 0 ==> !is_space(s[k - 1]),
    ensures
        trim_back(s) == s.take(k),
    decreases s.len() - k,
{
    if k == s.len() {
        if s.len() > 0 && is_space(s.last()) {
            lemma_trim_back_take(s.drop_last(), k - 1);
            assert(false);
        } else {
            assert(s.take(k) =~= s);
        }
    } else {
        assert(is_space(s.last()));
        lemma_trim_back_take(s.drop_last(), k);
        assert(s.drop_last().take(k) =~= s.take(k));
    }
}

/// Remove ASCII whitespace from both ends of a character vector.
pub fn trim_chars(v: &Vec<char>) -> (r: Vec<char>)
    ensures
        r@ == trim_spec(v@),
{
    let mut lo: usize = 0;
    while lo < v.len() && check_space(v[lo])
        invariant
            0 <= lo <= v@.len(),
            forall|i: int| 0 <= i < lo ==> is_space(v@[i]),
        decreases v@.len() - lo,
    {
        lo = lo + 1;
    }
    proof {
        lemma_trim_front_skip(v@, lo as int);
    }
    let mut hi: usize = v.len();
    while hi > lo && check_space(v[hi - 1])
        invariant
            lo <= hi <= v@.len(),
            forall|i: int| 0 <= i < lo ==> is_space(v@[i]),
            forall|i: int| hi <= i < v@.len() ==> is_space(v@[i]),
        decreases hi,
    {
        hi = hi - 1;
    }
    let mut r: Vec<char> = Vec::new();
    let mut i: usize = lo;
    while i < hi
        invariant
            lo <= i <= hi <= v@.len(),
            r@ =~= v@.subrange(lo as int, i as int),
        decreases hi - i,
    {
        r.push(v[i]);
        i = i + 1;
    }
    proof {
        let front = v@.skip(lo as int);
        if hi > lo {
            assert(!is_space(v@[hi - 1]));
        }
        assert forall|i2: int| hi - lo <= i2 < front.len() implies is_space(front[i2]) by {
            assert(front[i2] == v@[i2 + lo]);
        }
        if hi - lo > 0 {
            assert(front[hi - lo - 1] == v@[hi as int - 1]);
        }
        lemma_trim_back_take(front, hi - lo as int);
        assert(front.take(hi - lo as int) =~= v@.subrange(lo as int, hi as int));
        assert(r@ =~= trim_spec(v@));
    }
    r
}

/// The characters of a string slice, in order, as a vector.
pub fn chars_of_str(s: &str) -> (v: Vec<char>)
    ensures
        v@ == s@,
{
    let mut it = s.chars();
    let mut v: Vec<char> = Vec::new();
    loop
        invariant_except_break
            it.obeys_prophetic_iter_laws(),
            v@ + it.remaining() == s@,
        ensures
            v@ == s@,
        decreases s@.len() - v@.len(),
    {
        match it.next() {
            Some(c) => {
                v.push(c);
                proof {
                    assert(v@ + it.remaining() =~= s@);
                }
            },
            None => {
                proof {
                    assert(v@ =~= s@);
                }
                break ;
            },
        }
    }
    v
}

/// Relies on `String`'s `FromIterator` impl: collecting characters yields the
/// string of exactly those characters in order.
#[verifier::external_body]
pub fn string_of_chars(v: &Vec<char>) -> (s: String)
    ensures
        s@ == v@,
{
    v.iter().collect()
}

} // verus!

verus! {

/// `needle` occurs contiguously somewhere in `hay`.
pub open spec fn contains_seq(hay: Seq<char>, needle: Seq<char>) -> bool {
    exists|i: int|
        0 <= i && i + needle.len() <= hay.len() && #[trigger] hay.subrange(i, i + needle.len())
            == needle
}

fn match_at(hay: &Vec<char>, needle: &Vec<char>, i: usize) -> (r: bool)
    requires
        i + needle@.len() <= hay@.len(),
    ensures
        r == (hay@.subrange(i as int, i as int + needle@.len()) == needle@),
{
    let hay_len = hay.len();
    let needle_len = needle.len();
    let mut j: usize = 0;
    while j < needle_len
        invariant
            hay_len == hay@.len(),
            needle_len == needle@.len(),
            i + needle@.len() <= hay@.len(),
            j <= needle@.len(),
            forall|t: int| 0 <= t < j ==> hay@[i + t] == needle@[t],
        decreases needle@.len() - j,
    {
        if hay[i + j] != needle[j] {
            proof {
                assert(hay@.subrange(i as int, i as int + needle@.len())[j as int] == hay@[i + j]);
            }
            return false;
        }
        j = j + 1;
    }
    proof {
        assert(hay@.subrange(i as int, i as int + needle@.len()) =~= needle@);
    }
    true
}

/// Substring search over character vectors.
pub fn contains_sub(hay: &Vec<char>, needle: &Vec<char>) -> (r: bool)
    ensures
        r == contains_seq(hay@, needle@),
{
    if needle.len() > hay.len() {
        return false;
    }
    if needle.len() == 0 {
        proof {
            assert(hay@.subrange(0, 0 + needle@.len() as int) =~= needle@);
        }
        return true;
    }
    let hay_len = hay.len();
    let last = hay_len - needle.len();
    let mut i: usize = 0;
    while i <= last
        invariant
            hay_len == hay@.len(),
            1 <= needle@.len() <= hay@.len(),
            last == hay@.len() - needle@.len(),
            last < hay@.len(),
            forall|k: int|
                0 <= k < i ==> #[trigger] hay@.subrange(k, k + needle@.len()) != needle@,
        decreases last - i + 1,
    {
        if match_at(hay, needle, i) {
            return true;
        }
        i = i + 1;
    }
    false
}

/// Whether a single character occurs in `hay`.
pub fn contains_char(hay: &Vec<char>, c: char) -> (r: bool)
    ensures
        r == hay@.contains(c),
{
    let mut i: usize = 0;
    while i < hay.len()
        invariant
            i <= hay@.len(),
            forall|k: int| 0 <= k < i ==> hay@[k] != c,
        decreases hay@.len() - i,
    {
        if hay[i] == c {
            return true;
        }
        i = i + 1;
    }
    proof {
        assert(!hay@.contains(c));
    }
    false
}

/// Split on a separator character; like the standard split, the result always
/// has one piece more than there are separators.
pub open spec fn split_on(s: Seq<char>, sep: char) -> Seq<Seq<char>>
    decreases s.len(),
{
    if s.len() == 0 {
        seq![Seq::<char>::empty()]
    } else if s[0] == sep {
        seq![Seq::<char>::empty()] + split_on(s.drop_first(), sep)
    } else {
        let rest = split_on(s.drop_first(), sep);
        seq![seq![s[0]] + rest[0]] + rest.skip(1)
    }
}

pub proof fn lemma_split_on_len(s: Seq<char>, sep: char)
    ensures
        split_on(s, sep).len() >= 1,
    decreases s.len(),
{
    if s.len() > 0 {
        lemma_split_on_len(s.drop_first(), sep);
    }
}

pub proof fn lemma_split_on_nosep(a: Seq<char>, sep: char)
    requires
        !a.contains(sep),
    ensures
        split_on(a, sep) == seq![a],
    decreases a.len(),
{
    if a.len() == 0 {
        assert(split_on(a, sep) =~~= seq![a]);
    } else {
        assert(a[0] != sep);
        assert forall|i: int| 0 <= i < a.drop_first().len() implies a.drop_first()[i] != sep by {
            assert(a.drop_first()[i] == a[i + 1]);
        }
        assert(!a.drop_first().contains(sep));
        lemma_split_on_nosep(a.drop_first(), sep);
        assert(seq![a[0]] + a.drop_first() =~= a);
        assert(seq![a.drop_first()].skip(1) =~= Seq::<Seq<char>>::empty());
        assert(split_on(a, sep) =~~= seq![a]);
    }
}

pub proof fn lemma_split_on_prefix(a: Seq<char>, rest: Seq<char>, sep: char)
    requires
        !a.contains(sep),
    ensures
        split_on(a + seq![sep] + rest, sep) == seq![a] + split_on(rest, sep),
    decreases a.len(),
{
    let s = a + seq![sep] + rest;
    if a.len() == 0 {
        assert(s[0] == sep);
        assert(s.drop_first() =~= rest);
        assert(split_on(s, sep) =~~= seq![a] + split_on(rest, sep));
    } else {
        assert(s[0] == a[0]);
        assert(a[0] != sep);
        assert forall|i: int| 0 <= i < a.drop_first().len() implies a.drop_first()[i] != sep by {
            assert(a.drop_first()[i] == a[i + 1]);
        }
        assert(!a.drop_first().contains(sep));
        lemma_split_on_prefix(a.drop_first(), rest, sep);
        assert(s.drop_first() =~= a.drop_first() + seq![sep] + rest);
        let r = split_on(s.drop_first(), sep);
        assert(r == seq![a.drop_first()] + split_on(rest, sep));
        lemma_split_on_len(rest, sep);
        assert(r[0] == a.drop_first());
        assert(seq![s[0]] + r[0] =~= a);
        assert(r.skip(1) =~= split_on(rest, sep));
        assert(split_on(s, sep) =~~= seq![a] + split_on(rest, sep));
    }
}

/// Split a character vector on a separator character.
pub fn split_chars(v: &Vec<char>, sep: char) -> (parts: Vec<Vec<char>>)
    ensures
        parts.deep_view() == split_on(v@, sep),
{
    let mut parts: Vec<Vec<char>> = Vec::new();
    let mut cur: Vec<char> = Vec::new();
    let mut i: usize = 0;
    proof {
        assert(cur@ + v@.skip(0) =~= v@);
        assert(parts.deep_view() + split_on(cur@ + v@.skip(0), sep) =~~= split_on(v@, sep));
    }
    while i < v.len()
        invariant
            i <= v@.len(),
            !cur@.contains(sep),
            split_on(v@, sep) == parts.deep_view() + split_on(cur@ + v@.skip(i as int), sep),
        decreases v@.len() - i,
    {
        let c = v[i];
        if c == sep {
            proof {
                assert(cur@ + v@.skip(i as int) =~= cur@ + seq![sep] + v@.skip(i as int + 1));
                lemma_split_on_prefix(cur@, v@.skip(i as int + 1), sep);
            }
            let ghost old_parts = parts.deep_view();
            let ghost cur_view = cur@;
            parts.push(cur);
            cur = Vec::new();
            proof {
                assert(parts.deep_view() =~~= old_parts + seq![cur_view]);
                assert(cur@ + v@.skip(i as int + 1) =~= v@.skip(i as int + 1));
                assert(split_on(v@, sep) =~~= parts.deep_view() + split_on(
                    cur@ + v@.skip(i as int + 1),
                    sep,
                ));
            }
        } else {
            proof {
                assert(cur@ + v@.skip(i as int) =~= (cur@.push(c)) + v@.skip(i as int + 1));
                assert forall|t: int| 0 <= t < cur@.push(c).len() implies cur@.push(c)[t] != sep by {
                    if t < cur@.len() {
                        assert(cur@.push(c)[t] == cur@[t]);
                    }
                }
            }
            cur.push(c);
        }
        i = i + 1;
    }
    proof {
        assert(cur@ + v@.skip(i as int) =~= cur@);
        lemma_split_on_nosep(cur@, sep);
    }
    let ghost old_parts = parts.deep_view();
    let ghost cur_view = cur@;
    parts.push(cur);
    proof {
        assert(parts.deep_view() =~~= old_parts + seq![cur_view]);
        assert(parts.deep_view() =~~= split_on(v@, sep));
    }
    parts
}

} // verus!

verus! {

/// A two-character escape: ESC followed by one of these.
pub open spec fn is_esc_terminator(c: char) -> bool {
    ('@' <= c && c <= 'Z') || ('\\' <= c && c <= '_')
}

pub open spec fn is_csi_param(c: char) -> bool {
    '0' <= c && c <= '?'
}

pub open spec fn is_csi_intermediate(c: char) -> bool {
    ' ' <= c && c <= '/'
}

pub open spec fn is_csi_final(c: char) -> bool {
    '@' <= c && c <= '~'
}

/// Length of a control-sequence body after "ESC[": parameter characters, then
/// intermediate characters, then one final character; nothing when no final
/// character follows them.
pub open spec fn csi_body_len(t: Seq<char>) -> Option<int> {
    let p = count_while(t, |c: char| is_csi_param(c));
    let q = count_while(t.skip(p), |c: char| is_csi_intermediate(c));
    if p + q < t.len() && is_csi_final(t[p + q]) {
        Some(p + q + 1)
    } else {
        None
    }
}

pub proof fn lemma_csi_body_len_bounds(t: Seq<char>)
    ensures
        csi_body_len(t) is Some ==> 1 <= csi_body_len(t)->0 <= t.len(),
{
    lemma_count_while_bounds(t, |c: char| is_csi_param(c));
    let p = count_while(t, |c: char| is_csi_param(c));
    lemma_count_while_bounds(t.skip(p), |c: char| is_csi_intermediate(c));
}

/// `s` with every ANSI escape sequence removed: ESC plus a single terminator,
/// or ESC `[`, parameters, intermediates and a final character. An ESC that
/// starts no complete sequence is kept as an ordinary character.
pub open spec fn strip_ansi(s: Seq<char>) -> Seq<char>
    decreases s.len(),
    via strip_ansi_decreases
{
    if s.len() == 0 {
        s
    } else if s[0] == '\u{1b}' && s.len() >= 2 && is_esc_terminator(s[1]) {
        strip_ansi(s.skip(2))
    } else if s[0] == '\u{1b}' && s.len() >= 2 && s[1] == '[' && csi_body_len(s.skip(2)) is Some {
        strip_ansi(s.skip(2 + csi_body_len(s.skip(2))->0))
    } else {
        seq![s[0]] + strip_ansi(s.drop_first())
    }
}

#[via_fn]
proof fn strip_ansi_decreases(s: Seq<char>) {
    if s.len() >= 2 && s[0] == '\u{1b}' && s[1] == '[' {
        lemma_csi_body_len_bounds(s.skip(2));
    }
}

fn check_esc_terminator(c: char) -> (r: bool)
    ensures
        r == is_esc_terminator(c),
{
    (c >= '@' && c <= 'Z') || (c >= '\\' && c <= '_')
}

fn check_csi_param(c: char) -> (r: bool)
    ensures
        r == is_csi_param(c),
{
    c >= '0' && c <= '?'
}

fn check_csi_intermediate(c: char) -> (r: bool)
    ensures
        r == is_csi_intermediate(c),
{
    c >= ' ' && c <= '/'
}

fn check_csi_final(c: char) -> (r: bool)
    ensures
        r == is_csi_final(c),
{
    c >= '@' && c <= '~'
}

pub(crate) proof fn lemma_count_while_eq(s: Seq<char>, f: spec_fn(char) -> bool, k: int)
    requires
        0 <= k <= s.len(),
        forall|i: int| 0 <= i < k ==> f(s[i]),
        k < s.len() ==> !f(s[k]),
    ensures
        count_while(s, f) == k,
    decreases k,
{
    if k == 0 {
        if s.len() > 0 && f(s[0]) {
            assert(false);
        }
    } else {
        assert(f(s[0]));
        assert forall|i: int| 0 <= i < k - 1 implies f(s.drop_first()[i]) by {
            assert(s.drop_first()[i] == s[i + 1]);
        }
        if k - 1 < s.drop_first().len() {
            assert(s.drop_first()[k - 1] == s[k]);
        }
        lemma_count_while_eq(s.drop_first(), f, k - 1);
    }
}

/// Remove ANSI escape sequences from a character vector.
pub fn strip_ansi_chars(v: &Vec<char>) -> (out: Vec<char>)
    ensures
        out@ == strip_ansi(v@),
{
    let len = v.len();
    let mut out: Vec<char> = Vec::new();
    let mut i: usize = 0;
    proof {
        assert(v@.skip(0) =~= v@);
        assert(out@ + strip_ansi(v@) =~= strip_ansi(v@));
    }
    while i < len
        invariant
            len == v@.len(),
            i <= len,
            strip_ansi(v@) == out@ + strip_ansi(v@.skip(i as int)),
        decreases len - i,
    {
        let ghost tail = v@.skip(i as int);
        proof {
            assert(tail[0] == v@[i as int]);
            if i + 1 < len {
                assert(tail[1] == v@[i as int + 1]);
            }
        }
        let c = v[i];
        if c == '\u{1b}' && i + 1 < len && check_esc_terminator(v[i + 1]) {
            proof {
                assert(strip_ansi(tail) == strip_ansi(tail.skip(2)));
                assert(tail.skip(2) =~= v@.skip(i as int + 2));
            }
            i = i + 2;
        } else if c == '\u{1b}' && i + 1 < len && v[i + 1] == '[' {
            let ghost body = tail.skip(2);
            proof {
                assert(body =~= v@.skip(i as int + 2));
            }
            // scan parameter characters
            let mut p: usize = i + 2;
            while p < len && check_csi_param(v[p])
                invariant
                    len == v@.len(),
                    i + 2 <= p <= len,
                    forall|t: int| i + 2 <= t < p ==> is_csi_param(v@[t]),
                decreases len - p,
            {
                p = p + 1;
            }
            // scan intermediate characters
            let mut q: usize = p;
            while q < len && check_csi_intermediate(v[q])
                invariant
                    len == v@.len(),
                    p <= q <= len,
                    forall|t: int| p <= t < q ==> is_csi_intermediate(v@[t]),
                decreases len - q,
            {
                q = q + 1;
            }
            proof {
                let fp = |ch: char| is_csi_param(ch);
                let fq = |ch: char| is_csi_intermediate(ch);
                assert forall|t: int| 0 <= t < p - i - 2 implies fp(body[t]) by {
                    assert(body[t] == v@[t + i + 2]);
                }
                if p < len {
                    assert(body[p - i - 2] == v@[p as int]);
                }
                lemma_count_while_eq(body, fp, p - i - 2);
                let rest = body.skip(p - i - 2);
                assert forall|t: int| 0 <= t < q - p implies fq(rest[t]) by {
                    assert(rest[t] == v@[t + p]);
                }
                if q < len {
                    assert(rest[q - p] == v@[q as int]);
                }
                lemma_count_while_eq(rest, fq, q - p);
                assert(count_while(body, fp) + count_while(rest, fq) == q - i - 2);
            }
            if q < len && check_csi_final(v[q]) {
                proof {
                    assert(body[q - i - 2] == v@[q as int]);
                    assert(csi_body_len(body) == Some(q - i - 2 + 1));
                    assert(strip_ansi(tail) == strip_ansi(tail.skip(2 + (q - i - 2 + 1))));
                    assert(tail.skip(2 + (q - i - 2 + 1)) =~= v@.skip(q + 1));
                }
                i = q + 1;
            } else {
                proof {
                    if q - i - 2 < body.len() {
                        assert(body[q - i - 2] == v@[q as int]);
                    }
                    assert(csi_body_len(body) is None);
                    assert(strip_ansi(tail) == seq![tail[0]] + strip_ansi(tail.drop_first()));
                    assert(tail.drop_first() =~= v@.skip(i as int + 1));
                }
                out.push(c);
                proof {
                    assert(strip_ansi(v@) =~= out@ + strip_ansi(v@.skip(i as int + 1)));
                }
                i = i + 1;
            }
        } else {
            proof {
                assert(strip_ansi(tail) == seq![tail[0]] + strip_ansi(tail.drop_first()));
                assert(tail.drop_first() =~= v@.skip(i as int + 1));
            }
            out.push(c);
            proof {
                assert(strip_ansi(v@) =~= out@ + strip_ansi(v@.skip(i as int + 1)));
            }
            i = i + 1;
        }
    }
    proof {
        assert(v@.skip(len as int) =~= Seq::<char>::empty());
        assert(out@ =~= strip_ansi(v@));
    }
    out
}

/// Strip escapes, then trim: how each table cell is cleaned before reading.
pub open spec fn clean_cell(s: Seq<char>) -> Seq<char> {
    trim_spec(strip_ansi(s))
}

pub fn clean_cell_chars(v: &Vec<char>) -> (r: Vec<char>)
    ensures
        r@ == clean_cell(v@),
{
    let stripped = strip_ansi_chars(v);
    trim_chars(&stripped)
}

} // verus!

verus! {

pub open spec fn pow10(k: nat) -> nat
    decreases k,
{
    if k == 0 {
        1
    } else {
        10 * pow10((k - 1) as nat)
    }
}

pub proof fn lemma_dec_val_bound(s: Seq<char>)
    ensures
        dec_val(s) < pow10(s.len()),
    decreases s.len(),
{
    if s.len() > 0 {
        lemma_dec_val_bound(s.drop_last());
    }
}

/// Value, in millionths, of a decimal number written as an integer part and
/// fraction digits; fraction digits beyond the sixth do not count.
pub open spec fn micro_of_parts(intpart: Seq<char>, frac: Seq<char>) -> nat {
    let f6 = if frac.len() <= 6 {
        frac
    } else {
        frac.take(6)
    };
    dec_val(intpart) * 1000000 + dec_val(f6) * pow10((6 - f6.len()) as nat)
}

proof fn lemma_pow10_le(a: nat, b: nat)
    requires
        a <= b,
    ensures
        pow10(a) <= pow10(b),
    decreases b,
{
    if a < b {
        lemma_pow10_le(a, (b - 1) as nat);
    }
}

proof fn lemma_dec_val_scaled_bound(f: Seq<char>)
    requires
        f.len() <= 6,
    ensures
        dec_val(f) * pow10((6 - f.len()) as nat) < 1000000,
{
    lemma_dec_val_bound(f);
    let k = (6 - f.len()) as nat;
    assert(pow10(f.len()) * pow10(k) == pow10(6)) by {
        lemma_pow10_mul(f.len(), k);
    }
    assert(pow10(6) == 1000000) by {
        reveal_with_fuel(pow10, 7);
    }
    assert(dec_val(f) * pow10(k) < pow10(f.len()) * pow10(k)) by {
        lemma_pow10_pos(k);
        vstd::arithmetic::mul::lemma_mul_strict_inequality(
            dec_val(f) as int,
            pow10(f.len()) as int,
            pow10(k) as int,
        );
    }
}

proof fn lemma_pow10_pos(k: nat)
    ensures
        pow10(k) >= 1,
    decreases k,
{
    if k > 0 {
        lemma_pow10_pos((k - 1) as nat);
    }
}

proof fn lemma_pow10_mul(a: nat, b: nat)
    ensures
        pow10(a) * pow10(b) == pow10(a + b),
    decreases a,
{
    if a == 0 {
        assert(pow10(a) == 1);
        assert(pow10(a) * pow10(b) == pow10(b));
    } else {
        lemma_pow10_mul((a - 1) as nat, b);
        assert(pow10(a) * pow10(b) == 10 * (pow10((a - 1) as nat) * pow10(b)))
            by (nonlinear_arith)
            requires
                pow10(a) == 10 * pow10((a - 1) as nat),
        ;
        assert((a - 1) as nat + b == (a + b - 1) as nat);
        assert(10 * (pow10((a - 1) as nat) * pow10(b)) == 10 * pow10((a + b - 1) as nat));
        assert(pow10(a + b) == 10 * pow10((a + b - 1) as nat));
        assert(pow10(a) * pow10(b) == pow10(a + b));
    }
}

/// The number written at the start of `t` (which must start with a digit):
/// up to thirteen digits, then an optional point and fraction digits.
pub open spec fn number_at(t: Seq<char>) -> Option<nat> {
    let d = count_while(t, |c: char| is_digit(c));
    if d == 0 || d > 13 {
        None
    } else {
        let intpart = t.subrange(0, d);
        let after = t.skip(d);
        let frac = if after.len() > 0 && after[0] == '.' {
            let fd = count_while(after.skip(1), |c: char| is_digit(c));
            after.subrange(1, 1 + fd)
        } else {
            Seq::<char>::empty()
        };
        Some(micro_of_parts(intpart, frac))
    }
}

/// The cost written after a dollar sign: optional spaces, then a number.
pub open spec fn cost_after_dollar(t: Seq<char>) -> Option<nat> {
    number_at(t.skip(count_while(t, |c: char| is_space(c))))
}

/// The first dollar amount in `s`, in millionths of a dollar.
pub open spec fn find_cost_micro(s: Seq<char>) -> Option<nat>
    decreases s.len(),
{
    if s.len() == 0 {
        None
    } else if s[0] == '$' && cost_after_dollar(s.drop_first()) is Some {
        cost_after_dollar(s.drop_first())
    } else {
        find_cost_micro(s.drop_first())
    }
}

/// The first number in `s`, with or without a dollar sign, in millionths.
pub open spec fn find_number_micro(s: Seq<char>) -> Option<nat>
    decreases s.len(),
{
    if s.len() == 0 {
        None
    } else if is_digit(s[0]) && number_at(s) is Some {
        number_at(s)
    } else {
        find_number_micro(s.drop_first())
    }
}

} // verus!

verus! {

pub(crate) fn count_digits_from(v: &Vec<char>, from: usize) -> (j: usize)
    requires
        from <= v@.len(),
    ensures
        from <= j <= v@.len(),
        j - from == count_while(v@.skip(from as int), |c: char| is_digit(c)),
{
    let len = v.len();
    let mut j: usize = from;
    while j < len && check_digit(v[j])
        invariant
            len == v@.len(),
            from <= j <= len,
            forall|t: int| from <= t < j ==> is_digit(v@[t]),
        decreases len - j,
    {
        j = j + 1;
    }
    proof {
        let tail = v@.skip(from as int);
        let f = |c: char| is_digit(c);
        assert forall|t: int| 0 <= t < j - from implies f(tail[t]) by {
            assert(tail[t] == v@[t + from]);
        }
        if j < len {
            assert(tail[j - from] == v@[j as int]);
        }
        lemma_count_while_eq(tail, f, j - from);
    }
    j
}

pub(crate) fn count_spaces_from(v: &Vec<char>, from: usize) -> (j: usize)
    requires
        from <= v@.len(),
    ensures
        from <= j <= v@.len(),
        j - from == count_while(v@.skip(from as int), |c: char| is_space(c)),
{
    let len = v.len();
    let mut j: usize = from;
    while j < len && check_space(v[j])
        invariant
            len == v@.len(),
            from <= j <= len,
            forall|t: int| from <= t < j ==> is_space(v@[t]),
        decreases len - j,
    {
        j = j + 1;
    }
    proof {
        let tail = v@.skip(from as int);
        let f = |c: char| is_space(c);
        assert forall|t: int| 0 <= t < j - from implies f(tail[t]) by {
            assert(tail[t] == v@[t + from]);
        }
        if j < len {
            assert(tail[j - from] == v@[j as int]);
        }
        lemma_count_while_eq(tail, f, j - from);
    }
    j
}

/// The value of the digit characters between `from` and `to`.
pub(crate) fn digits_value(v: &Vec<char>, from: usize, to: usize) -> (n: u64)
    requires
        from <= to <= v@.len(),
        to - from <= 13,
    ensures
        n == dec_val(v@.subrange(from as int, to as int)),
        n < 10000000000000,
{
    proof {
        reveal_with_fuel(pow10, 15);
    }
    let mut n: u64 = 0;
    let mut j: usize = from;
    while j < to
        invariant
            from <= j <= to <= v@.len(),
            to - from <= 13,
            n == dec_val(v@.subrange(from as int, j as int)),
            n < pow10((j - from) as nat),
        decreases to - j,
    {
        let c = v[j];
        let d: u64 = if check_digit(c) {
            (c as u32 as u64) - 48
        } else {
            0
        };
        proof {
            let prefix = v@.subrange(from as int, j as int);
            let next = v@.subrange(from as int, j as int + 1);
            assert(next.drop_last() =~= prefix);
            assert(next.last() == v@[j as int]);
            lemma_pow10_le((j - from + 1) as nat, 13);
            reveal_with_fuel(pow10, 15);
            assert(pow10((j - from + 1) as nat) == 10 * pow10((j - from) as nat));
        }
        n = n * 10 + d;
        j = j + 1;
    }
    proof {
        lemma_pow10_le((j - from) as nat, 13);
        reveal_with_fuel(pow10, 15);
    }
    n
}

fn pow10_u64(k: usize) -> (n: u64)
    requires
        k <= 6,
    ensures
        n == pow10(k as nat),
{
    proof {
        reveal_with_fuel(pow10, 8);
    }
    if k == 0 {
        1
    } else if k == 1 {
        10
    } else if k == 2 {
        100
    } else if k == 3 {
        1000
    } else if k == 4 {
        10000
    } else if k == 5 {
        100000
    } else {
        1000000
    }
}

/// Read the number starting at position `from`, as `number_at` describes.
#[verifier::rlimit(50)]
fn scan_number(v: &Vec<char>, from: usize) -> (r: Option<u64>)
    requires
        from <= v@.len(),
    ensures
        match r {
            Some(m) => number_at(v@.skip(from as int)) == Some(m as nat) && m
                < 10000000000000000000,
            None => number_at(v@.skip(from as int)) is None,
        },
{
    let ghost t = v@.skip(from as int);
    let d_end = count_digits_from(v, from);
    let d = d_end - from;
    if d == 0 || d > 13 {
        return None;
    }
    let intval = digits_value(v, from, d_end);
    proof {
        assert(v@.subrange(from as int, d_end as int) =~= t.subrange(0, d as int));
        reveal_with_fuel(pow10, 15);
        lemma_pow10_le(d as nat, 13);
    }
    let len = v.len();
    if d_end < len && v[d_end] == '.' {
        let f_end = count_digits_from(v, d_end + 1);
        let fd = f_end - (d_end + 1);
        let f6: usize = if fd <= 6 {
            fd
        } else {
            6
        };
        let fracval = digits_value(v, d_end + 1, d_end + 1 + f6);
        let p = pow10_u64(6 - f6);
        proof {
            let after = t.skip(d as int);
            assert(after[0] == v@[d_end as int]);
            assert(after.skip(1) =~= v@.skip(d_end as int + 1));
            let fd_spec = count_while(after.skip(1), |c: char| is_digit(c));
            assert(fd_spec == fd);
            let frac = after.subrange(1, 1 + fd_spec);
            let f6_seq = if frac.len() <= 6 {
                frac
            } else {
                frac.take(6)
            };
            assert(f6_seq =~= v@.subrange(d_end as int + 1, d_end as int + 1 + f6 as int));
            lemma_dec_val_scaled_bound(f6_seq);
        }
        let m = intval * 1000000 + fracval * p;
        proof {
            let after = t.skip(d as int);
            let fd_spec = count_while(after.skip(1), |c: char| is_digit(c));
            let frac = after.subrange(1, 1 + fd_spec);
            let f6_seq = if frac.len() <= 6 {
                frac
            } else {
                frac.take(6)
            };
            assert(f6_seq =~= v@.subrange(d_end as int + 1, d_end as int + 1 + f6 as int));
            assert(fracval * p == dec_val(f6_seq) * pow10((6 - f6_seq.len()) as nat));
            assert(number_at(t) == Some(micro_of_parts(t.subrange(0, d as int), frac)));
            assert(number_at(t) == Some(m as nat));
        }
        Some(m)
    } else {
        let m = intval * 1000000;
        proof {
            let after = t.skip(d as int);
            if after.len() > 0 {
                assert(after[0] == v@[d_end as int]);
            }
            assert(number_at(t) == Some(
                micro_of_parts(t.subrange(0, d as int), Seq::<char>::empty()),
            ));
            assert(dec_val(Seq::<char>::empty()) == 0);
            assert(dec_val(Seq::<char>::empty()) * pow10(6) == 0) by (nonlinear_arith)
                requires
                    dec_val(Seq::<char>::empty()) == 0,
            ;
            assert(number_at(t) == Some(m as nat));
        }
        Some(m)
    }
}

/// The first dollar amount in the cell, in millionths of a dollar.
pub fn parse_cost_micro(v: &Vec<char>) -> (r: Option<u64>)
    ensures
        match r {
            Some(m) => find_cost_micro(v@) == Some(m as nat) && m < 10000000000000000000,
            None => find_cost_micro(v@) is None,
        },
{
    let len = v.len();
    let mut i: usize = 0;
    proof {
        assert(v@.skip(0) =~= v@);
    }
    while i < len
        invariant
            len == v@.len(),
            i <= len,
            find_cost_micro(v@) == find_cost_micro(v@.skip(i as int)),
        decreases len - i,
    {
        let ghost tail = v@.skip(i as int);
        proof {
            assert(tail[0] == v@[i as int]);
            assert(tail.drop_first() =~= v@.skip(i as int + 1));
        }
        if v[i] == '$' {
            let w_end = count_spaces_from(v, i + 1);
            proof {
                assert(v@.skip(i as int + 1).skip(count_while(v@.skip(i as int + 1), |c: char| is_space(c)))
                    =~= v@.skip(w_end as int));
            }
            match scan_number(v, w_end) {
                Some(m) => {
                    proof {
                        assert(cost_after_dollar(tail.drop_first()) == Some(m as nat));
                    }
                    return Some(m);
                },
                None => {
                    proof {
                        assert(cost_after_dollar(tail.drop_first()) is None);
                    }
                },
            }
        }
        i = i + 1;
    }
    proof {
        assert(v@.skip(len as int) =~= Seq::<char>::empty());
    }
    None
}

/// The first number in the cell, dollar sign or not, in millionths.
pub fn parse_number_micro(v: &Vec<char>) -> (r: Option<u64>)
    ensures
        match r {
            Some(m) => find_number_micro(v@) == Some(m as nat) && m < 10000000000000000000,
            None => find_number_micro(v@) is None,
        },
{
    let len = v.len();
    let mut i: usize = 0;
    proof {
        assert(v@.skip(0) =~= v@);
    }
    while i < len
        invariant
            len == v@.len(),
            i <= len,
            find_number_micro(v@) == find_number_micro(v@.skip(i as int)),
        decreases len - i,
    {
        let ghost tail = v@.skip(i as int);
        proof {
            assert(tail[0] == v@[i as int]);
            assert(tail.drop_first() =~= v@.skip(i as int + 1));
        }
        if check_digit(v[i]) {
            match scan_number(v, i) {
                Some(m) => {
                    return Some(m);
                },
                None => {},
            }
        }
        i = i + 1;
    }
    proof {
        assert(v@.skip(len as int) =~= Seq::<char>::empty());
    }
    None
}

} // verus!

verus! {

/// A latency token "12" or "12.34", rounded to whole milliseconds, half away
/// from zero; the whole token must be a number of up to thirteen whole digits.
pub open spec fn ms_token_value(t: Seq<char>) -> Option<nat> {
    let d = count_while(t, |c: char| is_digit(c));
    if d == 0 || d > 13 {
        None
    } else if d == t.len() {
        Some(dec_val(t.subrange(0, d)))
    } else if t[d] == '.' && count_while(t.skip(d + 1), |c: char| is_digit(c)) == t.len() - d
        - 1 {
        if t.len() > d + 1 && digit_val(t[d + 1]) >= 5 {
            Some((dec_val(t.subrange(0, d)) + 1) as nat)
        } else {
            Some(dec_val(t.subrange(0, d)))
        }
    } else {
        None
    }
}

/// Round a latency token to whole milliseconds.
pub fn round_ms_token(v: &Vec<char>) -> (r: Option<u64>)
    ensures
        match r {
            Some(m) => ms_token_value(v@) == Some(m as nat),
            None => ms_token_value(v@) is None,
        },
{
    let len = v.len();
    let ghost t = v@;
    proof {
        assert(t.skip(0) =~= t);
    }
    let d_end = count_digits_from(v, 0);
    let d = d_end;
    if d == 0 || d > 13 {
        return None;
    }
    let base = digits_value(v, 0, d_end);
    proof {
        assert(v@.subrange(0, d_end as int) =~= t.subrange(0, d as int));
    }
    if d == len {
        return Some(base);
    }
    if v[d] == '.' {
        let f_end = count_digits_from(v, d + 1);
        proof {
            assert(t.skip(d as int + 1) =~= v@.skip(d as int + 1));
        }
        if f_end == len {
            if d + 1 < len && check_digit(v[d + 1]) && (v[d + 1] as u32) >= 53 {
                proof {
                    assert(digit_val(t[d as int + 1]) >= 5);
                }
                return Some(base + 1);
            } else {
                proof {
                    if d + 1 < len {
                        assert(is_digit(t[d as int + 1]));
                        assert((t[d as int + 1] as u32) < 53);
                        assert(digit_val(t[d as int + 1]) < 5);
                    }
                }
                return Some(base);
            }
        } else {
            return None;
        }
    }
    None
}

/// The decimal rendering of a signed number.
pub open spec fn i64_dec_digits(n: int) -> Seq<char> {
    if n < 0 {
        seq!['-'] + dec_digits((-n) as nat)
    } else {
        dec_digits(n as nat)
    }
}

pub fn i64_to_chars(n: i64) -> (v: Vec<char>)
    ensures
        v@ == i64_dec_digits(n as int),
{
    if n >= 0 {
        u64_to_chars(n as u64)
    } else {
        let mag: u64 = (-(n as i128)) as u64;
        let mut v: Vec<char> = Vec::new();
        v.push('-');
        push_dec_digits(mag, &mut v);
        proof {
            assert(v@ =~= i64_dec_digits(n as int));
        }
        v
    }
}

/// Token counts shown compactly: numbers of a million or more as tenths of a
/// million with an `M`, of a thousand or more as tenths of a thousand with a
/// `K` (rounded, halves up), and small numbers in full.
pub open spec fn format_number_spec(n: int) -> Seq<char> {
    if n >= 1000000 {
        let d = (10 * n + 500000) / 1000000;
        dec_digits((d / 10) as nat) + seq!['.', digit_char(d % 10), 'M']
    } else if n >= 1000 {
        let d = (10 * n + 500) / 1000;
        dec_digits((d / 10) as nat) + seq!['.', digit_char(d % 10), 'K']
    } else {
        i64_dec_digits(n)
    }
}

pub fn format_number(num: i64) -> (s: String)
    ensures
        s@ == format_number_spec(num as int),
{
    if num >= 1000000 {
        let d: u64 = (((10 * (num as u128)) + 500000) / 1000000) as u64;
        let mut v = u64_to_chars(d / 10);
        v.push('.');
        v.push(to_digit_char(d % 10));
        v.push('M');
        proof {
            assert(d == (10 * (num as int) + 500000) / 1000000);
            assert(v@ =~= format_number_spec(num as int));
        }
        string_of_chars(&v)
    } else if num >= 1000 {
        let d: u64 = ((10 * (num as u64)) + 500) / 1000;
        let mut v = u64_to_chars(d / 10);
        v.push('.');
        v.push(to_digit_char(d % 10));
        v.push('K');
        proof {
            assert(d == (10 * (num as int) + 500) / 1000);
            assert(v@ =~= format_number_spec(num as int));
        }
        string_of_chars(&v)
    } else {
        let v = i64_to_chars(num);
        string_of_chars(&v)
    }
}

/// A dollar amount in millionths shown as dollars and cents, rounded to the
/// cent, halves up.
pub open spec fn cost_display_spec(micro: nat) -> Seq<char> {
    let cents = (micro + 5000) / 10000;
    seq!['$'] + dec_digits(cents / 100) + seq!['.', digit_char(((cents / 10) % 10) as int), digit_char(
        (cents % 10) as int,
    )]
}

pub fn cost_display(micro: u64) -> (s: String)
    requires
        micro < 10000000000000000000,
    ensures
        s@ == cost_display_spec(micro as nat),
{
    let cents: u64 = (micro + 5000) / 10000;
    let mut v: Vec<char> = Vec::new();
    v.push('$');
    push_dec_digits(cents / 100, &mut v);
    v.push('.');
    v.push(to_digit_char((cents / 10) % 10));
    v.push(to_digit_char(cents % 10));
    proof {
        assert(v@ =~= cost_display_spec(micro as nat));
    }
    string_of_chars(&v)
}

/// A remaining-time label: hours and minutes as "H h M m".
pub open spec fn hm_label_spec(hours: nat, minutes: nat) -> Seq<char> {
    dec_digits(hours) + seq![' ', 'h', ' '] + dec_digits(minutes) + seq![' ', 'm']
}

pub fn hm_label(hours: u64, minutes: u64) -> (s: String)
    ensures
        s@ == hm_label_spec(hours as nat, minutes as nat),
{
    let mut v = u64_to_chars(hours);
    v.push(' ');
    v.push('h');
    v.push(' ');
    push_dec_digits(minutes, &mut v);
    v.push(' ');
    v.push('m');
    proof {
        assert(v@ =~= hm_label_spec(hours as nat, minutes as nat));
    }
    string_of_chars(&v)
}

} // verus!

verus! {

/// Copy of a stretch of a character vector.
pub fn subvec(v: &Vec<char>, from: usize, to: usize) -> (r: Vec<char>)
    requires
        from <= to <= v@.len(),
    ensures
        r@ == v@.subrange(from as int, to as int),
{
    let mut r: Vec<char> = Vec::new();
    let mut i: usize = from;
    while i < to
        invariant
            from <= i <= to <= v@.len(),
            r@ =~= v@.subrange(from as int, i as int),
        decreases to - i,
    {
        r.push(v[i]);
        i = i + 1;
    }
    proof {
        assert(r@ =~= v@.subrange(from as int, to as int));
    }
    r
}

/// `s` begins with `p`.
pub open spec fn starts_with_seq(s: Seq<char>, p: Seq<char>) -> bool {
    s.len() >= p.len() && s.subrange(0, p.len() as int) == p
}

pub fn check_starts_with(v: &Vec<char>, p: &Vec<char>) -> (r: bool)
    ensures
        r == starts_with_seq(v@, p@),
{
    if p.len() > v.len() {
        return false;
    }
    let r = match_at(v, p, 0);
    proof {
        assert(v@.subrange(0, 0 + p@.len() as int) == v@.subrange(0, p@.len() as int));
    }
    r
}

/// First position where `needle` occurs in `hay`.
pub open spec fn index_of_sub(s: Seq<char>, needle: Seq<char>) -> Option<int>
    decreases s.len(),
{
    if s.len() >= needle.len() && s.subrange(0, needle.len() as int) == needle {
        Some(0int)
    } else if s.len() == 0 {
        None
    } else {
        match index_of_sub(s.drop_first(), needle) {
            Some(i) => Some(i + 1),
            None => None,
        }
    }
}

proof fn lemma_index_of_sub_found(s: Seq<char>, needle: Seq<char>, k: int)
    requires
        0 <= k,
        k + needle.len() <= s.len(),
        s.subrange(k, k + needle.len()) == needle,
        forall|j: int| 0 <= j < k ==> #[trigger] s.subrange(j, j + needle.len()) != needle,
    ensures
        index_of_sub(s, needle) == Some(k),
    decreases k,
{
    if k == 0 {
        assert(s.subrange(0, needle.len() as int) == needle);
    } else {
        assert(s.subrange(0, 0 + needle.len() as int) != needle);
        let t = s.drop_first();
        assert(t.subrange(k - 1, k - 1 + needle.len()) =~= s.subrange(k, k + needle.len()));
        assert forall|j: int| 0 <= j < k - 1 implies #[trigger] t.subrange(j, j + needle.len())
            != needle by {
            assert(t.subrange(j, j + needle.len()) =~= s.subrange(j + 1, j + 1 + needle.len()));
        }
        lemma_index_of_sub_found(t, needle, k - 1);
    }
}

proof fn lemma_index_of_sub_none(s: Seq<char>, needle: Seq<char>)
    requires
        forall|j: int|
            0 <= j && j + needle.len() <= s.len() ==> #[trigger] s.subrange(j, j + needle.len())
                != needle,
    ensures
        index_of_sub(s, needle) is None,
    decreases s.len(),
{
    if s.len() >= needle.len() {
        assert(s.subrange(0, 0 + needle.len() as int) != needle);
    }
    if s.len() > 0 {
        let t = s.drop_first();
        assert forall|j: int|
            0 <= j && j + needle.len() <= t.len() implies #[trigger] t.subrange(
            j,
            j + needle.len(),
        ) != needle by {
            assert(t.subrange(j, j + needle.len()) =~= s.subrange(j + 1, j + 1 + needle.len()));
        }
        lemma_index_of_sub_none(t, needle);
    }
}

pub fn find_sub(hay: &Vec<char>, needle: &Vec<char>) -> (r: Option<usize>)
    ensures
        match r {
            Some(i) => index_of_sub(hay@, needle@) == Some(i as int) && i + needle@.len()
                <= hay@.len(),
            None => index_of_sub(hay@, needle@) is None,
        },
{
    if needle.len() == 0 {
        proof {
            assert(hay@.subrange(0, 0 + needle@.len() as int) =~= needle@);
        }
        return Some(0);
    }
    let len = hay.len();
    let mut i: usize = 0;
    while i < len
        invariant
            len == hay@.len(),
            1 <= needle@.len(),
            i <= len,
            forall|j: int|
                0 <= j < i && j + needle@.len() <= hay@.len() ==> #[trigger] hay@.subrange(
                    j,
                    j + needle@.len(),
                ) != needle@,
        decreases len - i,
    {
        if needle.len() <= len - i {
            if match_at(hay, needle, i) {
                proof {
                    lemma_index_of_sub_found(hay@, needle@, i as int);
                }
                return Some(i);
            }
        }
        i = i + 1;
    }
    proof {
        lemma_index_of_sub_none(hay@, needle@);
    }
    None
}

} // verus!

verus! {

pub(crate) proof fn lemma_index_none_no_match(s: Seq<char>, needle: Seq<char>, k: int)
    requires
        index_of_sub(s, needle) is None,
        0 <= k,
        k + needle.len() <= s.len(),
    ensures
        s.subrange(k, k + needle.len()) != needle,
    decreases k,
{
    if k == 0 {
        if s.subrange(0, needle.len() as int) == needle {
            assert(index_of_sub(s, needle) is Some);
        }
    } else {
        let t = s.drop_first();
        assert(index_of_sub(t, needle) is None);
        lemma_index_none_no_match(t, needle, k - 1);
        assert(t.subrange(k - 1, k - 1 + needle.len()) =~= s.subrange(k, k + needle.len()));
    }
}

} // verus!

verus! {

/// Relies on std's `PartialEq` for `str`: two string slices are equal exactly
/// when they hold the same characters.
#[verifier::external_body]
pub fn str_eq(a: &str, b: &str) -> (r: bool)
    ensures
        r == (a@ == b@),
{
    a == b
}

/// An ASCII capital lowered; anything else unchanged.
pub open spec fn lower_char(c: char) -> char {
    if 'A' <= c && c <= 'Z' {
        ((c as u32) + 32) as char
    } else {
        c
    }
}

pub open spec fn lower_seq(s: Seq<char>) -> Seq<char> {
    s.map_values(|c: char| lower_char(c))
}

/// Lower the ASCII capitals of a character vector.
pub fn lower_chars(v: &Vec<char>) -> (r: Vec<char>)
    ensures
        r@ == lower_seq(v@),
{
    let n = v.len();
    let mut r: Vec<char> = Vec::new();
    let mut i: usize = 0;
    while i < n
        invariant
            n == v@.len(),
            i <= n,
            r@ =~= lower_seq(v@).subrange(0, i as int),
        decreases n - i,
    {
        let c = v[i];
        let lc: char = if c >= 'A' && c <= 'Z' {
            ((c as u8) + 32) as char
        } else {
            c
        };
        proof {
            assert(lower_seq(v@)[i as int] == lower_char(v@[i as int]));
            assert(lc == lower_char(c));
        }
        r.push(lc);
        proof {
            assert(r@ =~= lower_seq(v@).subrange(0, i as int + 1));
        }
        i = i + 1;
    }
    proof {
        assert(lower_seq(v@).subrange(0, n as int) =~= lower_seq(v@));
    }
    r
}

/// Two character vectors hold the same text.
pub fn chars_eq(a: &Vec<char>, b: &Vec<char>) -> (r: bool)
    ensures
        r == (a@ == b@),
{
    if a.len() != b.len() {
        return false;
    }
    let n = a.len();
    let mut i: usize = 0;
    while i < n
        invariant
            n == a@.len(),
            n == b@.len(),
            i <= n,
            forall|j: int| 0 <= j < i ==> a@[j] == b@[j],
        decreases n - i,
    {
        if a[i] != b[i] {
            return false;
        }
        i = i + 1;
    }
    proof {
        assert(a@ =~= b@);
    }
    true
}

} // verus!

verus! {

pub proof fn lemma_index_of_sub_bounds(s: Seq<char>, needle: Seq<char>)
    ensures
        index_of_sub(s, needle) matches Some(i) ==> 0 <= i && i + needle.len() <= s.len(),
    decreases s.len(),
{
    if !(s.len() >= needle.len() && s.subrange(0, needle.len() as int) == needle) && s.len() > 0 {
        lemma_index_of_sub_bounds(s.drop_first(), needle);
    }
}

/// `s` with every occurrence of `pat` replaced by `val`, leftmost first,
/// without overlap; an empty pattern replaces nothing.
pub open spec fn replace_all(s: Seq<char>, pat: Seq<char>, val: Seq<char>) -> Seq<char>
    decreases s.len(),
    via replace_all_decreases
{
    if pat.len() == 0 {
        s
    } else {
        match index_of_sub(s, pat) {
            Some(i) => s.take(i) + val + replace_all(s.skip(i + pat.len()), pat, val),
            None => s,
        }
    }
}

#[via_fn]
proof fn replace_all_decreases(s: Seq<char>, pat: Seq<char>, val: Seq<char>) {
    lemma_index_of_sub_bounds(s, pat);
}

/// Append a copy of `src` to `dst`.
pub fn append_chars(dst: &mut Vec<char>, src: &Vec<char>)
    ensures
        final(dst)@ == old(dst)@ + src@,
{
    let n = src.len();
    let mut i: usize = 0;
    while i < n
        invariant
            n == src@.len(),
            i <= n,
            dst@ =~= old(dst)@ + src@.subrange(0, i as int),
        decreases n - i,
    {
        dst.push(src[i]);
        i = i + 1;
    }
    proof {
        assert(dst@ =~= old(dst)@ + src@);
    }
}

/// Replace every occurrence of `pat` in `v` by `val`, leftmost first.
pub fn replace_chars(v: &Vec<char>, pat: &Vec<char>, val: &Vec<char>) -> (r: Vec<char>)
    ensures
        r@ == replace_all(v@, pat@, val@),
    decreases v@.len(),
{
    if pat.len() == 0 {
        let r = subvec(v, 0, v.len());
        proof {
            assert(r@ =~= v@);
        }
        return r;
    }
    let n = v.len();
    match find_sub(v, pat) {
        Some(i) => {
            let mut r = subvec(v, 0, i);
            append_chars(&mut r, val);
            let rest = subvec(v, i + pat.len(), n);
            let tail = replace_chars(&rest, pat, val);
            append_chars(&mut r, &tail);
            proof {
                assert(v@.subrange(0, i as int) =~= v@.take(i as int));
                assert(v@.subrange(i as int + pat@.len() as int, v@.len() as int) =~= v@.skip(
                    i as int + pat@.len(),
                ));
                assert(r@ =~= replace_all(v@, pat@, val@));
            }
            r
        },
        None => {
            let r = subvec(v, 0, v.len());
            proof {
                assert(r@ =~= v@);
            }
            r
        },
    }
}

} // verus!

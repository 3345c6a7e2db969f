//! Verified text utilities: substring search, line and whitespace splitting,
//! trimming, and decimal conversion. Contracts are stated over `Seq<char>`
//! views; every function here is executable and fully verified.

use vstd::prelude::*;
use vstd::string::*;

verus! {

/// The needle `n` occurs in `h` starting at index `i`.
pub open spec fn occurs_at(h: Seq<char>, n: Seq<char>, i: int) -> bool {
    0 <= i && i + n.len() <= h.len() && h.subrange(i, i + n.len() as int) == n
}

/// `h` contains `n` as a contiguous substring.
pub open spec fn contains_seq(h: Seq<char>, n: Seq<char>) -> bool {
    exists|i: int| occurs_at(h, n, i)
}

/// Compare `n` against the characters of `h` starting at `i`.
fn matches_at(h: &str, i: usize, n: &str) -> (b: bool)
    requires
        i + n@.len() <= h@.len(),
    ensures
        b == occurs_at(h@, n@, i as int),
{
    let hl = h.unicode_len();
    let nl = n.unicode_len();
    let mut j: usize = 0;
    while j < nl
        invariant
            hl == h@.len(),
            nl == n@.len(),
            i + nl <= hl,
            j <= nl,
            forall|k: int| 0 <= k < j ==> h@[i + k] == n@[k],
        decreases nl - j,
    {
        if h.get_char(i + j) != n.get_char(j) {
            assert(h@.subrange(i as int, i + nl as int)[j as int] != n@[j as int]);
            return false;
        }
        j += 1;
    }
    assert(h@.subrange(i as int, i + nl as int) =~= n@);
    true
}

/// Substring search; returns whether `n` occurs anywhere in `h`.
pub fn contains_sub(h: &str, n: &str) -> (b: bool)
    ensures
        b == contains_seq(h@, n@),
{
    let hl = h.unicode_len();
    let nl = n.unicode_len();
    if nl > hl {
        assert(forall|i: int| !occurs_at(h@, n@, i));
        return false;
    }
    if nl == 0 {
        assert(h@.subrange(0, 0) =~= n@);
        assert(occurs_at(h@, n@, 0));
        return true;
    }
    let mut i: usize = 0;
    while i <= hl - nl
        invariant
            hl == h@.len(),
            nl == n@.len(),
            1 <= nl <= hl,
            i <= hl - nl + 1,
            forall|k: int| 0 <= k < i ==> !occurs_at(h@, n@, k),
        decreases hl - i,
    {
        if matches_at(h, i, n) {
            return true;
        }
        i += 1;
    }
    assert(forall|k: int| occurs_at(h@, n@, k) ==> 0 <= k <= hl - nl);
    false
}

/// Whitespace for the purposes of token splitting.
pub open spec fn is_ws(c: char) -> bool {
    c == ' ' || c == '\t' || c == '\r' || c == '\n'
}

/// Runtime check matching `is_ws`.
pub fn is_ws_char(c: char) -> (b: bool)
    ensures
        b == is_ws(c),
{
    c == ' ' || c == '\t' || c == '\r' || c == '\n'
}

/// Helper for `split_ws_spec`: tokens of `s`, with `cur` the partial token
/// accumulated so far.
pub open spec fn split_ws_acc(s: Seq<char>, cur: Seq<char>) -> Seq<Seq<char>>
    decreases s.len(),
{
    if s.len() == 0 {
        if cur.len() == 0 {
            Seq::empty()
        } else {
            seq![cur]
        }
    } else if is_ws(s[0]) {
        if cur.len() == 0 {
            split_ws_acc(s.drop_first(), Seq::empty())
        } else {
            seq![cur] + split_ws_acc(s.drop_first(), Seq::empty())
        }
    } else {
        split_ws_acc(s.drop_first(), cur.push(s[0]))
    }
}

/// The maximal whitespace-free tokens of `s`, in order.
pub open spec fn split_ws_spec(s: Seq<char>) -> Seq<Seq<char>> {
    split_ws_acc(s, Seq::empty())
}

/// Split `s` into whitespace-delimited tokens.
pub fn split_ws(s: &str) -> (r: Vec<String>)
    ensures
        r.deep_view() == split_ws_spec(s@),
{
    let len = s.unicode_len();
    let mut r: Vec<String> = Vec::new();
    let mut start: usize = 0;
    let mut i: usize = 0;
    proof {
        assert(s@.subrange(0, len as int) =~= s@);
        assert(s@.subrange(0, 0) =~= Seq::<char>::empty());
        assert(r.deep_view() =~~= Seq::<Seq<char>>::empty());
        assert(Seq::<Seq<char>>::empty() + split_ws_acc(s@, Seq::empty()) =~~= split_ws_spec(s@));
    }
    while i < len
        invariant
            len == s@.len(),
            start <= i <= len,
            split_ws_spec(s@) == r.deep_view() + split_ws_acc(
                s@.subrange(i as int, len as int),
                s@.subrange(start as int, i as int),
            ),
        decreases len - i,
    {
        let ghost rest = s@.subrange(i as int, len as int);
        let ghost cur = s@.subrange(start as int, i as int);
        let c = s.get_char(i);
        proof {
            assert(rest[0] == s@[i as int]);
            assert(rest.drop_first() =~= s@.subrange(i + 1, len as int));
        }
        if is_ws_char(c) {
            if start < i {
                let tok = s.substring_char(start, i).to_owned();
                let ghost prev = r.deep_view();
                r.push(tok);
                proof {
                    assert(r.deep_view() =~~= prev + seq![cur]);
                    assert(split_ws_acc(rest, cur) == seq![cur] + split_ws_acc(
                        rest.drop_first(),
                        Seq::empty(),
                    ));
                    assert(prev + (seq![cur] + split_ws_acc(rest.drop_first(), Seq::empty()))
                        =~~= (prev + seq![cur]) + split_ws_acc(rest.drop_first(), Seq::empty()));
                }
            }
            proof {
                assert(s@.subrange(i + 1, i + 1) =~= Seq::<char>::empty());
            }
            start = i + 1;
        } else {
            proof {
                assert(cur.push(s@[i as int]) =~= s@.subrange(start as int, i + 1));
            }
        }
        i += 1;
    }
    proof {
        assert(s@.subrange(i as int, len as int) =~= Seq::<char>::empty());
    }
    let ghost cur = s@.subrange(start as int, len as int);
    if start < len {
        let tok = s.substring_char(start, len).to_owned();
        let ghost prev = r.deep_view();
        r.push(tok);
        proof {
            assert(r.deep_view() =~~= prev + seq![cur]);
            assert(split_ws_acc(Seq::empty(), cur) =~~= seq![cur]);
            assert(prev + seq![cur] =~~= split_ws_spec(s@));
        }
    } else {
        proof {
            assert(split_ws_acc(Seq::empty(), cur) =~~= Seq::<Seq<char>>::empty());
            assert(r.deep_view() + Seq::<Seq<char>>::empty() =~~= r.deep_view());
        }
    }
    r
}

/// Helper for `lines_spec`: the lines of `s`, with `cur` the partial line
/// accumulated so far. A carriage return directly before a line feed is not
/// part of the line; a final line needs no terminator, and a trailing line
/// feed opens no empty final line.
pub open spec fn lines_acc(s: Seq<char>, cur: Seq<char>) -> Seq<Seq<char>>
    decreases s.len(),
{
    if s.len() == 0 {
        if cur.len() == 0 {
            Seq::empty()
        } else {
            seq![cur]
        }
    } else if s[0] == '\n' {
        seq![strip_cr(cur)] + lines_acc(s.drop_first(), Seq::empty())
    } else {
        lines_acc(s.drop_first(), cur.push(s[0]))
    }
}

/// Drop one trailing carriage return, if present.
pub open spec fn strip_cr(l: Seq<char>) -> Seq<char> {
    if l.len() > 0 && l[l.len() - 1] == '\r' {
        l.drop_last()
    } else {
        l
    }
}

/// The lines of `s`.
pub open spec fn lines_spec(s: Seq<char>) -> Seq<Seq<char>> {
    lines_acc(s, Seq::empty())
}

/// Split `s` into lines.
pub fn split_lines(s: &str) -> (r: Vec<String>)
    ensures
        r.deep_view() == lines_spec(s@),
{
    let len = s.unicode_len();
    let mut r: Vec<String> = Vec::new();
    let mut start: usize = 0;
    let mut i: usize = 0;
    proof {
        assert(s@.subrange(0, len as int) =~= s@);
        assert(s@.subrange(0, 0) =~= Seq::<char>::empty());
        assert(r.deep_view() =~~= Seq::<Seq<char>>::empty());
        assert(Seq::<Seq<char>>::empty() + lines_acc(s@, Seq::empty()) =~~= lines_spec(s@));
    }
    while i < len
        invariant
            len == s@.len(),
            start <= i <= len,
            lines_spec(s@) == r.deep_view() + lines_acc(
                s@.subrange(i as int, len as int),
                s@.subrange(start as int, i as int),
            ),
        decreases len - i,
    {
        let ghost rest = s@.subrange(i as int, len as int);
        let ghost cur = s@.subrange(start as int, i as int);
        let c = s.get_char(i);
        proof {
            assert(rest[0] == s@[i as int]);
            assert(rest.drop_first() =~= s@.subrange(i + 1, len as int));
        }
        if c == '\n' {
            let mut end = i;
            if start < i && s.get_char(i - 1) == '\r' {
                end = i - 1;
                proof {
                    assert(cur[cur.len() - 1] == s@[i - 1]);
                    assert(cur.drop_last() =~= s@.subrange(start as int, i - 1));
                }
            }
            proof {
                assert(strip_cr(cur) =~= s@.subrange(start as int, end as int));
            }
            let tok = s.substring_char(start, end).to_owned();
            let ghost prev = r.deep_view();
            r.push(tok);
            proof {
                assert(r.deep_view() =~~= prev + seq![strip_cr(cur)]);
                assert(prev + (seq![strip_cr(cur)] + lines_acc(rest.drop_first(), Seq::empty()))
                    =~~= (prev + seq![strip_cr(cur)]) + lines_acc(
                    rest.drop_first(),
                    Seq::empty(),
                ));
                assert(s@.subrange(i + 1, i + 1) =~= Seq::<char>::empty());
            }
            start = i + 1;
        } else {
            proof {
                assert(cur.push(s@[i as int]) =~= s@.subrange(start as int, i + 1));
            }
        }
        i += 1;
    }
    proof {
        assert(s@.subrange(i as int, len as int) =~= Seq::<char>::empty());
    }
    let ghost cur = s@.subrange(start as int, len as int);
    if start < len {
        let tok = s.substring_char(start, len).to_owned();
        let ghost prev = r.deep_view();
        r.push(tok);
        proof {
            assert(r.deep_view() =~~= prev + seq![cur]);
            assert(lines_acc(Seq::empty(), cur) =~~= seq![cur]);
            assert(prev + seq![cur] =~~= lines_spec(s@));
        }
    } else {
        proof {
            assert(lines_acc(Seq::empty(), cur) =~~= Seq::<Seq<char>>::empty());
            assert(r.deep_view() + Seq::<Seq<char>>::empty() =~~= r.deep_view());
        }
    }
    r
}

/// `s` without leading whitespace.
pub open spec fn trim_front(s: Seq<char>) -> Seq<char>
    decreases s.len(),
{
    if s.len() == 0 {
        s
    } else if is_ws(s[0]) {
        trim_front(s.drop_first())
    } else {
        s
    }
}

/// `s` without trailing whitespace.
pub open spec fn trim_back(s: Seq<char>) -> Seq<char>
    decreases s.len(),
{
    if s.len() == 0 {
        s
    } else if is_ws(s.last()) {
        trim_back(s.drop_last())
    } else {
        s
    }
}

/// `s` without leading or trailing whitespace.
pub open spec fn trim_spec(s: Seq<char>) -> Seq<char> {
    trim_back(trim_front(s))
}

/// Trim leading and trailing whitespace.
pub fn trim_str(s: &str) -> (r: String)
    ensures
        r@ == trim_spec(s@),
{
    let len = s.unicode_len();
    let mut a: usize = 0;
    proof {
        assert(s@.subrange(0, len as int) =~= s@);
    }
    while a < len && is_ws_char(s.get_char(a))
        invariant
            len == s@.len(),
            a <= len,
            trim_front(s@) == trim_front(s@.subrange(a as int, len as int)),
        decreases len - a,
    {
        proof {
            assert(s@.subrange(a as int, len as int)[0] == s@[a as int]);
            assert(s@.subrange(a as int, len as int).drop_first() =~= s@.subrange(
                a + 1,
                len as int,
            ));
        }
        a += 1;
    }
    proof {
        if a == len {
            assert(s@.subrange(a as int, len as int) =~= Seq::<char>::empty());
        }
        assert(trim_front(s@) == s@.subrange(a as int, len as int));
    }
    let mut b: usize = len;
    while b > a && is_ws_char(s.get_char(b - 1))
        invariant
            len == s@.len(),
            a <= b <= len,
            trim_front(s@) == s@.subrange(a as int, len as int),
            trim_back(s@.subrange(a as int, len as int)) == trim_back(
                s@.subrange(a as int, b as int),
            ),
        decreases b,
    {
        proof {
            let part = s@.subrange(a as int, b as int);
            assert(part.last() == s@[b - 1]);
            assert(part.drop_last() =~= s@.subrange(a as int, b - 1));
        }
        b -= 1;
    }
    proof {
        if a == b {
            assert(s@.subrange(a as int, b as int) =~= Seq::<char>::empty());
        }
        assert(trim_spec(s@) == s@.subrange(a as int, b as int));
    }
    s.substring_char(a, b).to_owned()
}

/// The elements of `parts`, joined with the separator `sep`.
pub open spec fn join_sep_spec(parts: Seq<Seq<char>>, sep: Seq<char>) -> Seq<char>
    decreases parts.len(),
{
    if parts.len() == 0 {
        Seq::empty()
    } else if parts.len() == 1 {
        parts[0]
    } else {
        parts[0] + sep + join_sep_spec(parts.drop_first(), sep)
    }
}

/// The elements of `parts`, joined with a single space.
pub open spec fn join_space_spec(parts: Seq<Seq<char>>) -> Seq<char> {
    join_sep_spec(parts, seq![' '])
}

proof fn lemma_join_sep_push(parts: Seq<Seq<char>>, x: Seq<char>, sep: Seq<char>)
    requires
        parts.len() >= 1,
    ensures
        join_sep_spec(parts.push(x), sep) == join_sep_spec(parts, sep) + sep + x,
    decreases parts.len(),
{
    if parts.len() == 1 {
        assert(parts.push(x).drop_first() =~~= seq![x]);
        assert(parts.push(x)[0] == parts[0]);
        assert(join_sep_spec(seq![x], sep) == x);
    } else {
        lemma_join_sep_push(parts.drop_first(), x, sep);
        assert(parts.push(x).drop_first() =~~= parts.drop_first().push(x));
        assert(parts.push(x)[0] == parts[0]);
        assert(parts[0] + sep + (join_sep_spec(parts.drop_first(), sep) + sep + x) =~= (parts[0]
            + sep + join_sep_spec(parts.drop_first(), sep)) + sep + x);
    }
}

/// Join `v[from..to]` with the separator `sep`.
pub fn join_with(v: &Vec<String>, from: usize, to: usize, sep: &str) -> (r: String)
    requires
        from <= to <= v@.len(),
    ensures
        r@ == join_sep_spec(v.deep_view().subrange(from as int, to as int), sep@),
{
    let ghost dv = v.deep_view();
    if from == to {
        proof {
            assert(dv.subrange(from as int, to as int) =~~= Seq::<Seq<char>>::empty());
        }
        return String::new();
    }
    let mut r: String = v[from].clone();
    let mut k: usize = from + 1;
    proof {
        assert(dv.subrange(from as int, from + 1) =~~= seq![dv[from as int]]);
        assert(join_sep_spec(seq![dv[from as int]], sep@) == dv[from as int]);
        assert(dv[from as int] == v@[from as int]@);
    }
    while k < to
        invariant
            from < k <= to <= v@.len(),
            dv == v.deep_view(),
            r@ == join_sep_spec(dv.subrange(from as int, k as int), sep@),
        decreases to - k,
    {
        r.append(sep);
        r.append(v[k].as_str());
        proof {
            lemma_join_sep_push(dv.subrange(from as int, k as int), dv[k as int], sep@);
            assert(dv.subrange(from as int, k as int).push(dv[k as int]) =~~= dv.subrange(
                from as int,
                k + 1,
            ));
            assert(dv[k as int] == v@[k as int]@);
        }
        k += 1;
    }
    r
}

/// Join `v[from..to]` with single spaces.
pub fn join_space(v: &Vec<String>, from: usize, to: usize) -> (r: String)
    requires
        from <= to <= v@.len(),
    ensures
        r@ == join_space_spec(v.deep_view().subrange(from as int, to as int)),
{
    let r = join_with(v, from, to, " ");
    proof {
        reveal_strlit(" ");
        assert(" "@ =~= seq![' ']);
    }
    r
}

/// A decimal digit.
pub open spec fn is_digit(c: char) -> bool {
    48 <= c as u32 && c as u32 <= 57
}

/// The numeric value of a digit character.
pub open spec fn digit_val(c: char) -> nat {
    (c as u32 - 48) as nat
}

/// Every character of `s` is a decimal digit.
pub open spec fn all_digits(s: Seq<char>) -> bool {
    forall|i: int| 0 <= i < s.len() ==> is_digit(s[i])
}

/// The value of the digit string `s`, most significant digit first.
pub open spec fn digits_val(s: Seq<char>) -> nat
    decreases s.len(),
{
    if s.len() == 0 {
        0
    } else {
        digits_val(s.drop_last()) * 10 + digit_val(s.last())
    }
}

proof fn lemma_digits_val_mono(s: Seq<char>, k: int)
    requires
        0 <= k <= s.len(),
    ensures
        digits_val(s.subrange(0, k)) <= digits_val(s),
    decreases s.len() - k,
{
    if k == s.len() {
        assert(s.subrange(0, k) =~= s);
    } else {
        lemma_digits_val_mono(s, k + 1);
        let p = s.subrange(0, k + 1);
        assert(p.drop_last() =~= s.subrange(0, k));
        assert(digits_val(s.subrange(0, k)) <= digits_val(p));
    }
}

/// Parse a nonempty all-digit decimal string into a `u64`; `None` on an
/// empty string, a non-digit character, or overflow.
pub fn parse_u64(s: &str) -> (r: Option<u64>)
    ensures
        match r {
            Some(v) => s@.len() > 0 && all_digits(s@) && v == digits_val(s@),
            None => s@.len() == 0 || !all_digits(s@) || digits_val(s@) > u64::MAX,
        },
{
    let len = s.unicode_len();
    if len == 0 {
        return None;
    }
    let mut n: u64 = 0;
    let mut i: usize = 0;
    proof {
        assert(s@.subrange(0, 0) =~= Seq::<char>::empty());
    }
    while i < len
        invariant
            len == s@.len(),
            i <= len,
            all_digits(s@.subrange(0, i as int)),
            n == digits_val(s@.subrange(0, i as int)),
        decreases len - i,
    {
        let c = s.get_char(i);
        let u = c as u32;
        if u < 48 || u > 57 {
            assert(!is_digit(s@[i as int]));
            return None;
        }
        let d = (u - 48) as u64;
        let ghost pre = s@.subrange(0, i as int);
        let ghost post = s@.subrange(0, i + 1);
        proof {
            assert(post.drop_last() =~= pre);
            assert(post.last() == s@[i as int]);
            assert(digits_val(post) == digits_val(pre) * 10 + digit_val(s@[i as int]));
        }
        let m = match n.checked_mul(10) {
            Some(m) => m,
            None => {
                proof {
                    lemma_digits_val_mono(s@, i + 1);
                }
                return None;
            },
        };
        n = match m.checked_add(d) {
            Some(v) => v,
            None => {
                proof {
                    lemma_digits_val_mono(s@, i + 1);
                }
                return None;
            },
        };
        proof {
            assert(forall|j: int| 0 <= j < post.len() ==> is_digit(post[j]));
        }
        i += 1;
    }
    proof {
        assert(s@.subrange(0, len as int) =~= s@);
    }
    Some(n)
}

/// The decimal representation of `n`, most significant digit first.
pub open spec fn dec_of(n: nat) -> Seq<char>
    decreases n,
{
    if n < 10 {
        seq![digit_char(n)]
    } else {
        dec_of(n / 10).push(digit_char(n % 10))
    }
}

/// The digit character for a value below ten.
pub open spec fn digit_char(d: nat) -> char {
    if d == 0 {
        '0'
    } else if d == 1 {
        '1'
    } else if d == 2 {
        '2'
    } else if d == 3 {
        '3'
    } else if d == 4 {
        '4'
    } else if d == 5 {
        '5'
    } else if d == 6 {
        '6'
    } else if d == 7 {
        '7'
    } else if d == 8 {
        '8'
    } else {
        '9'
    }
}

fn digit_str(d: u64) -> (r: &'static str)
    requires
        d < 10,
    ensures
        r@ =~= seq![digit_char(d as nat)],
{
    if d == 0 {
        proof {
            reveal_strlit("0");
        }
        "0"
    } else if d == 1 {
        proof {
            reveal_strlit("1");
        }
        "1"
    } else if d == 2 {
        proof {
            reveal_strlit("2");
        }
        "2"
    } else if d == 3 {
        proof {
            reveal_strlit("3");
        }
        "3"
    } else if d == 4 {
        proof {
            reveal_strlit("4");
        }
        "4"
    } else if d == 5 {
        proof {
            reveal_strlit("5");
        }
        "5"
    } else if d == 6 {
        proof {
            reveal_strlit("6");
        }
        "6"
    } else if d == 7 {
        proof {
            reveal_strlit("7");
        }
        "7"
    } else if d == 8 {
        proof {
            reveal_strlit("8");
        }
        "8"
    } else {
        proof {
            reveal_strlit("9");
        }
        "9"
    }
}

/// Format `n` in decimal.
pub fn u64_to_dec(n: u64) -> (r: String)
    ensures
        r@ == dec_of(n as nat),
    decreases n,
{
    if n < 10 {
        digit_str(n).to_owned()
    } else {
        let mut r = u64_to_dec(n / 10);
        r.append(digit_str(n % 10));
        proof {
            assert(dec_of((n / 10) as nat) + seq![digit_char((n % 10) as nat)] =~= dec_of(
                (n / 10) as nat,
            ).push(digit_char((n % 10) as nat)));
        }
        r
    }
}

/// `p` is a prefix of `s`.
pub open spec fn starts_with_spec(s: Seq<char>, p: Seq<char>) -> bool {
    p.len() <= s.len() && s.subrange(0, p.len() as int) == p
}

/// Prefix test.
pub fn starts_with_str(s: &str, p: &str) -> (b: bool)
    ensures
        b == starts_with_spec(s@, p@),
{
    if p.unicode_len() > s.unicode_len() {
        return false;
    }
    matches_at(s, 0, p)
}

/// `s` with every leading `/dev/` prefix removed.
pub open spec fn strip_dev(s: Seq<char>) -> Seq<char>
    decreases s.len(),
{
    if starts_with_spec(s, "/dev/"@) && "/dev/"@.len() > 0 {
        strip_dev(s.subrange("/dev/"@.len() as int, s.len() as int))
    } else {
        s
    }
}

/// Remove every leading `/dev/` prefix.
pub fn strip_dev_prefix(s: &str) -> (r: String)
    ensures
        r@ == strip_dev(s@),
{
    proof {
        reveal_strlit("/dev/");
    }
    let mut cur = s.to_owned();
    while starts_with_str(cur.as_str(), "/dev/")
        invariant
            strip_dev(s@) == strip_dev(cur@),
            "/dev/"@.len() == 5,
        decreases cur@.len(),
    {
        let l = cur.as_str().unicode_len();
        cur = cur.as_str().substring_char(5, l).to_owned();
    }
    cur
}

/// `s` without trailing decimal digits.
pub open spec fn trim_digits_back(s: Seq<char>) -> Seq<char>
    decreases s.len(),
{
    if s.len() == 0 {
        s
    } else if is_digit(s.last()) {
        trim_digits_back(s.drop_last())
    } else {
        s
    }
}

/// Trim trailing decimal digits (a partition path back to its disk path).
pub fn trim_trailing_digits(s: &str) -> (r: String)
    ensures
        r@ == trim_digits_back(s@),
{
    let len = s.unicode_len();
    let mut b: usize = len;
    proof {
        assert(s@.subrange(0, len as int) =~= s@);
    }
    while b > 0 && is_digit_char(s.get_char(b - 1))
        invariant
            len == s@.len(),
            b <= len,
            trim_digits_back(s@) == trim_digits_back(s@.subrange(0, b as int)),
        decreases b,
    {
        proof {
            let part = s@.subrange(0, b as int);
            assert(part.last() == s@[b - 1]);
            assert(part.drop_last() =~= s@.subrange(0, b - 1));
        }
        b -= 1;
    }
    proof {
        if b == 0 {
            assert(s@.subrange(0, 0) =~= Seq::<char>::empty());
        }
        assert(trim_digits_back(s@) == s@.subrange(0, b as int));
    }
    s.substring_char(0, b).to_owned()
}

/// Runtime check matching `is_digit`.
pub fn is_digit_char(c: char) -> (b: bool)
    ensures
        b == is_digit(c),
{
    let u = c as u32;
    48 <= u && u <= 57
}

} // verus!

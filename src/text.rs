//! Character-level reading of utility output: whitespace-separated tokens
//! and unsigned decimal numbers.
use vstd::prelude::*;

verus! {

/// The characters that `char::is_whitespace` accepts (Unicode White_Space).
pub open spec fn is_space(c: char) -> bool {
    let u = c as u32;
    (0x09 <= u && u <= 0x0D) || u == 0x20 || u == 0x85 || u == 0xA0 || u == 0x1680 || (0x2000
        <= u && u <= 0x200A) || u == 0x2028 || u == 0x2029 || u == 0x202F || u == 0x205F || u
        == 0x3000
}

pub fn is_space_char(c: char) -> (r: bool)
    ensures
        r == is_space(c),
{
    let u = c as u32;
    (0x09 <= u && u <= 0x0D) || u == 0x20 || u == 0x85 || u == 0xA0 || u == 0x1680 || (0x2000
        <= u && u <= 0x200A) || u == 0x2028 || u == 0x2029 || u == 0x202F || u == 0x205F || u
        == 0x3000
}

/// The maximal runs of non-whitespace characters of `s`, in order
/// (what `str::split_whitespace` yields).
pub open spec fn tokens(s: Seq<char>) -> Seq<Seq<char>>
    decreases s.len(),
{
    if s.len() == 0 {
        Seq::empty()
    } else {
        let prev = tokens(s.drop_last());
        let c = s.last();
        if is_space(c) {
            prev
        } else if s.len() >= 2 && !is_space(s[s.len() - 2]) {
            prev.update(prev.len() - 1, prev.last().push(c))
        } else {
            prev.push(seq![c])
        }
    }
}

pub open spec fn views_of(v: Seq<Vec<char>>) -> Seq<Seq<char>> {
    Seq::new(v.len(), |i: int| v[i]@)
}

/// The characters of a string slice.
pub fn chars_of(s: &str) -> (r: Vec<char>)
    ensures
        r@ == s@,
{
    let n = s.unicode_len();
    let mut r: Vec<char> = Vec::new();
    let mut i: usize = 0;
    while i < n
        invariant
            n == s@.len(),
            i <= n,
            r@ == s@.take(i as int),
        decreases n - i,
    {
        let c = s.get_char(i);
        r.push(c);
        i = i + 1;
        assert(r@ =~= s@.take(i as int));
    }
    assert(r@ =~= s@);
    r
}

/// Splits `s` at whitespace, as `str::split_whitespace` does.
pub fn split_tokens(s: &Vec<char>) -> (r: Vec<Vec<char>>)
    ensures
        views_of(r@) == tokens(s@),
{
    let n = s.len();
    let mut done: Vec<Vec<char>> = Vec::new();
    let mut cur: Vec<char> = Vec::new();
    let mut i: usize = 0;
    while i < n
        invariant
            n == s@.len(),
            i <= n,
            cur@.len() > 0 <==> (i > 0 && !is_space(s@[i - 1])),
            tokens(s@.take(i as int)) == if cur@.len() > 0 {
                views_of(done@).push(cur@)
            } else {
                views_of(done@)
            },
        decreases n - i,
    {
        let c = s[i];
        let ghost before = views_of(done@);
        proof {
            assert(s@.take(i + 1).drop_last() =~= s@.take(i as int));
            assert(s@.take(i + 1).last() == c);
            if i > 0 {
                assert(s@.take(i + 1)[i - 1] == s@[i - 1]);
            }
        }
        if is_space_char(c) {
            if cur.len() > 0 {
                let t = cur;
                cur = Vec::new();
                done.push(t);
                assert(views_of(done@) =~= before.push(t@));
            }
        } else {
            let ghost old_cur = cur@;
            cur.push(c);
            proof {
                if old_cur.len() > 0 {
                    assert(before.push(old_cur).update(before.len() as int, old_cur.push(c))
                        =~= before.push(cur@));
                } else {
                    assert(cur@ =~= seq![c]);
                }
            }
        }
        i = i + 1;
    }
    assert(s@.take(n as int) =~= s@);
    if cur.len() > 0 {
        let ghost before = views_of(done@);
        let t = cur;
        done.push(t);
        assert(views_of(done@) =~= before.push(t@));
    }
    done
}

pub open spec fn is_digit(c: char) -> bool {
    48 <= c as u32 && c as u32 <= 57
}

pub open spec fn digit_of(c: char) -> nat {
    if is_digit(c) {
        (c as u32 - 48) as nat
    } else {
        0
    }
}

pub open spec fn all_digits(s: Seq<char>) -> bool {
    forall|i: int| 0 <= i < s.len() ==> is_digit(#[trigger] s[i])
}

/// The value of a string of decimal digits, most significant first.
pub open spec fn digits_value(s: Seq<char>) -> nat
    decreases s.len(),
{
    if s.len() == 0 {
        0
    } else {
        digits_value(s.drop_last()) * 10 + digit_of(s.last())
    }
}

/// What `str::parse` gives for an unsigned integer type, before the bound
/// of the type is applied: an optional `+`, then one or more decimal digits.
pub open spec fn unsigned_of(s: Seq<char>) -> Option<nat> {
    let d = if s.len() > 0 && s[0] == '+' {
        s.drop_first()
    } else {
        s
    };
    if d.len() > 0 && all_digits(d) {
        Some(digits_value(d))
    } else {
        None
    }
}

/// `unsigned_of`, for an integer type whose largest value is `max`.
pub open spec fn unsigned_within(s: Seq<char>, max: nat) -> Option<nat> {
    match unsigned_of(s) {
        Some(v) => if v <= max {
            Some(v)
        } else {
            None
        },
        None => None,
    }
}

/// A number of milliseconds held to the range of `u64`.
pub open spec fn clamp_u64(v: nat) -> u64 {
    if v > u64::MAX {
        u64::MAX
    } else {
        v as u64
    }
}

/// The length of the run of digits that `s` starts with.
pub open spec fn lead_digits(s: Seq<char>) -> nat
    decreases s.len(),
{
    if all_digits(s) {
        s.len()
    } else {
        lead_digits(s.drop_last())
    }
}

/// One when the first digit after the point asks for rounding up, else zero.
pub open spec fn round_up(frac: Seq<char>) -> nat {
    if frac.len() > 0 && frac[0] as u32 >= 53 {
        1
    } else {
        0
    }
}

/// A latency written as an unsigned decimal (`12`, `12.345`, `12.`, `.5`),
/// rounded to whole milliseconds, halves away from zero, held to `u64`.
pub open spec fn decimal_ms(s: Seq<char>) -> Option<u64> {
    let k = lead_digits(s) as int;
    let frac = s.skip(k + 1 as int);
    if k == s.len() {
        if k > 0 {
            Some(clamp_u64(digits_value(s)))
        } else {
            None
        }
    } else if s[k] == '.' && all_digits(frac) && (k > 0 || frac.len() > 0) {
        Some(clamp_u64(digits_value(s.take(k)) + round_up(frac)))
    } else {
        None
    }
}

proof fn lemma_digits_value_prefix(s: Seq<char>, j: int)
    requires
        0 <= j <= s.len(),
    ensures
        digits_value(s.take(j)) <= digits_value(s),
    decreases s.len(),
{
    if j < s.len() {
        lemma_digits_value_prefix(s.drop_last(), j);
        assert(s.drop_last().take(j) =~= s.take(j));
    } else {
        assert(s.take(j) =~= s);
    }
}

proof fn lemma_lead_digits(s: Seq<char>, k: int)
    requires
        0 <= k <= s.len(),
        all_digits(s.take(k)),
        k == s.len() || !is_digit(s[k]),
    ensures
        lead_digits(s) == k,
    decreases s.len(),
{
    if all_digits(s) {
        if k < s.len() {
            assert(is_digit(s[k]));
        }
    } else {
        if k == s.len() {
            assert(s.take(k) =~= s);
        }
        assert(s.drop_last().take(k) =~= s.take(k));
        lemma_lead_digits(s.drop_last(), k);
    }
}

pub fn is_digit_char(c: char) -> (r: bool)
    ensures
        r == is_digit(c),
{
    let u = c as u32;
    48 <= u && u <= 57
}

/// Reads an unsigned integer as `str::parse` does for a type whose largest
/// value is `max`.
pub fn parse_unsigned(s: &Vec<char>, max: u64) -> (r: Option<u64>)
    ensures
        r is Some <==> unsigned_within(s@, max as nat) is Some,
        r is Some ==> r->0 as nat == unsigned_within(s@, max as nat)->0,
{
    let n = s.len();
    let st: usize = if n > 0 && s[0] == '+' {
        1
    } else {
        0
    };
    let ghost d = s@.skip(st as int);
    assert(st == 1 ==> d =~= s@.drop_first());
    assert(st == 0 ==> d =~= s@);
    assert(unsigned_of(s@) == if d.len() > 0 && all_digits(d) {
        Some(digits_value(d))
    } else {
        None::<nat>
    });
    if st == n {
        return None;
    }
    let mut acc: u64 = 0;
    let mut i: usize = st;
    while i < n
        invariant
            st <= i <= n,
            n == s@.len(),
            d == s@.skip(st as int),
            d.len() > 0,
            unsigned_of(s@) == if all_digits(d) {
                Some(digits_value(d))
            } else {
                None::<nat>
            },
            all_digits(d.take(i - st)),
            acc as nat == digits_value(d.take(i - st)),
            acc <= max,
        decreases n - i,
    {
        let c = s[i];
        assert(d[i - st] == c);
        if !is_digit_char(c) {
            assert(!all_digits(d));
            return None;
        }
        let dv = (c as u32 - 48) as u64;
        assert(d.take(i - st + 1).drop_last() =~= d.take(i - st));
        assert(d.take(i - st + 1).last() == c);
        assert(digits_value(d.take(i - st + 1)) == acc * 10 + dv);
        if dv > max || acc > (max - dv) / 10 {
            proof {
                assert(acc * 10 + dv > max) by (nonlinear_arith)
                    requires
                        dv > max || acc > (max - dv) / 10,
                ;
                lemma_digits_value_prefix(d, i - st + 1);
            }
            return None;
        }
        proof {
            assert(acc * 10 + dv <= max) by (nonlinear_arith)
                requires
                    acc <= (max - dv) / 10,
                    dv <= 9,
                    max >= dv,
            ;
        }
        acc = acc * 10 + dv;
        i = i + 1;
        assert(all_digits(d.take(i - st)));
    }
    assert(d.take(n - st) =~= d);
    Some(acc)
}

/// Reads a latency in milliseconds written as an unsigned decimal.
pub fn parse_decimal_ms(s: &Vec<char>) -> (r: Option<u64>)
    ensures
        r == decimal_ms(s@),
{
    let n = s.len();
    let mut acc: u64 = 0;
    let mut i: usize = 0;
    while i < n && is_digit_char(s[i])
        invariant
            i <= n,
            n == s@.len(),
            all_digits(s@.take(i as int)),
            acc == clamp_u64(digits_value(s@.take(i as int))),
        decreases n - i,
    {
        let c = s[i];
        let dv = (c as u32 - 48) as u64;
        let ghost v = digits_value(s@.take(i as int));
        assert(s@.take(i + 1).drop_last() =~= s@.take(i as int));
        assert(s@.take(i + 1).last() == c);
        assert(digits_value(s@.take(i + 1)) == v * 10 + dv);
        if acc == u64::MAX || acc > (u64::MAX - dv) / 10 {
            proof {
                assert(v * 10 + dv >= u64::MAX) by (nonlinear_arith)
                    requires
                        (acc == u64::MAX && v >= u64::MAX) || (acc == v && acc > (u64::MAX - dv)
                            / 10),
                        dv <= 9,
                ;
            }
            acc = u64::MAX;
        } else {
            proof {
                assert(v * 10 + dv <= u64::MAX) by (nonlinear_arith)
                    requires
                        acc == v,
                        acc <= (u64::MAX - dv) / 10,
                        dv <= 9,
                ;
            }
            acc = acc * 10 + dv;
        }
        i = i + 1;
        assert(all_digits(s@.take(i as int)));
    }
    let k = i;
    proof {
        lemma_lead_digits(s@, k as int);
    }
    if k == n {
        assert(s@.take(n as int) =~= s@);
        if n > 0 {
            return Some(acc);
        } else {
            return None;
        }
    }
    if s[k] != '.' {
        return None;
    }
    let ghost frac = s@.skip(k + 1);
    let mut j: usize = k + 1;
    while j < n
        invariant
            k < j <= n,
            n == s@.len(),
            frac == s@.skip(k + 1),
            s@[k as int] == '.',
            lead_digits(s@) == k,
            acc == clamp_u64(digits_value(s@.take(k as int))),
            all_digits(frac.take(j - k - 1)),
        decreases n - j,
    {
        assert(frac[j - k - 1] == s@[j as int]);
        if !is_digit_char(s[j]) {
            assert(!all_digits(frac));
            return None;
        }
        j = j + 1;
        assert(all_digits(frac.take(j - k - 1)));
    }
    assert(frac.take(n - k - 1) =~= frac);
    if k == 0 && k + 1 == n {
        return None;
    }
    if k + 1 < n && s[k + 1] as u32 >= 53 {
        assert(frac[0] == s@[k + 1]);
        if acc == u64::MAX {
            Some(acc)
        } else {
            Some(acc + 1)
        }
    } else {
        if k + 1 < n {
            assert(frac[0] == s@[k + 1]);
        }
        Some(acc)
    }
}

/// Whether `pat` occurs in `s` at position `k`.
pub open spec fn occurs_at(s: Seq<char>, pat: Seq<char>, k: int) -> bool {
    0 <= k && k + pat.len() <= s.len() && s.subrange(k, k + pat.len()) == pat
}

pub open spec fn contains(s: Seq<char>, pat: Seq<char>) -> bool {
    exists|k: int| occurs_at(s, pat, k)
}

/// Whether `pat` occurs in `s` as a run of consecutive characters.
pub fn contains_chars(s: &Vec<char>, pat: &Vec<char>) -> (r: bool)
    ensures
        r == contains(s@, pat@),
{
    let n = s.len();
    let m = pat.len();
    if m > n {
        assert forall|k: int| !occurs_at(s@, pat@, k) by {}
        return false;
    }
    let mut k: usize = 0;
    while k <= n - m
        invariant
            n == s@.len(),
            m == pat@.len(),
            m <= n,
            k <= n - m + 1,
            forall|q: int| 0 <= q < k ==> !occurs_at(s@, pat@, q),
        decreases n - k + 1,
    {
        let mut j: usize = 0;
        let mut same = true;
        while j < m
            invariant
                n == s@.len(),
                m == pat@.len(),
                k + m <= n,
                j <= m,
                same == (forall|t: int| 0 <= t < j ==> s@[k + t] == pat@[t]),
            decreases m - j,
        {
            if s[k + j] != pat[j] {
                same = false;
            }
            j = j + 1;
        }
        if same {
            assert(s@.subrange(k as int, k + m) =~= pat@);
            assert(occurs_at(s@, pat@, k as int));
            return true;
        }
        assert(!occurs_at(s@, pat@, k as int)) by {
            let t = choose|t: int| 0 <= t < m && s@[k + t] != pat@[t];
            assert(s@.subrange(k as int, k + m)[t] == s@[k + t]);
        }
        k = k + 1;
    }
    assert forall|q: int| !occurs_at(s@, pat@, q) by {
        if q >= k {
            assert(q + m > n);
        }
    }
    false
}

/// The characters of `v` from `lo` up to `hi`.
pub fn copy_range(v: &Vec<char>, lo: usize, hi: usize) -> (r: Vec<char>)
    requires
        lo <= hi <= v@.len(),
    ensures
        r@ == v@.subrange(lo as int, hi as int),
{
    let mut r: Vec<char> = Vec::new();
    let mut i: usize = lo;
    while i < hi
        invariant
            lo <= i <= hi,
            hi <= v@.len(),
            r@ == v@.subrange(lo as int, i as int),
        decreases hi - i,
    {
        r.push(v[i]);
        i = i + 1;
        assert(r@ =~= v@.subrange(lo as int, i as int));
    }
    r
}

/// Relies on `String`'s `FromIterator<&char>`: the string holds the given
/// characters, in order.
#[verifier::external_body]
pub(crate) fn string_from_chars(v: &Vec<char>) -> (r: String)
    ensures
        r@ == v@,
{
    v.iter().collect()
}

} // verus!

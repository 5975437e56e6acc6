//! Text helpers shared by the decoders: comparison, quote stripping, the
//! edition marker of lazily minted tokens, and decimal amounts.

use vstd::prelude::*;

verus! {

/// `String::push` appends the given character to the end of the string.
pub assume_specification[ String::push ](s: &mut String, c: char)
    ensures
        final(s)@ == old(s)@.push(c),
;

/// Whether two pieces of text hold the same characters.
pub fn same_text(a: &str, b: &str) -> (r: bool)
    ensures
        r == (a@ == b@),
{
    String::from_str(a) == String::from_str(b)
}

/// The characters of an optional string.
pub open spec fn text_view(s: Option<String>) -> Option<Seq<char>> {
    match s {
        Some(t) => Some(t@),
        None => None,
    }
}

/// A copy of an optional string.
pub fn clone_text(s: &Option<String>) -> (r: Option<String>)
    ensures
        text_view(r) == text_view(*s),
{
    match s {
        Some(t) => Some(t.clone()),
        None => None,
    }
}

/// The text with every double quote taken out.
pub open spec fn without_quotes(s: Seq<char>) -> Seq<char> {
    s.filter(|c: char| c != '"')
}

/// Removes every double quote from `s` and keeps all other characters in
/// their order.
pub fn strip_quotes(s: &str) -> (r: String)
    ensures
        r@ == without_quotes(s@),
{
    let mut out = String::new();
    for c in iter: s.chars()
        invariant
            iter.seq() == s@,
            out@ == without_quotes(s@.take(iter.index())),
    {
        proof {
            reveal(Seq::filter);
            assert(s@.take(iter.index() + 1).drop_last() == s@.take(iter.index()));
        }
        if c != '"' {
            out.push(c);
        }
    }
    proof {
        assert(s@.take(s@.len() as int) == s@);
    }
    out
}

/// Stripping quotes twice is the same as stripping them once.
pub proof fn lemma_strip_quotes_idempotent(s: Seq<char>)
    ensures
        without_quotes(without_quotes(s)) == without_quotes(s),
    decreases s.len(),
{
    reveal(Seq::filter);
    if s.len() > 0 {
        lemma_strip_quotes_idempotent(s.drop_last());
        let inner = without_quotes(s.drop_last());
        if s.last() != '"' {
            assert(inner.push(s.last()).drop_last() == inner);
        }
    }
}

/// The edition marker `_0` stands at position `i` of `s`.
pub open spec fn marker_at(s: Seq<char>, i: int) -> bool {
    &&& 0 <= i
    &&& i + 1 < s.len()
    &&& s[i] == '_'
    &&& s[i + 1] == '0'
}

/// The greatest position below `n` at which the edition marker stands.
pub open spec fn last_marker(s: Seq<char>, n: int) -> Option<int>
    decreases n,
{
    if n <= 0 {
        None
    } else if marker_at(s, n - 1) {
        Some(n - 1)
    } else {
        last_marker(s, n - 1)
    }
}

/// What precedes the last edition marker of a template token id, if the id
/// holds one.
pub open spec fn edition_base(s: Seq<char>) -> Option<Seq<char>> {
    match last_marker(s, s.len() as int) {
        Some(i) => Some(s.take(i)),
        None => None,
    }
}

/// `last_marker` finds a marker exactly when one stands below `n`, and the
/// one it finds is the greatest.
pub proof fn lemma_last_marker(s: Seq<char>, n: int)
    ensures
        last_marker(s, n) is None <==> forall|i: int| i < n ==> !marker_at(s, i),
        last_marker(s, n) matches Some(i) ==> i < n && marker_at(s, i) && forall|j: int|
            i < j < n ==> !marker_at(s, j),
    decreases n,
{
    if n > 0 {
        lemma_last_marker(s, n - 1);
    }
}

/// Splits a template token id at its last `_0` and returns what stands
/// before it; `None` when the id holds no `_0`.
pub fn template_base(s: &str) -> (r: Option<String>)
    ensures
        r is Some <==> edition_base(s@) is Some,
        r matches Some(b) ==> edition_base(s@) == Some(b@),
        r is None <==> forall|i: int| !marker_at(s@, i),
        r matches Some(b) ==> exists|i: int|
            marker_at(s@, i) && b@ == s@.take(i) && forall|j: int| i < j ==> !marker_at(s@, j),
{
    let n = s.unicode_len();
    let mut found: Option<usize> = None;
    let mut k: usize = 0;
    let mut prev: char = ' ';
    for c in iter: s.chars()
        invariant
            iter.seq() == s@,
            n == s@.len(),
            k == iter.index(),
            k <= n,
            k > 0 ==> prev == s@[k - 1],
            match found {
                Some(i) => last_marker(s@, k - 1) == Some(i as int),
                None => last_marker(s@, k - 1) is None,
            },
    {
        if k > 0 && prev == '_' && c == '0' {
            found = Some(k - 1);
        }
        prev = c;
        k = k + 1;
    }
    proof {
        assert(!marker_at(s@, n - 1));
        lemma_last_marker(s@, n as int);
        assert(forall|i: int| i >= n ==> !marker_at(s@, i));
    }
    match found {
        Some(i) => {
            proof {
                assert(marker_at(s@, i as int) && forall|j: int| i < j ==> !marker_at(s@, j));
            }
            Some(String::from_str(s.substring_char(0, i)))
        },
        None => None,
    }
}

/// The character is a decimal digit.
pub open spec fn is_digit(c: char) -> bool {
    '0' <= c <= '9'
}

/// Every character of `s` is a decimal digit.
pub open spec fn all_digits(s: Seq<char>) -> bool {
    forall|i: int| 0 <= i < s.len() ==> is_digit(#[trigger] s[i])
}

/// The number that a run of decimal digits writes.
pub open spec fn digits_value(s: Seq<char>) -> nat
    decreases s.len(),
{
    if s.len() == 0 {
        0
    } else {
        digits_value(s.drop_last()) * 10 + (s.last() as nat - '0' as nat) as nat
    }
}

/// The value of a non-empty run of decimal digits that fits in 128 bits.
pub open spec fn decimal(s: Seq<char>) -> Option<u128> {
    if s.len() > 0 && all_digits(s) && digits_value(s) <= u128::MAX {
        Some(digits_value(s) as u128)
    } else {
        None
    }
}

/// The value of an amount: a run of decimal digits, with one `+` in front
/// of it or none.
pub open spec fn amount(s: Seq<char>) -> Option<u128> {
    if s.len() > 0 && s[0] == '+' {
        decimal(s.drop_first())
    } else {
        decimal(s)
    }
}

/// A prefix of a run of digits is a run of digits and writes no greater a
/// number.
pub proof fn lemma_digits_prefix(s: Seq<char>, k: int)
    requires
        all_digits(s),
        0 <= k <= s.len(),
    ensures
        all_digits(s.take(k)),
        digits_value(s.take(k)) <= digits_value(s),
    decreases s.len() - k,
{
    if k == s.len() {
        assert(s.take(k) == s);
    } else {
        assert(all_digits(s.drop_last()));
        lemma_digits_prefix(s.drop_last(), k);
        assert(s.drop_last().take(k) == s.take(k));
    }
}

/// Reads the digits of `s` from position `from` on.
fn digits_from(s: &str, from: usize) -> (r: Option<u128>)
    requires
        from <= s@.len(),
    ensures
        r == decimal(s@.skip(from as int)),
{
    let n = s.unicode_len();
    let ghost body = s@.skip(from as int);
    let mut acc: u128 = 0;
    let mut ok: bool = true;
    let mut k: usize = 0;
    for c in iter: s.chars()
        invariant
            iter.seq() == s@,
            n == s@.len(),
            from <= n,
            body == s@.skip(from as int),
            k == iter.index(),
            k <= n,
            ok && k >= from ==> all_digits(body.take(k - from)) && digits_value(body.take(k - from))
                == acc,
            ok && k < from ==> acc == 0,
            !ok ==> from <= k && !(all_digits(body.take(k - from)) && digits_value(
                body.take(k - from),
            ) <= u128::MAX),
    {
        if k >= from {
            proof {
                assert(body.take(k + 1 - from).drop_last() == body.take(k - from));
                assert(body.take(k + 1 - from).last() == c);
                if !ok && all_digits(body.take(k + 1 - from)) {
                    lemma_digits_prefix(body.take(k + 1 - from), k - from);
                    assert(body.take(k + 1 - from).take(k - from) == body.take(k - from));
                }
            }
            if ok {
                if '0' <= c && c <= '9' {
                    let d: u128 = (c as u32 - '0' as u32) as u128;
                    match acc.checked_mul(10) {
                        Some(m) => match m.checked_add(d) {
                            Some(v) => {
                                acc = v;
                            },
                            None => {
                                ok = false;
                            },
                        },
                        None => {
                            ok = false;
                        },
                    }
                } else {
                    ok = false;
                    proof {
                        assert(!is_digit(body.take(k + 1 - from)[k - from]));
                    }
                }
            }
        }
        k = k + 1;
    }
    proof {
        assert(body.take(n - from) == body);
    }
    if ok && n > from {
        Some(acc)
    } else {
        None
    }
}

/// Reads a non-empty run of decimal digits; `None` when `s` is empty, holds
/// anything but digits, or writes a number above `u128::MAX`.
pub fn parse_decimal(s: &str) -> (r: Option<u128>)
    ensures
        r == decimal(s@),
{
    proof {
        assert(s@.skip(0) == s@);
    }
    digits_from(s, 0)
}

/// Reads an amount: decimal digits, with one `+` in front of them or none.
pub fn parse_amount(s: &str) -> (r: Option<u128>)
    ensures
        r == amount(s@),
{
    let n = s.unicode_len();
    if n > 0 && s.get_char(0) == '+' {
        proof {
            assert(s@.skip(1) == s@.drop_first());
        }
        digits_from(s, 1)
    } else {
        parse_decimal(s)
    }
}

} // verus!

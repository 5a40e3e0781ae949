//! Text helpers shared by the library: decimal and hexadecimal rendering,
//! decimal parsing, prefix tests and the search for a unique separator.
use vstd::prelude::*;

verus! {

/// The character of a decimal digit.
pub open spec fn digit_char(d: nat) -> char {
    if d == 0 { '0' }
    else if d == 1 { '1' }
    else if d == 2 { '2' }
    else if d == 3 { '3' }
    else if d == 4 { '4' }
    else if d == 5 { '5' }
    else if d == 6 { '6' }
    else if d == 7 { '7' }
    else if d == 8 { '8' }
    else { '9' }
}

/// The character of a hexadecimal digit, lower case.
pub open spec fn hex_char(d: nat) -> char {
    if d < 10 { digit_char(d) }
    else if d == 10 { 'a' }
    else if d == 11 { 'b' }
    else if d == 12 { 'c' }
    else if d == 13 { 'd' }
    else if d == 14 { 'e' }
    else { 'f' }
}

/// Decimal digits of a natural number, without leading zeros.
pub open spec fn nat_str(n: nat) -> Seq<char>
    decreases n,
{
    if n < 10 {
        seq![digit_char(n)]
    } else {
        nat_str(n / 10).push(digit_char(n % 10))
    }
}

/// Lower-case hexadecimal digits of a natural number, without leading zeros.
pub open spec fn nat_hex_str(n: nat) -> Seq<char>
    decreases n,
{
    if n < 16 {
        seq![hex_char(n)]
    } else {
        nat_hex_str(n / 16).push(hex_char(n % 16))
    }
}

/// Decimal rendering of an integer, with a leading '-' for negative values.
pub open spec fn int_str(n: int) -> Seq<char> {
    if n < 0 {
        seq!['-'] + nat_str((-n) as nat)
    } else {
        nat_str(n as nat)
    }
}

/// Two lower-case hexadecimal characters per byte.
pub open spec fn hex_str(bytes: Seq<u8>) -> Seq<char>
    decreases bytes.len(),
{
    if bytes.len() == 0 {
        seq![]
    } else {
        hex_str(bytes.drop_last()) + seq![
            hex_char((bytes.last() / 16) as nat),
            hex_char((bytes.last() % 16) as nat),
        ]
    }
}

pub open spec fn is_digit(c: char) -> bool {
    '0' <= c && c <= '9'
}

pub open spec fn all_digits(s: Seq<char>) -> bool {
    forall|i: int| 0 <= i < s.len() ==> is_digit(#[trigger] s[i])
}

/// The value of a string of decimal digits.
pub open spec fn digits_value(s: Seq<char>) -> nat
    decreases s.len(),
{
    if s.len() == 0 {
        0
    } else {
        digits_value(s.drop_last()) * 10 + ((s.last() as u32) - ('0' as u32)) as nat
    }
}

/// What parsing a decimal `i64` gives: an optional sign, then one or more
/// decimal digits, and a value within the range of `i64`.
pub open spec fn parse_i64_spec(s: Seq<char>) -> Option<i64> {
    let neg = s.len() > 0 && s[0] == '-';
    let signed = s.len() > 0 && (s[0] == '-' || s[0] == '+');
    let digits = if signed { s.skip(1) } else { s };
    if digits.len() == 0 || !all_digits(digits) {
        None
    } else {
        let v: int = if neg { -(digits_value(digits) as int) } else { digits_value(digits) as int };
        if i64::MIN <= v <= i64::MAX {
            Some(v as i64)
        } else {
            None
        }
    }
}

/// `pat` occurs in `s` starting at index `i`.
pub open spec fn occurs_at(s: Seq<char>, pat: Seq<char>, i: int) -> bool {
    0 <= i && i + pat.len() <= s.len() && s.subrange(i, i + pat.len()) == pat
}

/// `pat` occurs in `s` at exactly one position, and that position is `i`.
pub open spec fn occurs_only_at(s: Seq<char>, pat: Seq<char>, i: int) -> bool {
    occurs_at(s, pat, i) && forall|j: int| #[trigger] occurs_at(s, pat, j) ==> j == i
}

/// Splitting `s` at its only occurrence of `pat`: the text before and the text after.
/// `None` when `pat` does not occur exactly once.
pub open spec fn split_unique_spec(s: Seq<char>, pat: Seq<char>) -> Option<(Seq<char>, Seq<char>)> {
    if exists|i: int| occurs_only_at(s, pat, i) {
        let i = choose|i: int| occurs_only_at(s, pat, i);
        Some((s.take(i), s.skip(i + pat.len())))
    } else {
        None
    }
}

/// What `str::to_uppercase` gives for a text.
pub uninterp spec fn upper_spec(s: Seq<char>) -> Seq<char>;

/// What `str::to_lowercase` gives for a text.
pub uninterp spec fn lower_spec(s: Seq<char>) -> Seq<char>;

/// Upper-casing through `str::to_uppercase`; the result is the named mapping of the text.
#[verifier::external_body]
pub(crate) fn to_upper(s: &str) -> (r: String)
    ensures
        r@ == upper_spec(s@),
{
    s.to_uppercase()
}

/// Lower-casing through `str::to_lowercase`; the result is the named mapping of the text.
#[verifier::external_body]
pub(crate) fn to_lower(s: &str) -> (r: String)
    ensures
        r@ == lower_spec(s@),
{
    s.to_lowercase()
}

/// The literal of one decimal or hexadecimal digit.
fn hex_digit_str(d: u8) -> (r: &'static str)
    requires
        d < 16,
    ensures
        r@ == seq![hex_char(d as nat)],
{
    match d {
        0 => { proof { reveal_strlit("0"); } "0" }
        1 => { proof { reveal_strlit("1"); } "1" }
        2 => { proof { reveal_strlit("2"); } "2" }
        3 => { proof { reveal_strlit("3"); } "3" }
        4 => { proof { reveal_strlit("4"); } "4" }
        5 => { proof { reveal_strlit("5"); } "5" }
        6 => { proof { reveal_strlit("6"); } "6" }
        7 => { proof { reveal_strlit("7"); } "7" }
        8 => { proof { reveal_strlit("8"); } "8" }
        9 => { proof { reveal_strlit("9"); } "9" }
        10 => { proof { reveal_strlit("a"); } "a" }
        11 => { proof { reveal_strlit("b"); } "b" }
        12 => { proof { reveal_strlit("c"); } "c" }
        13 => { proof { reveal_strlit("d"); } "d" }
        14 => { proof { reveal_strlit("e"); } "e" }
        _ => { proof { reveal_strlit("f"); } "f" }
    }
}

/// Appends the decimal digits of `n`.
pub fn push_u64(s: &mut String, n: u64)
    ensures
        final(s)@ == old(s)@ + nat_str(n as nat),
    decreases n,
{
    if n >= 10 {
        push_u64(s, n / 10);
    }
    let d = (n % 10) as u8;
    s.append(hex_digit_str(d));
    proof {
        assert(nat_str(n as nat) == if n < 10 { seq![digit_char(n as nat)] } else {
            nat_str((n / 10) as nat).push(digit_char((n % 10) as nat))
        });
    }
}

/// Appends the lower-case hexadecimal digits of `n`.
pub fn push_hex_u128(s: &mut String, n: u128)
    ensures
        final(s)@ == old(s)@ + nat_hex_str(n as nat),
    decreases n,
{
    if n >= 16 {
        push_hex_u128(s, n / 16);
    }
    let d = (n % 16) as u8;
    s.append(hex_digit_str(d));
    proof {
        assert(nat_hex_str(n as nat) == if n < 16 { seq![hex_char(n as nat)] } else {
            nat_hex_str((n / 16) as nat).push(hex_char((n % 16) as nat))
        });
    }
}

/// Appends the decimal rendering of `n`.
pub fn push_i64(s: &mut String, n: i64)
    ensures
        final(s)@ == old(s)@ + int_str(n as int),
{
    if n < 0 {
        proof { reveal_strlit("-"); }
        s.append("-");
        let m: u64 = if n == i64::MIN { 9223372036854775808u64 } else { (-n) as u64 };
        push_u64(s, m);
        assert(final(s)@ =~= old(s)@ + int_str(n as int)) by {
            assert(old(s)@ + seq!['-'] + nat_str(m as nat) =~= old(s)@ + (seq!['-'] + nat_str(m as nat)));
        }
    } else {
        push_u64(s, n as u64);
    }
}

/// The decimal rendering of an `i64`.
pub fn i64_to_string(n: i64) -> (r: String)
    ensures
        r@ == int_str(n as int),
{
    let mut s = String::new();
    push_i64(&mut s, n);
    assert(s@ =~= int_str(n as int));
    s
}

/// The decimal rendering of a `u64`.
pub fn u64_to_string(n: u64) -> (r: String)
    ensures
        r@ == nat_str(n as nat),
{
    let mut s = String::new();
    push_u64(&mut s, n);
    assert(s@ =~= nat_str(n as nat));
    s
}

/// Lower-case hexadecimal rendering, two characters per byte.
pub fn to_hex(bytes: &[u8]) -> (r: String)
    ensures
        r@ == hex_str(bytes@),
        r@.len() == 2 * bytes@.len(),
{
    let mut s = String::new();
    let n = bytes.len();
    assert(bytes@.take(0) =~= Seq::<u8>::empty());
    for i in 0..n
        invariant
            n == bytes@.len(),
            s@ == hex_str(bytes@.take(i as int)),
            s@.len() == 2 * i,
    {
        let b = bytes[i];
        s.append(hex_digit_str(b / 16));
        s.append(hex_digit_str(b % 16));
        assert(bytes@.take(i + 1).drop_last() =~= bytes@.take(i as int));
    }
    assert(bytes@.take(n as int) =~= bytes@);
    s
}


/// Whether `pat` occurs in `s` at index `i`.
fn matches_at(s: &str, pat: &str, i: usize) -> (r: bool)
    requires
        i + pat@.len() <= s@.len(),
        s@.len() <= usize::MAX,
    ensures
        r == occurs_at(s@, pat@, i as int),
{
    let m = pat.unicode_len();
    let mut j: usize = 0;
    while j < m
        invariant
            m == pat@.len(),
            i + m <= s@.len(),
            s@.len() <= usize::MAX,
            j <= m,
            forall|k: int| 0 <= k < j ==> s@[i + k] == pat@[k],
        decreases m - j,
    {
        if s.get_char(i + j) != pat.get_char(j) {
            assert(s@.subrange(i as int, i + m)[j as int] != pat@[j as int]);
            return false;
        }
        j += 1;
    }
    assert(s@.subrange(i as int, i + m) =~= pat@);
    true
}

/// Some comma-separated part of `s` begins with `prefix`.
pub open spec fn has_part_with_prefix(s: Seq<char>, prefix: Seq<char>) -> bool {
    exists|i: int| #[trigger] occurs_at(s, prefix, i) && (i == 0 || s[i - 1] == ',')
}

/// Whether some comma-separated part of `s` begins with `prefix`.
pub fn has_part_with_prefix_exec(s: &str, prefix: &str) -> (r: bool)
    ensures
        r == has_part_with_prefix(s@, prefix@),
{
    let n = s.unicode_len();
    let m = prefix.unicode_len();
    let mut i: usize = 0;
    while i < n
        invariant
            i <= n,
            n == s@.len(),
            m == prefix@.len(),
            forall|j: int| 0 <= j < i ==> !(#[trigger] occurs_at(s@, prefix@, j) && (j == 0 || s@[j - 1] == ',')),
        decreases n - i,
    {
        if m <= n - i {
            let boundary = i == 0 || s.get_char(i - 1) == ',';
            if boundary && matches_at(s, prefix, i) {
                return true;
            }
        }
        i = i + 1;
    }
    if m == 0 {
        let boundary = n == 0 || s.get_char(n - 1) == ',';
        if boundary && matches_at(s, prefix, n) {
            return true;
        }
    }
    proof {
        assert forall|j: int| #[trigger] occurs_at(s@, prefix@, j) implies !(j == 0 || s@[j - 1] == ',') by {
            assert(j <= n);
        }
    }
    false
}

/// `prefix` followed by `value`.
pub fn prefixed(prefix: &str, value: &str) -> (r: String)
    ensures
        r@ == prefix@ + value@,
{
    let mut out = String::from_str(prefix);
    out.append(value);
    out
}

/// The text of a boolean, as `Display` writes it.
pub open spec fn bool_str(b: bool) -> Seq<char> {
    if b { "true"@ } else { "false"@ }
}

/// Whether `s` begins with `prefix`.
pub fn starts_with(s: &str, prefix: &str) -> (r: bool)
    ensures
        r == prefix@.is_prefix_of(s@),
{
    let n = s.unicode_len();
    let m = prefix.unicode_len();
    if m > n {
        return false;
    }
    let r = matches_at(s, prefix, 0);
    assert(s@.subrange(0, m as int) =~= s@.take(m as int));
    r
}

/// The only position at which `pat` occurs in `s`, if it occurs exactly once.
pub fn find_unique(s: &str, pat: &str) -> (r: Option<usize>)
    ensures
        r matches Some(i) ==> occurs_only_at(s@, pat@, i as int),
        r is None ==> !exists|i: int| occurs_only_at(s@, pat@, i),
{
    let n = s.unicode_len();
    let m = pat.unicode_len();
    if m > n {
        return None;
    }
    if m == 0 {
        assert(occurs_at(s@, pat@, 0)) by {
            assert(s@.subrange(0, 0) =~= pat@);
        }
        if n == 0 {
            assert forall|j: int| #[trigger] occurs_at(s@, pat@, j) implies j == 0 by {}
            return Some(0);
        } else {
            assert(occurs_at(s@, pat@, 1)) by {
                assert(s@.subrange(1, 1) =~= pat@);
            }
            assert forall|x: int| !occurs_only_at(s@, pat@, x) by {}
            return None;
        }
    }
    let mut found: Option<usize> = None;
    let mut i: usize = 0;
    while i <= n - m
        invariant
            n == s@.len(),
            m == pat@.len(),
            1 <= m <= n,
            i <= n - m + 1,
            found matches Some(k) ==> k < i && occurs_at(s@, pat@, k as int),
            found matches Some(k) ==> forall|j: int| 0 <= j < i && #[trigger] occurs_at(s@, pat@, j) ==> j == k,
            found is None ==> forall|j: int| 0 <= j < i ==> !#[trigger] occurs_at(s@, pat@, j),
        decreases n - m + 1 - i,
    {
        if matches_at(s, pat, i) {
            if found.is_some() {
                let k = found.unwrap();
                assert(!occurs_only_at(s@, pat@, k as int));
                assert forall|x: int| !occurs_only_at(s@, pat@, x) by {
                    if occurs_only_at(s@, pat@, x) {
                        assert(occurs_at(s@, pat@, k as int));
                        assert(occurs_at(s@, pat@, i as int));
                    }
                }
                return None;
            }
            found = Some(i);
        }
        i += 1;
    }
    match found {
        Some(k) => {
            assert forall|j: int| #[trigger] occurs_at(s@, pat@, j) implies j == k by {
                assert(j < i);
            }
            Some(k)
        },
        None => {
            assert forall|x: int| !occurs_only_at(s@, pat@, x) by {
                if occurs_only_at(s@, pat@, x) {
                    assert(x < i);
                }
            }
            None
        },
    }
}

/// Splits `s` at its only occurrence of `pat`.
pub fn split_unique(s: &str, pat: &str) -> (r: Option<(String, String)>)
    ensures
        r matches Some(p) ==> split_unique_spec(s@, pat@) == Some((p.0@, p.1@)),
        r is None ==> split_unique_spec(s@, pat@) is None,
{
    match find_unique(s, pat) {
        Some(i) => {
            let n = s.unicode_len();
            let m = pat.unicode_len();
            let before = s.substring_char(0, i).to_owned();
            let after = s.substring_char(i + m, n).to_owned();
            proof {
                let c = choose|x: int| occurs_only_at(s@, pat@, x);
                assert(c == i);
                assert(s@.subrange(0, i as int) =~= s@.take(i as int));
                assert(s@.subrange(i + m, n as int) =~= s@.skip(i + m));
            }
            Some((before, after))
        },
        None => None,
    }
}

/// The texts of a list of strings.
pub open spec fn texts(v: Seq<String>) -> Seq<Seq<char>> {
    v.map_values(|s: String| s@)
}

/// The parts joined, with `sep` between each two.
pub open spec fn join_spec(parts: Seq<Seq<char>>, sep: Seq<char>) -> Seq<char>
    decreases parts.len(),
{
    if parts.len() == 0 {
        seq![]
    } else if parts.len() == 1 {
        parts[0]
    } else {
        join_spec(parts.drop_last(), sep) + sep + parts.last()
    }
}

/// The strings joined, with `sep` between each two (`[T]::join`).
pub fn join(parts: &Vec<String>, sep: &str) -> (r: String)
    ensures
        r@ == join_spec(texts(parts@), sep@),
{
    let mut out = String::new();
    let mut i: usize = 0;
    while i < parts.len()
        invariant
            i <= parts@.len(),
            out@ == join_spec(texts(parts@).take(i as int), sep@),
        decreases parts@.len() - i,
    {
        let ghost before = texts(parts@).take(i as int);
        if i > 0 {
            out.append(sep);
        }
        out.append(parts[i].as_str());
        proof {
            let after = texts(parts@).take(i + 1);
            assert(after.drop_last() =~= before);
            assert(after.last() == parts@[i as int]@);
            if i == 0 {
                assert(after =~= seq![parts@[0]@]);
            }
        }
        i = i + 1;
    }
    assert(texts(parts@).take(parts@.len() as int) =~= texts(parts@));
    out
}

/// A decimal digit's character is a digit, of that value.
pub proof fn lemma_digit_char(d: nat)
    requires
        d < 10,
    ensures
        is_digit(digit_char(d)),
        (digit_char(d) as u32) - ('0' as u32) == d,
{
}

/// The decimal digits of a number are one or more digits, of its value.
pub proof fn lemma_nat_str(n: nat)
    ensures
        nat_str(n).len() >= 1,
        all_digits(nat_str(n)),
        digits_value(nat_str(n)) == n,
    decreases n,
{
    if n < 10 {
        lemma_digit_char(n);
        let s = nat_str(n);
        assert(s.drop_last() =~= Seq::<char>::empty());
        assert(digits_value(s.drop_last()) == 0);
        assert(s.last() == digit_char(n));
        assert(digits_value(s) == digits_value(s.drop_last()) * 10 + ((s.last() as u32) - ('0' as u32)) as nat);
    } else {
        lemma_nat_str(n / 10);
        lemma_digit_char(n % 10);
        let s = nat_str(n);
        assert(s.drop_last() =~= nat_str(n / 10));
        assert(s.last() == digit_char(n % 10));
        assert(digits_value(s) == digits_value(s.drop_last()) * 10 + ((s.last() as u32) - ('0' as u32)) as nat);
        assert(n == (n / 10) * 10 + n % 10);
        assert(all_digits(s)) by {
            assert forall|i: int| 0 <= i < s.len() implies is_digit(#[trigger] s[i]) by {
                if i < s.len() - 1 {
                    assert(s[i] == nat_str(n / 10)[i]);
                }
            }
        }
    }
}

/// The decimal rendering of an `i64` parses back to it.
pub proof fn lemma_parse_int_str(n: i64)
    ensures
        parse_i64_spec(int_str(n as int)) == Some(n),
{
    if n < 0 {
        let m = (-(n as int)) as nat;
        lemma_nat_str(m);
        let s = int_str(n as int);
        assert(s[0] == '-');
        assert(s.skip(1) =~= nat_str(m));
    } else {
        lemma_nat_str(n as nat);
        let s = int_str(n as int);
        assert(is_digit(s[0]));
    }
}

/// The decimal rendering of an integer holds no `&`.
pub proof fn lemma_int_str_no_amp(n: int)
    ensures
        forall|i: int| 0 <= i < int_str(n).len() ==> int_str(n)[i] != '&',
{
    if n < 0 {
        lemma_nat_str((-n) as nat);
        let s = int_str(n);
        assert forall|i: int| 0 <= i < s.len() implies s[i] != '&' by {
            if i > 0 {
                assert(s[i] == nat_str((-n) as nat)[i - 1]);
                assert(is_digit(nat_str((-n) as nat)[i - 1]));
            }
        }
    } else {
        lemma_nat_str(n as nat);
        let s = int_str(n);
        assert forall|i: int| 0 <= i < s.len() implies s[i] != '&' by {
            assert(is_digit(s[i]));
        }
    }
}

/// `pat` occurs somewhere in `s`.
pub open spec fn has_occurrence(s: Seq<char>, pat: Seq<char>) -> bool {
    exists|i: int| #[trigger] occurs_at(s, pat, i)
}

/// A text without `&` holds no occurrence of a pattern that starts with `&`.
pub proof fn lemma_no_amp_no_occurrence(x: Seq<char>, pat: Seq<char>)
    requires
        pat.len() >= 1,
        pat[0] == '&',
        forall|k: int| 0 <= k < x.len() ==> x[k] != '&',
    ensures
        !has_occurrence(x, pat),
{
    assert forall|i: int| !#[trigger] occurs_at(x, pat, i) by {
        if occurs_at(x, pat, i) {
            assert(x.subrange(i, i + pat.len())[0] == x[i]);
        }
    }
}

/// A pattern that starts with its only `&`, put between two texts that do not
/// hold it, splits the result back into the two.
pub proof fn lemma_split_between(a: Seq<char>, pat: Seq<char>, b: Seq<char>)
    requires
        pat.len() >= 1,
        pat[0] == '&',
        forall|k: int| 1 <= k < pat.len() ==> pat[k] != '&',
        !has_occurrence(a, pat),
        !has_occurrence(b, pat),
    ensures
        split_unique_spec(a + pat + b, pat) == Some((a, b)),
{
    let s = a + pat + b;
    let p = a.len() as int;
    assert(s.subrange(p, p + pat.len()) =~= pat);
    assert(occurs_at(s, pat, p));
    assert forall|i: int| #[trigger] occurs_at(s, pat, i) implies i == p by {
        let w = s.subrange(i, i + pat.len());
        assert(w[0] == s[i]);
        if i + pat.len() <= p {
            assert(a.subrange(i, i + pat.len()) =~= w);
            assert(occurs_at(a, pat, i));
        } else if i < p {
            assert(s[p] == '&');
            assert(w[p - i] == s[p]);
        } else if i < p + pat.len() {
            assert(s[i] == pat[i - p]);
        } else {
            let j = i - p - pat.len();
            assert(b.subrange(j, j + pat.len()) =~= w);
            assert(occurs_at(b, pat, j));
        }
    }
    assert(occurs_only_at(s, pat, p));
    let c = choose|i: int| occurs_only_at(s, pat, i);
    assert(c == p);
    assert(s.take(p) =~= a);
    assert(s.skip(p + pat.len()) =~= b);
}

/// Whether two strings hold the same characters.
pub fn str_eq(a: &str, b: &str) -> (r: bool)
    ensures
        r == (a@ == b@),
{
    let x = a.to_owned();
    let y = b.to_owned();
    x == y
}

/// Parses a decimal `i64`: an optional sign, then one or more decimal digits.
pub fn parse_i64(s: &str) -> (r: Option<i64>)
    ensures
        r == parse_i64_spec(s@),
{
    let n = s.unicode_len();
    if n == 0 {
        return None;
    }
    let c0 = s.get_char(0);
    let neg = c0 == '-';
    let start: usize = if c0 == '-' || c0 == '+' { 1 } else { 0 };
    let ghost digits = s@.skip(start as int);
    assert(c0 == s@[0]);
    assert(s@.skip(0) =~= s@);
    if start == n {
        assert(digits.len() == 0);
        return None;
    }
    // The value of the digits read so far, capped just above the largest magnitude.
    let cap: u128 = 9223372036854775809u128;
    let mut acc: u128 = 0;
    let mut i: usize = start;
    while i < n
        invariant
            n == s@.len(),
            start <= i <= n,
            digits == s@.skip(start as int),
            forall|k: int| 0 <= k < i - start ==> is_digit(#[trigger] digits[k]),
            cap == 9223372036854775809u128,
            s@.len() > 0,
            start == (if s@[0] == '-' || s@[0] == '+' { 1usize } else { 0usize }),
            neg == (s@[0] == '-'),
            acc <= cap,
            acc == if digits_value(digits.take(i - start)) < cap { digits_value(digits.take(i - start)) as int } else { cap as int },
        decreases n - i,
    {
        let c = s.get_char(i);
        assert(digits[i - start] == c);
        if !('0' <= c && c <= '9') {
            assert(!is_digit(digits[i - start]));
            return None;
        }
        let d = (c as u32 - '0' as u32) as u128;
        let ghost prev = digits.take(i - start);
        let ghost next = digits.take(i + 1 - start);
        assert(next.drop_last() =~= prev);
        assert(next.last() == c);
        let t = acc * 10 + d;
        acc = if t < cap { t } else { cap };
        proof {
            assert(digits_value(next) == digits_value(prev) * 10 + d);
            if digits_value(prev) >= cap {
                assert(digits_value(prev) * 10 + d >= cap) by (nonlinear_arith)
                    requires digits_value(prev) >= cap, d >= 0;
            }
        }
        i += 1;
    }
    assert(digits.take(n - start) =~= digits);
    assert(all_digits(digits));
    assert(c0 == s@[0]);
    assert(digits.len() > 0);
    let ghost dv = digits_value(digits);
    if neg {
        if acc <= 9223372036854775808u128 {
            assert(dv == acc);
            let v: i128 = -(acc as i128);
            assert(parse_i64_spec(s@) == Some(v as i64));
            Some(v as i64)
        } else {
            assert(dv >= cap);
            assert(parse_i64_spec(s@) is None);
            None
        }
    } else {
        if acc <= 9223372036854775807u128 {
            assert(dv == acc);
            assert(parse_i64_spec(s@) == Some(acc as i64));
            Some(acc as i64)
        } else {
            assert(dv > 9223372036854775807u128);
            assert(parse_i64_spec(s@) is None);
            None
        }
    }
}

} // verus!

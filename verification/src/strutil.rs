//! String helpers shared by the XML grammar: equality, whitespace
//! trimming, and numeric/boolean text parsing.
use vstd::arithmetic::div_mod::lemma_fundamental_div_mod;
use vstd::prelude::*;
use vstd::string::*;

verus! {

/// Character-wise equality of two string slices.
pub fn str_eq(a: &str, b: &str) -> (r: bool)
    ensures
        r == (a@ == b@),
{
    let x = String::from_str(a);
    let y = String::from_str(b);
    x == y
}

/// True when `c` is one of the whitespace characters XML treats as
/// insignificant around simple typed values.
pub open spec fn is_xml_space(c: char) -> bool {
    c == ' ' || c == '\t' || c == '\r' || c == '\n'
}

/// `s` with leading characters satisfying `is_xml_space` removed.
pub open spec fn trim_front(s: Seq<char>) -> Seq<char>
    decreases s.len(),
{
    if s.len() == 0 {
        s
    } else if is_xml_space(s[0]) {
        trim_front(s.drop_first())
    } else {
        s
    }
}

/// `s` with trailing characters satisfying `is_xml_space` removed.
pub open spec fn trim_back(s: Seq<char>) -> Seq<char>
    decreases s.len(),
{
    if s.len() == 0 {
        s
    } else if is_xml_space(s[s.len() - 1]) {
        trim_back(s.drop_last())
    } else {
        s
    }
}

/// `s` with XML whitespace removed from both ends.
pub open spec fn xml_trim(s: Seq<char>) -> Seq<char> {
    trim_back(trim_front(s))
}

proof fn lemma_trim_front_range(s: Seq<char>, i: int)
    requires
        0 <= i <= s.len(),
        forall|j: int| 0 <= j < i ==> is_xml_space(s[j]),
        i < s.len() ==> !is_xml_space(s[i]),
    ensures
        trim_front(s) =~= s.subrange(i, s.len() as int),
    decreases s.len(),
{
    if s.len() == 0 {
    } else if is_xml_space(s[0]) {
        assert(i >= 1);
        lemma_trim_front_range(s.drop_first(), i - 1);
        assert(trim_front(s) == trim_front(s.drop_first()));
        assert(s.drop_first().subrange(i - 1, s.drop_first().len() as int) =~= s.subrange(
            i,
            s.len() as int,
        ));
    } else {
        assert(i == 0);
        assert(s.subrange(0, s.len() as int) =~= s);
    }
}

proof fn lemma_trim_back_range(s: Seq<char>, i: int)
    requires
        0 <= i <= s.len(),
        forall|j: int| i <= j < s.len() ==> is_xml_space(s[j]),
        i > 0 ==> !is_xml_space(s[i - 1]),
    ensures
        trim_back(s) =~= s.subrange(0, i),
    decreases s.len(),
{
    if s.len() == 0 {
    } else if is_xml_space(s[s.len() - 1]) {
        assert(i < s.len());
        lemma_trim_back_range(s.drop_last(), i);
        assert(trim_back(s) == trim_back(s.drop_last()));
        assert(s.drop_last().subrange(0, i) =~= s.subrange(0, i));
    } else {
        assert(i == s.len());
        assert(s.subrange(0, s.len() as int) =~= s);
    }
}

/// The text of `s` with XML whitespace removed from both ends.
pub fn xml_trim_exec(s: &str) -> (r: String)
    ensures
        r@ == xml_trim(s@),
{
    let n = s.unicode_len();
    let mut lo: usize = 0;
    let mut lo_done = false;
    while lo < n && !lo_done
        invariant
            0 <= lo <= n,
            n == s@.len(),
            forall|j: int| 0 <= j < lo ==> is_xml_space(s@[j]),
            lo_done ==> lo < n && !is_xml_space(s@[lo as int]),
        decreases n - lo + if lo_done {
            0int
        } else {
            1int
        },
    {
        let c = s.get_char(lo);
        if c == ' ' || c == '\t' || c == '\r' || c == '\n' {
            lo = lo + 1;
        } else {
            lo_done = true;
        }
    }
    let mut hi: usize = n;
    let mut hi_done = false;
    while hi > lo && !hi_done
        invariant
            lo <= hi <= n,
            n == s@.len(),
            forall|j: int| hi <= j < n ==> is_xml_space(s@[j]),
            hi_done ==> hi > lo && !is_xml_space(s@[hi - 1]),
        decreases hi + if hi_done {
            0int
        } else {
            1int
        },
    {
        let c = s.get_char(hi - 1);
        if c == ' ' || c == '\t' || c == '\r' || c == '\n' {
            hi = hi - 1;
        } else {
            hi_done = true;
        }
    }
    proof {
        lemma_trim_front_range(s@, lo as int);
        let t = s@.subrange(lo as int, n as int);
        if hi == lo {
            lemma_trim_back_range(t, 0);
        } else {
            assert(!is_xml_space(t[hi - lo - 1]));
            lemma_trim_back_range(t, hi - lo);
        }
        assert(t.subrange(0, hi - lo) =~= s@.subrange(lo as int, hi as int));
    }
    let sub = s.substring_char(lo, hi);
    String::from_str(sub)
}

/// True when `c` is a decimal digit.
pub open spec fn is_digit(c: char) -> bool {
    '0' <= c <= '9'
}

/// The numeric value of a decimal digit character.
pub open spec fn digit_val(c: char) -> nat {
    (c as nat - '0' as nat) as nat
}

/// The number denoted by an all-digit sequence, most significant digit first.
pub open spec fn dec_val(s: Seq<char>) -> nat
    decreases s.len(),
{
    if s.len() == 0 {
        0
    } else {
        dec_val(s.drop_last()) * 10 + digit_val(s[s.len() - 1])
    }
}

/// True when `s` consists only of decimal digits.
pub open spec fn all_digits(s: Seq<char>) -> bool {
    forall|j: int| 0 <= j < s.len() ==> is_digit(s[j])
}

/// The digit body of an unsigned decimal text: an optional leading `+`
/// followed by at least one digit; None when the shape is wrong.
pub open spec fn unsigned_body(s: Seq<char>) -> Option<Seq<char>> {
    if s.len() > 0 && s[0] == '+' {
        if s.len() > 1 && all_digits(s.drop_first()) {
            Some(s.drop_first())
        } else {
            None
        }
    } else if s.len() > 0 && all_digits(s) {
        Some(s)
    } else {
        None
    }
}

/// What parsing `s` (already trimmed) as a `usize` yields: the denoted
/// number when the shape is right and the value fits, otherwise None.
pub open spec fn parse_usize_spec(s: Seq<char>) -> Option<usize> {
    match unsigned_body(s) {
        Some(d) => if dec_val(d) <= usize::MAX {
            Some(dec_val(d) as usize)
        } else {
            None
        },
        None => None,
    }
}

proof fn lemma_dec_val_prefix(s: Seq<char>, i: int)
    requires
        0 <= i < s.len(),
    ensures
        dec_val(s.subrange(0, i + 1)) == dec_val(s.subrange(0, i)) * 10 + digit_val(s[i]),
{
    let t = s.subrange(0, i + 1);
    assert(t.drop_last() =~= s.subrange(0, i));
    assert(t[t.len() - 1] == s[i]);
}

/// A prefix of a digit text denotes no more than the whole text.
proof fn lemma_dec_val_grows(s: Seq<char>, i: int)
    requires
        0 <= i <= s.len(),
    ensures
        dec_val(s.subrange(0, i)) <= dec_val(s),
    decreases s.len() - i,
{
    if i < s.len() {
        lemma_dec_val_grows(s, i + 1);
        lemma_dec_val_prefix(s, i);
        assert(dec_val(s.subrange(0, i)) <= dec_val(s.subrange(0, i)) * 10 + digit_val(s[i]))
            by (nonlinear_arith);
    } else {
        assert(s.subrange(0, i) =~= s);
    }
}

/// Parses an already-trimmed decimal text as a `usize`.
pub fn parse_usize(s: &str) -> (r: Option<usize>)
    ensures
        r == parse_usize_spec(s@),
{
    let n = s.unicode_len();
    if n == 0 {
        return None;
    }
    let first = s.get_char(0);
    let start: usize = if first == '+' {
        1
    } else {
        0
    };
    if start >= n {
        return None;
    }
    let ghost body = s@.subrange(start as int, n as int);
    proof {
        if start == 1 {
            assert(s@.drop_first() =~= body);
        } else {
            assert(s@.subrange(0, n as int) =~= s@);
        }
        lemma_fundamental_div_mod(usize::MAX as int, 10);
    }
    let limit: usize = usize::MAX / 10;
    let rem: usize = usize::MAX % 10;
    let mut acc: usize = 0;
    let mut i: usize = start;
    while i < n
        invariant
            start <= i <= n,
            start <= 1,
            n == s@.len(),
            start < n,
            body == s@.subrange(start as int, n as int),
            start == 1 ==> s@.drop_first() == body,
            start == 0 ==> body == s@,
            start == 1 ==> s@[0] == '+',
            start == 0 ==> s@[0] != '+',
            forall|j: int| start <= j < i ==> is_digit(s@[j]),
            acc == dec_val(s@.subrange(start as int, i as int)),
            limit == usize::MAX as int / 10,
            rem == usize::MAX as int % 10,
            usize::MAX as int == 10 * (usize::MAX as int / 10) + usize::MAX as int % 10,
        decreases n - i,
    {
        let c = s.get_char(i);
        if !(c >= '0' && c <= '9') {
            proof {
                assert(body[i - start] == s@[i as int]);
                assert(!is_digit(s@[i as int]));
                assert(!all_digits(body));
            }
            return None;
        }
        let d: usize = (c as u32 as usize) - ('0' as u32 as usize);
        proof {
            assert(d == digit_val(s@[i as int]));
            lemma_dec_val_prefix(body, i - start);
            assert(body.subrange(0, i - start) =~= s@.subrange(start as int, i as int));
            assert(body.subrange(0, i - start + 1) =~= s@.subrange(start as int, i as int + 1));
        }
        if acc > limit || (acc == limit && d > rem) {
            proof {
                assert(dec_val(s@.subrange(start as int, i as int + 1)) == acc * 10 + d);
                assert(acc * 10 + d > usize::MAX);
                lemma_dec_val_grows(body, i - start + 1);
                assert(dec_val(body) > usize::MAX);
            }
            return None;
        }
        acc = acc * 10 + d;
        i = i + 1;
    }
    proof {
        assert(s@.subrange(start as int, i as int) =~= body);
    }
    Some(acc)
}

/// The sign and digit body of a signed decimal text: an optional leading
/// `+` or `-` followed by at least one digit; None when the shape is wrong.
pub open spec fn signed_body(s: Seq<char>) -> Option<(bool, Seq<char>)> {
    if s.len() > 0 && (s[0] == '+' || s[0] == '-') {
        if s.len() > 1 && all_digits(s.drop_first()) {
            Some((s[0] == '-', s.drop_first()))
        } else {
            None
        }
    } else if s.len() > 0 && all_digits(s) {
        Some((false, s))
    } else {
        None
    }
}

/// What parsing `s` (already trimmed) as an `isize` yields: the denoted
/// number when the shape is right and the value fits, otherwise None.
pub open spec fn parse_isize_spec(s: Seq<char>) -> Option<isize> {
    match signed_body(s) {
        Some((neg, d)) => if neg {
            if dec_val(d) <= -(isize::MIN as int) {
                Some((-(dec_val(d) as int)) as isize)
            } else {
                None
            }
        } else {
            if dec_val(d) <= isize::MAX {
                Some(dec_val(d) as isize)
            } else {
                None
            }
        },
        None => None,
    }
}

/// Parses an already-trimmed decimal text as an `isize`.
pub fn parse_isize(s: &str) -> (r: Option<isize>)
    ensures
        r == parse_isize_spec(s@),
{
    let n = s.unicode_len();
    if n == 0 {
        return None;
    }
    let c0 = s.get_char(0);
    let neg = c0 == '-';
    let start: usize = if c0 == '-' || c0 == '+' {
        1
    } else {
        0
    };
    if start >= n {
        return None;
    }
    let c1 = s.get_char(start);
    if !(c1 >= '0' && c1 <= '9') {
        proof {
            let ghost d = s@.subrange(start as int, n as int);
            if start == 1 {
                assert(s@.drop_first() =~= d);
            } else {
                assert(s@ =~= d);
            }
            assert(!all_digits(d)) by {
                assert(d[0] == s@[start as int]);
            }
        }
        return None;
    }
    let rest = s.substring_char(start, n);
    let ghost d = s@.subrange(start as int, n as int);
    proof {
        if start == 1 {
            assert(s@.drop_first() =~= d);
        } else {
            assert(s@ =~= d);
        }
    }
    let mag = match parse_usize(rest) {
        Some(m) => m,
        None => {
            proof {
                if all_digits(d) {
                    assert(unsigned_body(d) == Some(d));
                    assert(dec_val(d) > usize::MAX);
                    assert(isize::MAX < usize::MAX);
                    assert(-(isize::MIN as int) <= usize::MAX);
                }
            }
            return None;
        },
    };
    proof {
        assert(unsigned_body(d) == Some(d));
    }
    if neg {
        let cap: usize = isize::MAX as usize;
        if mag <= cap {
            Some(-(mag as isize))
        } else if mag == cap + 1 {
            Some(isize::MIN)
        } else {
            None
        }
    } else {
        if mag <= isize::MAX as usize {
            Some(mag as isize)
        } else {
            None
        }
    }
}

/// What parsing `s` (already trimmed) as an XML boolean yields:
/// `1` and `true` mean true, `0` and `false` mean false.
pub open spec fn parse_bool_spec(s: Seq<char>) -> Option<bool> {
    if s == "1"@ || s == "true"@ {
        Some(true)
    } else if s == "0"@ || s == "false"@ {
        Some(false)
    } else {
        None
    }
}

/// Parses an already-trimmed text as an XML boolean.
pub fn parse_bool(s: &str) -> (r: Option<bool>)
    ensures
        r == parse_bool_spec(s@),
{
    if str_eq(s, "1") || str_eq(s, "true") {
        Some(true)
    } else if str_eq(s, "0") || str_eq(s, "false") {
        Some(false)
    } else {
        None
    }
}


/// Lexicographic order on character sequences: the order Rust gives
/// strings, code point by code point.
pub open spec fn lex_le(a: Seq<char>, b: Seq<char>) -> bool
    decreases a.len(),
{
    if a.len() == 0 {
        true
    } else if b.len() == 0 {
        false
    } else if a[0] != b[0] {
        a[0] < b[0]
    } else {
        lex_le(a.drop_first(), b.drop_first())
    }
}

/// Compares two string slices lexicographically by code points.
pub fn str_lex_le(a: &str, b: &str) -> (r: bool)
    ensures
        r == lex_le(a@, b@),
{
    let na = a.unicode_len();
    let nb = b.unicode_len();
    proof {
        assert(a@.subrange(0, na as int) =~= a@);
        assert(b@.subrange(0, nb as int) =~= b@);
    }
    let mut i: usize = 0;
    loop
        invariant
            0 <= i <= na,
            i <= nb,
            na == a@.len(),
            nb == b@.len(),
            forall|j: int| 0 <= j < i ==> a@[j] == b@[j],
            lex_le(a@, b@) == lex_le(
                a@.subrange(i as int, na as int),
                b@.subrange(i as int, nb as int),
            ),
        decreases na - i,
    {
        if i >= na {
            proof {
                assert(a@.subrange(i as int, na as int).len() == 0);
            }
            return true;
        }
        if i >= nb {
            proof {
                assert(b@.subrange(i as int, nb as int).len() == 0);
                assert(a@.subrange(i as int, na as int).len() > 0);
            }
            return false;
        }
        let ca = a.get_char(i);
        let cb = b.get_char(i);
        proof {
            assert(a@.subrange(i as int, na as int)[0] == a@[i as int]);
            assert(b@.subrange(i as int, nb as int)[0] == b@[i as int]);
            assert(a@.subrange(i as int, na as int).drop_first() =~= a@.subrange(
                i as int + 1,
                na as int,
            ));
            assert(b@.subrange(i as int, nb as int).drop_first() =~= b@.subrange(
                i as int + 1,
                nb as int,
            ));
        }
        if ca != cb {
            return ca < cb;
        }
        i = i + 1;
    }
}


/// True when `c` is a hexadecimal digit.
pub open spec fn is_hex_digit(c: char) -> bool {
    is_digit(c) || ('a' <= c <= 'f') || ('A' <= c <= 'F')
}

/// The numeric value of a hexadecimal digit character.
pub open spec fn hex_digit_val(c: char) -> nat {
    if is_digit(c) {
        digit_val(c)
    } else if 'a' <= c <= 'f' {
        (c as nat - 'a' as nat + 10) as nat
    } else {
        (c as nat - 'A' as nat + 10) as nat
    }
}

/// The number denoted by an all-hex-digit sequence, most significant
/// digit first.
pub open spec fn hex_val(s: Seq<char>) -> nat
    decreases s.len(),
{
    if s.len() == 0 {
        0
    } else {
        hex_val(s.drop_last()) * 16 + hex_digit_val(s[s.len() - 1])
    }
}

/// True when `s` consists only of hexadecimal digits.
pub open spec fn all_hex_digits(s: Seq<char>) -> bool {
    forall|j: int| 0 <= j < s.len() ==> is_hex_digit(s[j])
}

/// What parsing `s` as a bare hexadecimal number yields: the denoted
/// number when `s` holds one or more hex digits and the value fits in
/// a `u32`, otherwise None.
pub open spec fn parse_hex_u32_spec(s: Seq<char>) -> Option<u32> {
    if s.len() > 0 && all_hex_digits(s) && hex_val(s) <= u32::MAX {
        Some(hex_val(s) as u32)
    } else {
        None
    }
}

proof fn lemma_hex_val_prefix(s: Seq<char>, i: int)
    requires
        0 <= i < s.len(),
    ensures
        hex_val(s.subrange(0, i + 1)) == hex_val(s.subrange(0, i)) * 16 + hex_digit_val(s[i]),
{
    let t = s.subrange(0, i + 1);
    assert(t.drop_last() =~= s.subrange(0, i));
    assert(t[t.len() - 1] == s[i]);
}

proof fn lemma_hex_val_grows(s: Seq<char>, i: int)
    requires
        0 <= i <= s.len(),
    ensures
        hex_val(s.subrange(0, i)) <= hex_val(s),
    decreases s.len() - i,
{
    if i < s.len() {
        lemma_hex_val_grows(s, i + 1);
        lemma_hex_val_prefix(s, i);
        assert(hex_val(s.subrange(0, i)) <= hex_val(s.subrange(0, i)) * 16 + hex_digit_val(s[i]))
            by (nonlinear_arith);
    } else {
        assert(s.subrange(0, i) =~= s);
    }
}

/// Parses a bare hexadecimal number as a `u32`.
pub fn parse_hex_u32(s: &str) -> (r: Option<u32>)
    ensures
        r == parse_hex_u32_spec(s@),
{
    let n = s.unicode_len();
    if n == 0 {
        return None;
    }
    let mut acc: u32 = 0;
    let mut i: usize = 0;
    while i < n
        invariant
            0 <= i <= n,
            n == s@.len(),
            forall|j: int| 0 <= j < i ==> is_hex_digit(s@[j]),
            acc == hex_val(s@.subrange(0, i as int)),
        decreases n - i,
    {
        let c = s.get_char(i);
        let d: u32 = if c >= '0' && c <= '9' {
            (c as u32) - ('0' as u32)
        } else if c >= 'a' && c <= 'f' {
            (c as u32) - ('a' as u32) + 10
        } else if c >= 'A' && c <= 'F' {
            (c as u32) - ('A' as u32) + 10
        } else {
            proof {
                assert(!all_hex_digits(s@)) by {
                    assert(!is_hex_digit(s@[i as int]));
                }
            }
            return None;
        };
        proof {
            assert(d == hex_digit_val(s@[i as int]));
            lemma_hex_val_prefix(s@, i as int);
        }
        if acc > (u32::MAX - d) / 16 {
            proof {
                vstd::arithmetic::div_mod::lemma_fundamental_div_mod((u32::MAX - d) as int, 16);
                assert(acc * 16 + d > u32::MAX) by (nonlinear_arith)
                    requires
                        acc > ((u32::MAX - d) as int) / 16,
                        u32::MAX - d == 16 * (((u32::MAX - d) as int) / 16) + ((u32::MAX - d) as int)
                            % 16,
                        0 <= ((u32::MAX - d) as int) % 16 < 16,
                ;
                lemma_hex_val_grows(s@, i as int + 1);
            }
            return None;
        }
        proof {
            vstd::arithmetic::div_mod::lemma_fundamental_div_mod((u32::MAX - d) as int, 16);
            assert(acc * 16 + d <= u32::MAX) by (nonlinear_arith)
                requires
                    acc <= ((u32::MAX - d) as int) / 16,
                    u32::MAX - d == 16 * (((u32::MAX - d) as int) / 16) + ((u32::MAX - d) as int)
                        % 16,
                    0 <= ((u32::MAX - d) as int) % 16 < 16,
            ;
        }
        acc = acc * 16 + d;
        i = i + 1;
    }
    proof {
        assert(s@.subrange(0, n as int) =~= s@);
    }
    Some(acc)
}

} // verus!

//! Textual encodings used by the library: decimal and hexadecimal numbers,
//! hyphenated identifiers, HTML escaping and substring search.
use vstd::prelude::*;
use vstd::string::StrSliceExecFns;

verus! {

/// The lowercase hexadecimal digit for `d` (which is below 16).
pub open spec fn hex_digit(d: nat) -> char {
    if d < 10 {
        (('0' as u8) + d) as char
    } else {
        (('a' as u8) + (d - 10)) as char
    }
}

/// Decimal digits of `n`, most significant first, without leading zeros.
pub open spec fn decimal_nat(n: nat) -> Seq<char>
    decreases n,
{
    if n < 10 {
        seq![hex_digit(n)]
    } else {
        decimal_nat(n / 10).push(hex_digit(n % 10))
    }
}

/// Decimal text of a signed integer: a minus sign before negative values.
pub open spec fn decimal_int(v: int) -> Seq<char> {
    if v < 0 {
        seq!['-'] + decimal_nat((-v) as nat)
    } else {
        decimal_nat(v as nat)
    }
}

/// Lowercase hexadecimal digits of `n`, most significant first, without
/// leading zeros.
pub open spec fn hex_nat(n: nat) -> Seq<char>
    decreases n,
{
    if n < 16 {
        seq![hex_digit(n)]
    } else {
        hex_nat(n / 16).push(hex_digit(n % 16))
    }
}

/// Exactly `width` lowercase hexadecimal digits of `n` (modulo `16^width`).
pub open spec fn hex_fixed(n: nat, width: nat) -> Seq<char>
    decreases width,
{
    if width == 0 {
        seq![]
    } else {
        hex_fixed(n / 16, (width - 1) as nat).push(hex_digit(n % 16))
    }
}

/// A fixed-width digit string has exactly that many digits.
pub proof fn lemma_hex_fixed_len(n: nat, width: nat)
    ensures
        hex_fixed(n, width).len() == width,
    decreases width,
{
    if width > 0 {
        lemma_hex_fixed_len(n / 16, (width - 1) as nat);
    }
}

/// The hyphenated form of a 128-bit identifier: 32 lowercase hexadecimal
/// digits grouped 8-4-4-4-12.
pub open spec fn uuid_text(v: u128) -> Seq<char> {
    let h = hex_fixed(v as nat, 32);
    h.subrange(0, 8) + seq!['-'] + h.subrange(8, 12) + seq!['-'] + h.subrange(12, 16) + seq!['-']
        + h.subrange(16, 20) + seq!['-'] + h.subrange(20, 32)
}

/// One-character string for the digit `d`.
fn digit_str(d: u64) -> (r: &'static str)
    requires
        d < 16,
    ensures
        r@ == seq![hex_digit(d as nat)],
{
    proof {
        reveal_strlit("0");
        reveal_strlit("1");
        reveal_strlit("2");
        reveal_strlit("3");
        reveal_strlit("4");
        reveal_strlit("5");
        reveal_strlit("6");
        reveal_strlit("7");
        reveal_strlit("8");
        reveal_strlit("9");
        reveal_strlit("a");
        reveal_strlit("b");
        reveal_strlit("c");
        reveal_strlit("d");
        reveal_strlit("e");
        reveal_strlit("f");
    }
    let r = if d == 0 {
        "0"
    } else if d == 1 {
        "1"
    } else if d == 2 {
        "2"
    } else if d == 3 {
        "3"
    } else if d == 4 {
        "4"
    } else if d == 5 {
        "5"
    } else if d == 6 {
        "6"
    } else if d == 7 {
        "7"
    } else if d == 8 {
        "8"
    } else if d == 9 {
        "9"
    } else if d == 10 {
        "a"
    } else if d == 11 {
        "b"
    } else if d == 12 {
        "c"
    } else if d == 13 {
        "d"
    } else if d == 14 {
        "e"
    } else {
        "f"
    };
    assert(r@ =~= seq![hex_digit(d as nat)]);
    r
}

/// Decimal text of an unsigned integer.
pub fn decimal_u64(v: u64) -> (r: String)
    ensures
        r@ == decimal_nat(v as nat),
{
    let mut n: u64 = v;
    let mut s = String::new();
    while n >= 10
        invariant
            decimal_nat(v as nat) == decimal_nat(n as nat) + s@,
        decreases n,
    {
        let d: u64 = n % 10;
        let t = digit_str(d).to_owned();
        let ghost old_s = s@;
        s = t.concat(s.as_str());
        assert(decimal_nat(n as nat) == decimal_nat((n / 10) as nat).push(hex_digit(d as nat)));
        assert(decimal_nat(n as nat) + old_s =~= decimal_nat((n / 10) as nat) + s@);
        n = n / 10;
    }
    let t = digit_str(n).to_owned();
    let r = t.concat(s.as_str());
    assert(decimal_nat(n as nat) == seq![hex_digit(n as nat)]);
    r
}

/// Decimal text of a signed integer, as `Display` writes it.
pub fn decimal_i64(v: i64) -> (r: String)
    ensures
        r@ == decimal_int(v as int),
{
    if v < 0 {
        let m: u64 = if v == i64::MIN {
            9223372036854775808u64
        } else {
            (-v) as u64
        };
        let digits = decimal_u64(m);
        let r = "-".to_owned().concat(digits.as_str());
        proof {
            reveal_strlit("-");
        }
        assert(r@ =~= decimal_int(v as int));
        r
    } else {
        decimal_u64(v as u64)
    }
}

/// Lowercase hexadecimal text of an unsigned integer, without leading zeros.
pub fn hex_u64(v: u64) -> (r: String)
    ensures
        r@ == hex_nat(v as nat),
{
    let mut n: u64 = v;
    let mut s = String::new();
    while n >= 16
        invariant
            hex_nat(v as nat) == hex_nat(n as nat) + s@,
        decreases n,
    {
        let d: u64 = n % 16;
        let t = digit_str(d).to_owned();
        let ghost old_s = s@;
        s = t.concat(s.as_str());
        assert(hex_nat(n as nat) == hex_nat((n / 16) as nat).push(hex_digit(d as nat)));
        assert(hex_nat(n as nat) + old_s =~= hex_nat((n / 16) as nat) + s@);
        n = n / 16;
    }
    let t = digit_str(n).to_owned();
    let r = t.concat(s.as_str());
    assert(hex_nat(n as nat) == seq![hex_digit(n as nat)]);
    r
}

/// Exactly 16 lowercase hexadecimal digits of a 64-bit integer, zero-padded.
pub fn hex_fixed_u64(v: u64) -> (r: String)
    ensures
        r@ == hex_fixed(v as nat, 16),
{
    let mut n: u64 = v;
    let mut s = String::new();
    let mut i: u64 = 0;
    while i < 16
        invariant
            i <= 16,
            hex_fixed(v as nat, 16) == hex_fixed(n as nat, (16 - i) as nat) + s@,
        decreases 16 - i,
    {
        let d: u64 = n % 16;
        let t = digit_str(d).to_owned();
        let ghost old_s = s@;
        s = t.concat(s.as_str());
        assert(hex_fixed(n as nat, (16 - i) as nat) == hex_fixed((n / 16) as nat, (16 - (i + 1)) as nat).push(
            hex_digit(d as nat),
        ));
        assert(hex_fixed(n as nat, (16 - i) as nat) + old_s =~= hex_fixed((n / 16) as nat, (16 - (i + 1)) as nat) + s@);
        n = n / 16;
        i = i + 1;
    }
    assert(hex_fixed(n as nat, 0) + s@ =~= s@);
    s
}

/// What a character becomes inside HTML text or a quoted attribute.
pub open spec fn escape_char(c: char) -> Seq<char> {
    if c == '&' {
        seq!['&', 'a', 'm', 'p', ';']
    } else if c == '<' {
        seq!['&', 'l', 't', ';']
    } else if c == '>' {
        seq!['&', 'g', 't', ';']
    } else if c == '"' {
        seq!['&', 'q', 'u', 'o', 't', ';']
    } else if c == '\'' {
        seq!['&', '#', '3', '9', ';']
    } else {
        seq![c]
    }
}

/// `s` with every character replaced by its escaped form.
pub open spec fn escape_html(s: Seq<char>) -> Seq<char>
    decreases s.len(),
{
    if s.len() == 0 {
        seq![]
    } else {
        escape_html(s.drop_last()) + escape_char(s.last())
    }
}

/// `needle` occurs in `hay` at position `i`.
pub open spec fn occurs_at(hay: Seq<char>, needle: Seq<char>, i: int) -> bool {
    0 <= i && i + needle.len() <= hay.len() && hay.subrange(i, i + needle.len()) == needle
}

/// `needle` occurs somewhere in `hay`.
pub open spec fn contains_seq(hay: Seq<char>, needle: Seq<char>) -> bool {
    exists|i: int| occurs_at(hay, needle, i)
}

/// The escaped form of `c`, as text.
fn escape_piece(c: char) -> (r: Option<&'static str>)
    ensures
        r matches Some(t) ==> t@ == escape_char(c),
        r is None ==> escape_char(c) == seq![c],
{
    proof {
        reveal_strlit("&amp;");
        reveal_strlit("&lt;");
        reveal_strlit("&gt;");
        reveal_strlit("&quot;");
        reveal_strlit("&#39;");
    }
    if c == '&' {
        assert("&amp;"@ =~= escape_char(c));
        Some("&amp;")
    } else if c == '<' {
        assert("&lt;"@ =~= escape_char(c));
        Some("&lt;")
    } else if c == '>' {
        assert("&gt;"@ =~= escape_char(c));
        Some("&gt;")
    } else if c == '"' {
        assert("&quot;"@ =~= escape_char(c));
        Some("&quot;")
    } else if c == '\'' {
        assert("&#39;"@ =~= escape_char(c));
        Some("&#39;")
    } else {
        None
    }
}

/// `s` made safe to embed in HTML text and in quoted attribute values.
pub fn escape(s: &str) -> (r: String)
    ensures
        r@ == escape_html(s@),
{
    let n = s.unicode_len();
    let mut out = String::new();
    let mut i: usize = 0;
    while i < n
        invariant
            n == s@.len(),
            i <= n,
            out@ == escape_html(s@.subrange(0, i as int)),
        decreases n - i,
    {
        let c = s.get_char(i);
        match escape_piece(c) {
            Some(t) => out.append(t),
            None => out.append(s.substring_char(i, i + 1)),
        }
        assert(s@.subrange(0, i + 1).drop_last() =~= s@.subrange(0, i as int));
        i = i + 1;
    }
    assert(s@.subrange(0, n as int) =~= s@);
    out
}

/// Whether `needle` occurs in `hay`.
pub fn contains_text(hay: &str, needle: &str) -> (r: bool)
    ensures
        r == contains_seq(hay@, needle@),
{
    let n = hay.unicode_len();
    let m = needle.unicode_len();
    if m > n {
        assert forall|i: int| !occurs_at(hay@, needle@, i) by {}
        return false;
    }
    let mut i: usize = 0;
    while i <= n - m
        invariant
            n == hay@.len(),
            m == needle@.len(),
            m <= n,
            i <= n - m + 1,
            forall|k: int| 0 <= k < i ==> !occurs_at(hay@, needle@, k),
        decreases n - m + 1 - i,
    {
        let mut j: usize = 0;
        let mut same = true;
        while j < m && same
            invariant
                n == hay@.len(),
                m == needle@.len(),
                i + m <= n,
                j <= m,
                same == (forall|k: int| 0 <= k < j ==> hay@[i + k] == needle@[k]),
            decreases m - j,
        {
            if hay.get_char(i + j) != needle.get_char(j) {
                same = false;
            }
            j = j + 1;
        }
        if same {
            assert(hay@.subrange(i as int, i + m) =~= needle@);
            assert(occurs_at(hay@, needle@, i as int));
            return true;
        }
        assert(!occurs_at(hay@, needle@, i as int)) by {
            if occurs_at(hay@, needle@, i as int) {
                assert forall|k: int| 0 <= k < m implies hay@[i + k] == needle@[k] by {
                    assert(hay@.subrange(i as int, i + m)[k] == hay@[i + k]);
                }
            }
        }
        i = i + 1;
    }
    assert forall|k: int| !occurs_at(hay@, needle@, k) by {
        if 0 <= k < i {
        }
    }
    false
}

} // verus!

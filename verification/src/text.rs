//! Text helpers: splitting at white space, decimal numerals, JSON string
//! literals and the text of header values.

use vstd::prelude::*;

use crate::error::strings_view;

verus! {

/// Whether `c` has the Unicode `White_Space` property, as `char::is_whitespace` tests.
pub open spec fn is_white_space(c: char) -> bool {
    let u = c as u32;
    ||| 0x9 <= u <= 0xd
    ||| u == 0x20
    ||| u == 0x85
    ||| u == 0xa0
    ||| u == 0x1680
    ||| 0x2000 <= u <= 0x200a
    ||| u == 0x2028
    ||| u == 0x2029
    ||| u == 0x202f
    ||| u == 0x205f
    ||| u == 0x3000
}

/// The length of the run of non-white-space characters that `s` starts with.
pub open spec fn word_len(s: Seq<char>) -> nat
    decreases s.len(),
{
    if s.len() == 0 || is_white_space(s[0]) {
        0
    } else {
        1 + word_len(s.drop_first())
    }
}

/// The words of `s`, in order: its maximal runs of non-white-space
/// characters, as `str::split_whitespace` yields them.
pub open spec fn words_of(s: Seq<char>) -> Seq<Seq<char>>
    decreases s.len(),
{
    if s.len() == 0 {
        seq![]
    } else if is_white_space(s[0]) {
        words_of(s.drop_first())
    } else {
        let n = word_len(s);
        proof {
            lemma_word_len_bounded(s);
        }
        seq![s.take(n as int)] + words_of(s.skip(n as int))
    }
}

/// A word is never longer than the text it starts.
pub proof fn lemma_word_len_bounded(s: Seq<char>)
    ensures
        word_len(s) <= s.len(),
        s.len() > 0 && !is_white_space(s[0]) ==> word_len(s) >= 1,
    decreases s.len(),
{
    if s.len() > 0 && !is_white_space(s[0]) {
        lemma_word_len_bounded(s.drop_first());
    }
}

/// When the first `m` characters of `t` are not white space and the next one
/// (if any) is, the word at the start of `t` has length `m`.
proof fn lemma_word_len_exact(t: Seq<char>, m: nat)
    requires
        m <= t.len(),
        forall|k: int| 0 <= k < m ==> !is_white_space(#[trigger] t[k]),
        m == t.len() || is_white_space(t[m as int]),
    ensures
        word_len(t) == m,
    decreases m,
{
    if m > 0 {
        let d = t.drop_first();
        assert forall|k: int| 0 <= k < m - 1 implies !is_white_space(#[trigger] d[k]) by {
            assert(d[k] == t[k + 1]);
        }
        if m < t.len() {
            assert(d[m - 1] == t[m as int]);
        }
        lemma_word_len_exact(d, (m - 1) as nat);
    }
}

/// Whether no character of `s` is white space.
pub open spec fn no_white_space(s: Seq<char>) -> bool {
    forall|k: int| 0 <= k < s.len() ==> !is_white_space(#[trigger] s[k])
}

/// Two words joined by one space split back into the two words.
pub proof fn words_of_two(a: Seq<char>, b: Seq<char>)
    requires
        a.len() > 0,
        b.len() > 0,
        no_white_space(a),
        no_white_space(b),
    ensures
        words_of(a + seq![' '] + b) == seq![a, b],
{
    let s = a + seq![' '] + b;
    assert(is_white_space(' ')) by {
        assert((' ' as u32) == 0x20);
    }
    assert forall|k: int| 0 <= k < a.len() implies !is_white_space(#[trigger] s[k]) by {
        assert(s[k] == a[k]);
    }
    assert(s[a.len() as int] == ' ');
    lemma_word_len_exact(s, a.len());
    assert(s.take(a.len() as int) =~= a);
    let rest = s.skip(a.len() as int);
    assert(rest =~= seq![' '] + b);
    assert(rest[0] == ' ');
    assert(rest.drop_first() =~= b);
    lemma_word_len_exact(b, b.len());
    assert(b.take(b.len() as int) =~= b);
    assert(b.skip(b.len() as int) =~= Seq::<char>::empty());
    assert(!is_white_space(b[0]));
    assert(words_of(b.skip(b.len() as int)) =~= Seq::<Seq<char>>::empty());
    assert(words_of(b) =~= seq![b]);
    assert(words_of(rest) == words_of(b));
    assert(words_of(s) =~= seq![a] + seq![b]);
}

/// The exec counterpart of [`is_white_space`].
pub fn is_whitespace(c: char) -> (b: bool)
    ensures
        b == is_white_space(c),
{
    let u = c as u32;
    (0x9 <= u && u <= 0xd) || u == 0x20 || u == 0x85 || u == 0xa0 || u == 0x1680 || (0x2000 <= u
        && u <= 0x200a) || u == 0x2028 || u == 0x2029 || u == 0x202f || u == 0x205f || u == 0x3000
}

/// The words of `s`, as `str::split_whitespace` yields them.
pub fn split_whitespace(s: &str) -> (words: Vec<String>)
    ensures
        strings_view(words@) == words_of(s@),
{
    let n = s.unicode_len();
    let mut out: Vec<String> = Vec::new();
    let mut i: usize = 0;
    proof {
        assert(s@.skip(0) =~= s@);
        assert(strings_view(out@) =~= Seq::<Seq<char>>::empty());
    }
    while i < n
        invariant
            n == s@.len(),
            i <= n,
            strings_view(out@) + words_of(s@.skip(i as int)) == words_of(s@),
        decreases n - i,
    {
        let c = s.get_char(i);
        if is_whitespace(c) {
            proof {
                let t = s@.skip(i as int);
                assert(t[0] == c);
                assert(t.drop_first() =~= s@.skip(i + 1));
            }
            i = i + 1;
        } else {
            let start = i;
            i = i + 1;
            while i < n
                invariant
                    n == s@.len(),
                    start < i <= n,
                    forall|k: int| start <= k < i ==> !is_white_space(#[trigger] s@[k]),
                ensures
                    start < i <= n,
                    forall|k: int| start <= k < i ==> !is_white_space(#[trigger] s@[k]),
                    i == n || is_white_space(s@[i as int]),
                decreases n - i,
            {
                let d = s.get_char(i);
                if is_whitespace(d) {
                    break;
                }
                i = i + 1;
            }
            let w = s.substring_char(start, i).to_string();
            proof {
                let t = s@.skip(start as int);
                let m = (i - start) as nat;
                assert forall|k: int| 0 <= k < m implies !is_white_space(#[trigger] t[k]) by {
                    assert(t[k] == s@[start + k]);
                }
                if i < n {
                    assert(t[m as int] == s@[i as int]);
                }
                lemma_word_len_exact(t, m);
                assert(t.take(m as int) =~= s@.subrange(start as int, i as int));
                assert(t.skip(m as int) =~= s@.skip(i as int));
                assert(strings_view(out@.push(w)) =~= strings_view(out@).push(w@));
            }
            out.push(w);
        }
    }
    proof {
        assert(s@.skip(n as int) =~= Seq::<char>::empty());
        assert(strings_view(out@) + Seq::<Seq<char>>::empty() =~= strings_view(out@));
    }
    out
}

/// The decimal digit character for `d < 10`.
pub open spec fn digit_char(d: nat) -> char {
    seq!['0', '1', '2', '3', '4', '5', '6', '7', '8', '9'][d as int]
}

/// The decimal numeral of `n`, without leading zeros.
pub open spec fn decimal(n: nat) -> Seq<char>
    decreases n,
{
    if n < 10 {
        seq![digit_char(n)]
    } else {
        decimal(n / 10) + seq![digit_char(n % 10)]
    }
}

/// The number that a text of decimal digits stands for, read in base ten
/// from the character codes (`'0'` is 48).
pub open spec fn base_ten_value(s: Seq<char>) -> int
    decreases s.len(),
{
    if s.len() == 0 {
        0
    } else {
        base_ten_value(s.drop_last()) * 10 + ((s.last() as u32) as int - 48)
    }
}

/// Whether `c` is one of the characters `'0'` to `'9'`.
pub open spec fn is_decimal_digit(c: char) -> bool {
    48 <= (c as u32) <= 57
}

proof fn lemma_digit_char_code(d: nat)
    requires
        d < 10,
    ensures
        (digit_char(d) as u32) as int == 48 + d,
{
    assert(('0' as u32) == 48 && ('1' as u32) == 49 && ('2' as u32) == 50 && ('3' as u32) == 51
        && ('4' as u32) == 52 && ('5' as u32) == 53 && ('6' as u32) == 54 && ('7' as u32) == 55
        && ('8' as u32) == 56 && ('9' as u32) == 57);
}

/// The decimal numeral of `n` is made of the digits `'0'` to `'9'`, starts
/// with `'0'` only when it is `"0"`, and read back in base ten it is `n`.
pub proof fn decimal_reads_back(n: nat)
    ensures
        forall|i: int| 0 <= i < decimal(n).len() ==> is_decimal_digit(#[trigger] decimal(n)[i]),
        decimal(n).len() >= 1,
        decimal(n)[0] == '0' ==> n == 0,
        base_ten_value(decimal(n)) == n,
    decreases n,
{
    if n < 10 {
        lemma_digit_char_code(n);
        assert(decimal(n) == seq![digit_char(n)]);
        assert(decimal(n).drop_last() =~= Seq::<char>::empty());
        assert(base_ten_value(Seq::<char>::empty()) == 0);
        assert(base_ten_value(decimal(n)) == base_ten_value(decimal(n).drop_last()) * 10 + ((
        digit_char(n) as u32) as int - 48));
        if n != 0 {
            assert((digit_char(n) as u32) != 48);
        }
    } else {
        let q = n / 10;
        let r = n % 10;
        decimal_reads_back(q);
        lemma_digit_char_code(r);
        let s = decimal(n);
        assert(s == decimal(q) + seq![digit_char(r)]);
        assert(s.drop_last() =~= decimal(q));
        assert(s.last() == digit_char(r));
        assert forall|i: int| 0 <= i < s.len() implies is_decimal_digit(#[trigger] s[i]) by {
            if i < decimal(q).len() {
                assert(s[i] == decimal(q)[i]);
            }
        }
        assert(s[0] == decimal(q)[0]);
        assert(base_ten_value(s) == base_ten_value(decimal(q)) * 10 + ((digit_char(r) as u32) as int
            - 48));
        assert(q * 10 + r == n);
    }
}

fn digit_str(d: usize) -> (s: &'static str)
    requires
        d < 10,
    ensures
        s@ == seq![digit_char(d as nat)],
{
    proof {
        reveal_strlit("0");
        reveal_strlit("1");
        reveal_strlit("2");
        reveal_strlit("3");
        reveal_strlit("4");
        reveal_strlit("5");
        reveal_strlit("6");
        reveal_strlit("7");
        reveal_strlit("8");
        reveal_strlit("9");
    }
    if d == 0 {
        "0"
    } else if d == 1 {
        "1"
    } else if d == 2 {
        "2"
    } else if d == 3 {
        "3"
    } else if d == 4 {
        "4"
    } else if d == 5 {
        "5"
    } else if d == 6 {
        "6"
    } else if d == 7 {
        "7"
    } else if d == 8 {
        "8"
    } else {
        "9"
    }
}

/// The decimal numeral of `n`, as `Display` prints an integer.
pub fn decimal_string(n: usize) -> (s: String)
    ensures
        s@ == decimal(n as nat),
        base_ten_value(s@) == n,
        forall|i: int| 0 <= i < s@.len() ==> is_decimal_digit(#[trigger] s@[i]),
{
    proof {
        decimal_reads_back(n as nat);
    }
    let mut v: usize = n / 10;
    let mut out = String::from_str(digit_str(n % 10));
    while v > 0
        invariant
            v > 0 ==> decimal(n as nat) == decimal(v as nat) + out@,
            v == 0 ==> decimal(n as nat) == out@,
        decreases v,
    {
        let next = String::from_str(digit_str(v % 10)).concat(out.as_str());
        proof {
            assert(decimal(v as nat) + out@ =~= if v < 10 {
                next@
            } else {
                decimal((v / 10) as nat) + next@
            });
        }
        out = next;
        v = v / 10;
    }
    out
}

/// The lower-case hexadecimal digit for `d < 16`.
pub open spec fn hex_digit(d: nat) -> char {
    seq!['0', '1', '2', '3', '4', '5', '6', '7', '8', '9', 'a', 'b', 'c', 'd', 'e', 'f'][d as int]
}

/// How `serde_json` writes one character inside a string literal: `"` and
/// `\` behind a backslash, backspace, tab, line feed, form feed and carriage
/// return as `\b \t \n \f \r`, other characters below `0x20` as `\u00XX`
/// (lower-case hex), every other character as itself.
pub open spec fn json_escaped_char(c: char) -> Seq<char> {
    let u = c as u32;
    if c == '"' {
        seq!['\\', '"']
    } else if c == '\\' {
        seq!['\\', '\\']
    } else if u == 0x8 {
        seq!['\\', 'b']
    } else if u == 0x9 {
        seq!['\\', 't']
    } else if u == 0xa {
        seq!['\\', 'n']
    } else if u == 0xc {
        seq!['\\', 'f']
    } else if u == 0xd {
        seq!['\\', 'r']
    } else if u < 0x20 {
        seq!['\\', 'u', '0', '0', hex_digit((u / 16) as nat), hex_digit((u % 16) as nat)]
    } else {
        seq![c]
    }
}

/// The escaped characters of `s`, in order.
pub open spec fn json_escaped(s: Seq<char>) -> Seq<char>
    decreases s.len(),
{
    if s.len() == 0 {
        seq![]
    } else {
        json_escaped(s.drop_last()) + json_escaped_char(s.last())
    }
}

/// What `serde_json` writes for a string: the escaped characters in quotes.
pub open spec fn json_string(s: Seq<char>) -> Seq<char> {
    seq!['"'] + json_escaped(s) + seq!['"']
}

/// `serde_json::to_string` of a string slice (serde_json 1.0.154,
/// `ser.rs`, `format_escaped_str_contents`); writing into memory cannot fail,
/// so the literal is always there.
#[verifier::external_body]
pub(crate) fn to_json_string(s: &str) -> (j: String)
    ensures
        j@ == json_string(s@),
{
    serde_json::to_string(s).unwrap_or_default()
}

/// Whether a header byte is visible ASCII (or a tab), as `http` requires
/// for a header value to read as text.
pub open spec fn is_visible_ascii(b: u8) -> bool {
    (32 <= b && b < 127) || b == 9
}

/// The characters of ASCII bytes.
pub open spec fn ascii_chars(bytes: Seq<u8>) -> Seq<char> {
    bytes.map_values(|b: u8| b as char)
}

/// `http::HeaderValue::from_bytes` then `to_str` (http 0.2.12,
/// `src/header/value.rs`): the text of a header value
/// when every byte of it is visible ASCII.
#[verifier::external_body]
pub(crate) fn header_value_text(bytes: &[u8]) -> (t: Option<String>)
    ensures
        t is Some <==> forall|i: int| 0 <= i < bytes@.len() ==> is_visible_ascii(#[trigger] bytes@[i]),
        t matches Some(s) ==> s@ == ascii_chars(bytes@),
{
    match http::HeaderValue::from_bytes(bytes) {
        Ok(value) => match value.to_str() {
            Ok(text) => Some(text.to_string()),
            Err(_) => None,
        },
        Err(_) => None,
    }
}

} // verus!

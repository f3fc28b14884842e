//! The pieces of JSON text that the attribute document is made of:
//! string literals, which `serde_json` writes, and decimal numerals.

use vstd::prelude::*;

verus! {

#[verifier::external_type_specification]
#[verifier::external_body]
pub struct ExJsonError(serde_json::Error);

/// The lower-case hexadecimal digit of a value in `0..16`.
pub open spec fn hex_digit_lower(d: int) -> char {
    seq!['0', '1', '2', '3', '4', '5', '6', '7', '8', '9', 'a', 'b', 'c', 'd', 'e', 'f'][d]
}

/// Whether a character is written as an escape sequence inside a JSON string:
/// the quote, the backslash and the control characters below U+0020.
pub open spec fn needs_escape(c: char) -> bool {
    c == '"' || c == '\\' || (c as u32) < 0x20
}

/// How one character is written inside a JSON string: the two-character
/// escapes for the quote, the backslash, backspace, tab, line feed, form feed
/// and carriage return; `\u00xx` with lower-case hex for the other control
/// characters; every other character as itself.
pub open spec fn json_char(c: char) -> Seq<char> {
    if c == '"' {
        seq!['\\', '"']
    } else if c == '\\' {
        seq!['\\', '\\']
    } else if c == '\u{8}' {
        seq!['\\', 'b']
    } else if c == '\t' {
        seq!['\\', 't']
    } else if c == '\n' {
        seq!['\\', 'n']
    } else if c == '\u{c}' {
        seq!['\\', 'f']
    } else if c == '\r' {
        seq!['\\', 'r']
    } else if (c as u32) < 0x20 {
        seq![
            '\\',
            'u',
            '0',
            '0',
            hex_digit_lower((c as int) / 16),
            hex_digit_lower((c as int) % 16),
        ]
    } else {
        seq![c]
    }
}

/// The characters of `s`, each written as `json_char` writes it.
pub open spec fn json_chars(s: Seq<char>) -> Seq<char>
    decreases s.len(),
{
    if s.len() == 0 {
        Seq::empty()
    } else {
        json_char(s[0]) + json_chars(s.drop_first())
    }
}

/// The JSON string literal of `s`: its characters between double quotes.
pub open spec fn json_string(s: Seq<char>) -> Seq<char> {
    seq!['"'] + json_chars(s) + seq!['"']
}

/// `serde_json::to_string` on a `str`.
///
/// Claimed of it: the result is `Ok`, and the text is the string between double
/// quotes with exactly the escapes that `json_char` describes. This follows
/// serde_json's `format_escaped_str` and its `ESCAPE` table (only bytes below
/// 0x20, the quote and the backslash are escaped, control bytes other than the
/// five named ones as `\u00` and two lower-case hex digits) and its writer,
/// a `Vec<u8>`, which never fails to take bytes.
#[verifier::external_body]
pub(crate) fn json_quote(s: &str) -> (res: Result<String, serde_json::Error>)
    ensures
        res is Ok,
        res matches Ok(v) ==> v@ == json_string(s@),
{
    serde_json::to_string(s)
}

/// Characters that need no escape are written as themselves.
pub proof fn lemma_json_chars_plain(s: Seq<char>)
    requires
        forall|i: int| 0 <= i < s.len() ==> !needs_escape(#[trigger] s[i]),
    ensures
        json_chars(s) == s,
    decreases s.len(),
{
    if s.len() > 0 {
        assert(!needs_escape(s[0]));
        lemma_json_chars_plain(s.drop_first());
        assert(json_chars(s) =~= seq![s[0]] + s.drop_first());
    }
}

/// Every character is written as at least one character.
pub proof fn lemma_json_char_nonempty(c: char)
    ensures
        json_char(c).len() >= 1,
        json_char(c)[0] == '\\' <==> needs_escape(c),
{
}

/// Two characters whose escapes start the same text are the same character.
pub proof fn lemma_json_char_prefix_unique(x: char, y: char, rx: Seq<char>, ry: Seq<char>)
    requires
        json_char(x) + rx == json_char(y) + ry,
    ensures
        x == y,
{
    let t = json_char(x) + rx;
    lemma_json_char_nonempty(x);
    lemma_json_char_nonempty(y);
    assert(t[0] == json_char(x)[0]);
    assert(t[0] == (json_char(y) + ry)[0]);
    if needs_escape(x) {
        assert(t[1] == json_char(x)[1]);
        assert(t[1] == json_char(y)[1]);
        if (x as u32) < 0x20 && x != '\u{8}' && x != '\t' && x != '\n' && x != '\u{c}' && x != '\r' {
            assert(json_char(x)[1] == 'u');
            assert(json_char(y)[1] == 'u');
            assert(t[4] == json_char(x)[4]);
            assert(t[4] == json_char(y)[4]);
            assert(t[5] == json_char(x)[5]);
            assert(t[5] == json_char(y)[5]);
            lemma_hex_digit_unique((x as int) / 16, (y as int) / 16);
            lemma_hex_digit_unique((x as int) % 16, (y as int) % 16);
            assert((x as int) == (x as int) / 16 * 16 + (x as int) % 16);
            assert((y as int) == (y as int) / 16 * 16 + (y as int) % 16);
        }
    }
}

/// Distinct values below 16 have distinct hexadecimal digits.
pub proof fn lemma_hex_digit_unique(a: int, b: int)
    requires
        0 <= a < 16,
        0 <= b < 16,
        hex_digit_lower(a) == hex_digit_lower(b),
    ensures
        a == b,
{
    let h = seq!['0', '1', '2', '3', '4', '5', '6', '7', '8', '9', 'a', 'b', 'c', 'd', 'e', 'f'];
    assert(forall|i: int, j: int| 0 <= i < 16 && 0 <= j < 16 && i != j ==> h[i] != h[j]);
}

/// Writing a string inside a JSON string loses nothing: distinct strings are
/// written differently.
pub proof fn lemma_json_chars_injective(a: Seq<char>, b: Seq<char>)
    requires
        json_chars(a) == json_chars(b),
    ensures
        a == b,
    decreases a.len(),
{
    if a.len() == 0 {
        if b.len() > 0 {
            lemma_json_char_nonempty(b[0]);
        }
    } else {
        lemma_json_char_nonempty(a[0]);
        if b.len() == 0 {
            assert(false);
        } else {
            lemma_json_char_prefix_unique(a[0], b[0], json_chars(a.drop_first()), json_chars(b.drop_first()));
            let k = json_char(a[0]).len() as int;
            assert(json_chars(a.drop_first()) =~= json_chars(a).subrange(k, json_chars(a).len() as int));
            assert(json_chars(b.drop_first()) =~= json_chars(b).subrange(k, json_chars(b).len() as int));
            lemma_json_chars_injective(a.drop_first(), b.drop_first());
            assert(a =~= seq![a[0]] + a.drop_first());
            assert(b =~= seq![b[0]] + b.drop_first());
        }
    }
}

/// The decimal digit of a value in `0..10`.
pub open spec fn digit_char(d: int) -> char {
    seq!['0', '1', '2', '3', '4', '5', '6', '7', '8', '9'][d]
}

/// The decimal numeral of `n`, most significant digit first, without leading zeros.
pub open spec fn decimal(n: nat) -> Seq<char>
    decreases n,
{
    if n < 10 {
        seq![digit_char(n as int)]
    } else {
        decimal(n / 10).push(digit_char((n % 10) as int))
    }
}

/// The value of a digit character (`0` for a character that is not a digit).
pub open spec fn digit_value(c: char) -> nat {
    if '0' <= c <= '9' {
        ((c as u32) - ('0' as u32)) as nat
    } else {
        0
    }
}

/// The number that a string of decimal digits denotes.
pub open spec fn numeral_value(s: Seq<char>) -> nat
    decreases s.len(),
{
    if s.len() == 0 {
        0
    } else {
        numeral_value(s.drop_last()) * 10 + digit_value(s.last())
    }
}

/// The ten digit characters: each is a digit, denotes its value, and only
/// the digit of zero is `0`.
proof fn lemma_digit_char(d: int)
    requires
        0 <= d < 10,
    ensures
        '0' <= digit_char(d) <= '9',
        digit_value(digit_char(d)) == d,
        d != 0 ==> digit_char(d) != '0',
{
    assert(digit_char(0) == '0');
    assert(digit_char(1) == '1');
    assert(digit_char(2) == '2');
    assert(digit_char(3) == '3');
    assert(digit_char(4) == '4');
    assert(digit_char(5) == '5');
    assert(digit_char(6) == '6');
    assert(digit_char(7) == '7');
    assert(digit_char(8) == '8');
    assert(digit_char(9) == '9');
}

/// Reading a decimal numeral gives back the number it was written from, and
/// the numeral is made of digits with no leading zero.
pub proof fn lemma_decimal_reads_back(n: nat)
    ensures
        numeral_value(decimal(n)) == n,
        decimal(n).len() >= 1,
        forall|i: int| 0 <= i < decimal(n).len() ==> '0' <= #[trigger] decimal(n)[i] <= '9',
        decimal(n).len() > 1 ==> decimal(n)[0] != '0',
        n >= 10 ==> decimal(n).len() > 1,
    decreases n,
{
    let d = decimal(n);
    if n < 10 {
        lemma_digit_char(n as int);
        assert(d.drop_last() =~= Seq::<char>::empty());
        assert(numeral_value(d.drop_last()) == 0);
    } else {
        let q = n / 10;
        let r = (n % 10) as int;
        lemma_decimal_reads_back(q);
        lemma_digit_char(r);
        assert(d.drop_last() =~= decimal(q));
        assert(n == q * 10 + r);
        assert(numeral_value(d) == numeral_value(d.drop_last()) * 10 + digit_value(d.last()));
        assert forall|i: int| 0 <= i < d.len() implies '0' <= #[trigger] d[i] <= '9' by {
            if i < d.len() - 1 {
                assert(d[i] == decimal(q)[i]);
            }
        }
        if q < 10 {
            lemma_digit_char(q as int);
            assert(decimal(q) =~= seq![digit_char(q as int)]);
        }
        assert(d[0] == decimal(q)[0]);
    }
}

/// The one-character string of a decimal digit.
fn digit_str(d: usize) -> (s: &'static str)
    requires
        d < 10,
    ensures
        s@ == seq![digit_char(d as int)],
{
    proof {
        reveal_strlit("0");
        reveal_strlit("1");
        reveal_strlit("2");
        reveal_strlit("3");
        reveal_strlit("4");
        reveal_strlit("5");
        reveal_strlit("6");
        reveal_strlit("7");
        reveal_strlit("8");
        reveal_strlit("9");
    }
    let s = match d {
        0 => "0",
        1 => "1",
        2 => "2",
        3 => "3",
        4 => "4",
        5 => "5",
        6 => "6",
        7 => "7",
        8 => "8",
        _ => "9",
    };
    assert(s@ =~= seq![digit_char(d as int)]);
    s
}

/// Writes `n` in decimal, as JSON writes an unsigned integer.
pub fn decimal_string(n: usize) -> (s: String)
    ensures
        s@ == decimal(n as nat),
    decreases n,
{
    if n < 10 {
        String::from_str(digit_str(n))
    } else {
        let mut s = decimal_string(n / 10);
        s.append(digit_str(n % 10));
        s
    }
}

} // verus!

//! JSON text that the client sends.

use vstd::prelude::*;

verus! {

/// The small hexadecimal digit of `n` (below 16).
pub open spec fn hex_digit(n: u32) -> char {
    if n < 10 {
        (48 + n) as char
    } else {
        (87 + n) as char
    }
}

/// How a character stands inside a JSON string: `"` and `\` behind a
/// backslash; backspace, tab, line feed, form feed and carriage return as
/// `\b \t \n \f \r`; the other control characters below 0x20 as `\u00XX`
/// with small hexadecimal digits; every other character as itself.
pub open spec fn json_escaped_char(c: char) -> Seq<char> {
    let code = c as u32;
    if c == '"' {
        seq!['\\', '"']
    } else if c == '\\' {
        seq!['\\', '\\']
    } else if c == '\u{8}' {
        seq!['\\', 'b']
    } else if c == '\t' {
        seq!['\\', 't']
    } else if c == '\n' {
        seq!['\\', 'n']
    } else if c == '\u{c}' {
        seq!['\\', 'f']
    } else if c == '\r' {
        seq!['\\', 'r']
    } else if code < 32 {
        seq!['\\', 'u', '0', '0', hex_digit(code / 16), hex_digit(code % 16)]
    } else {
        seq![c]
    }
}

/// The characters of `text`, each as it stands inside a JSON string.
pub open spec fn json_escaped(text: Seq<char>) -> Seq<char>
    decreases text.len(),
{
    if text.len() == 0 {
        Seq::empty()
    } else {
        json_escaped(text.drop_last()) + json_escaped_char(text.last())
    }
}

/// The JSON string that holds `text`: its escaped characters between
/// double quotes.
pub open spec fn json_string_literal(text: Seq<char>) -> Seq<char> {
    seq!['"'] + json_escaped(text) + seq!['"']
}

/// The value of a small hexadecimal digit.
pub open spec fn hex_value(c: char) -> int {
    if '0' <= c && c <= '9' {
        c as int - 48
    } else {
        c as int - 87
    }
}

/// A small hexadecimal digit.
pub open spec fn is_hex_digit(c: char) -> bool {
    ('0' <= c && c <= '9') || ('a' <= c && c <= 'f')
}

/// The character that the escape sequence at the start of `s` (which
/// starts with a backslash) stands for, and the length of that sequence.
pub open spec fn unescape_at(s: Seq<char>) -> Option<(char, int)> {
    if s.len() < 2 || s[0] != '\\' {
        None
    } else if s[1] == '"' {
        Some(('"', 2))
    } else if s[1] == '\\' {
        Some(('\\', 2))
    } else if s[1] == 'b' {
        Some(('\u{8}', 2))
    } else if s[1] == 't' {
        Some(('\t', 2))
    } else if s[1] == 'n' {
        Some(('\n', 2))
    } else if s[1] == 'f' {
        Some(('\u{c}', 2))
    } else if s[1] == 'r' {
        Some(('\r', 2))
    } else if s[1] == 'u' && s.len() >= 6 && s[2] == '0' && s[3] == '0' && is_hex_digit(s[4])
        && is_hex_digit(s[5]) {
        Some(((16 * hex_value(s[4]) + hex_value(s[5])) as char, 6))
    } else {
        None
    }
}

/// Reads the rest of a JSON string whose opening quote was already read:
/// the text it holds, and how many characters of `s` it took up to and
/// including its closing quote.  `None` when `s` holds no such string.
pub open spec fn read_json_string(s: Seq<char>) -> Option<(Seq<char>, int)>
    decreases s.len(),
{
    if s.len() == 0 {
        None
    } else if s[0] == '"' {
        Some((Seq::empty(), 1))
    } else if s[0] == '\\' {
        match unescape_at(s) {
            Some((c, k)) => if 2 <= k <= s.len() {
                match read_json_string(s.skip(k)) {
                    Some((text, n)) => Some((seq![c] + text, n + k)),
                    None => None,
                }
            } else {
                None
            },
            None => None,
        }
    } else {
        match read_json_string(s.drop_first()) {
            Some((text, n)) => Some((seq![s[0]] + text, n + 1)),
            None => None,
        }
    }
}

proof fn lemma_escaped_append(a: Seq<char>, b: Seq<char>)
    ensures
        json_escaped(a + b) == json_escaped(a) + json_escaped(b),
    decreases b.len(),
{
    if b.len() == 0 {
        assert(a + b =~= a);
        assert(json_escaped(b) =~= Seq::<char>::empty());
        assert(json_escaped(a) + json_escaped(b) =~= json_escaped(a));
    } else {
        lemma_escaped_append(a, b.drop_last());
        assert((a + b).drop_last() =~= a + b.drop_last());
        assert((a + b).last() == b.last());
        assert(json_escaped(a + b) =~= json_escaped(a) + json_escaped(b));
    }
}

proof fn lemma_escaped_front(c: char, t: Seq<char>)
    ensures
        json_escaped(seq![c] + t) == json_escaped_char(c) + json_escaped(t),
{
    lemma_escaped_append(seq![c], t);
    assert(seq![c].drop_last() =~= Seq::<char>::empty());
    assert(json_escaped(Seq::<char>::empty()) =~= Seq::<char>::empty());
    assert(seq![c].last() == c);
    assert(json_escaped(seq![c]) =~= json_escaped_char(c));
}

proof fn lemma_hex_round_trip(d: u32)
    requires
        d < 16,
    ensures
        is_hex_digit(hex_digit(d)),
        hex_value(hex_digit(d)) == d,
{
}

/// The first character of a text, escaped, is read back as itself.
proof fn lemma_read_one(c: char, s: Seq<char>, tail: Seq<char>)
    requires
        s == json_escaped_char(c) + tail,
    ensures
        read_json_string(s) == match read_json_string(tail) {
            Some((text, n)) => Some((seq![c] + text, n + json_escaped_char(c).len())),
            None => None::<(Seq<char>, int)>,
        },
{
    let e = json_escaped_char(c);
    let code = c as u32;
    assert(s.skip(e.len() as int) =~= tail);
    assert(forall|i: int| 0 <= i < e.len() ==> s[i] == e[i]);
    if c == '"' || c == '\\' || c == '\u{8}' || c == '\t' || c == '\n' || c == '\u{c}' || c == '\r' {
        assert(e.len() == 2);
        assert(s[0] == '\\');
        assert(unescape_at(s) == Some((c, 2int)));
    } else if code < 32 {
        lemma_read_control(c, s);
    } else {
        assert(s[0] == c);
        assert(s.drop_first() =~= tail);
    }
}

proof fn lemma_read_control(c: char, s: Seq<char>)
    requires
        (c as u32) < 32,
        c != '\u{8}' && c != '\t' && c != '\n' && c != '\u{c}' && c != '\r',
        s.len() >= 6,
        forall|i: int| 0 <= i < 6 ==> s[i] == #[trigger] json_escaped_char(c)[i],
    ensures
        unescape_at(s) == Some((c, 6int)),
{
    let code = c as u32;
    lemma_hex_round_trip(code / 16);
    lemma_hex_round_trip(code % 16);
    let e = json_escaped_char(c);
    assert(e == seq!['\\', 'u', '0', '0', hex_digit(code / 16), hex_digit(code % 16)]);
    assert(s[0] == e[0] && s[1] == e[1] && s[2] == e[2] && s[3] == e[3] && s[4] == e[4] && s[5] == e[5]);
    let n: int = 16 * hex_value(s[4]) + hex_value(s[5]);
    assert(n == code) by (nonlinear_arith)
        requires
            hex_value(s[4]) == code / 16,
            hex_value(s[5]) == code % 16,
            n == 16 * hex_value(s[4]) + hex_value(s[5]);
    assert((n as char) == c);
}

/// Reading back the escaped characters of `text` and a closing quote gives
/// `text`, whatever follows.
pub proof fn law_read_back_escaped(text: Seq<char>, rest: Seq<char>)
    ensures
        read_json_string(json_escaped(text) + seq!['"'] + rest)
            == Some((text, json_escaped(text).len() + 1int)),
    decreases text.len(),
{
    let s = json_escaped(text) + seq!['"'] + rest;
    if text.len() == 0 {
        assert(json_escaped(text) =~= Seq::<char>::empty());
        assert(s[0] == '"');
        assert(text =~= Seq::<char>::empty());
    } else {
        let c = text[0];
        let t = text.drop_first();
        assert(text =~= seq![c] + t);
        lemma_escaped_front(c, t);
        law_read_back_escaped(t, rest);
        let e = json_escaped_char(c);
        let tail = json_escaped(t) + seq!['"'] + rest;
        assert(s =~= e + tail);
        lemma_read_one(c, s, tail);
        assert(seq![c] + t =~= text);
    }
}

/// A JSON string gives back the text it was made from, whatever follows it.
pub proof fn law_json_string_reads_back(text: Seq<char>, rest: Seq<char>)
    ensures
        (json_string_literal(text) + rest)[0] == '"',
        read_json_string((json_string_literal(text) + rest).drop_first())
            == Some((text, json_string_literal(text).len() - 1int)),
{
    law_read_back_escaped(text, rest);
    assert((json_string_literal(text) + rest).drop_first() =~= json_escaped(text) + seq!['"'] + rest);
}

/// Text without quotes, backslashes or control characters stands in a JSON
/// string as it is: its JSON string is the text between double quotes.
pub proof fn law_plain_text_is_quoted(text: Seq<char>)
    requires
        forall|i: int| 0 <= i < text.len() ==> {
            &&& #[trigger] text[i] != '"'
            &&& text[i] != '\\'
            &&& text[i] as u32 >= 32
        },
    ensures
        json_escaped(text) == text,
        json_string_literal(text) == seq!['"'] + text + seq!['"'],
    decreases text.len(),
{
    if text.len() > 0 {
        let pre = text.drop_last();
        assert forall|i: int| 0 <= i < pre.len() implies {
            &&& #[trigger] pre[i] != '"'
            &&& pre[i] != '\\'
            &&& pre[i] as u32 >= 32
        } by {
            assert(pre[i] == text[i]);
        }
        law_plain_text_is_quoted(pre);
        assert(text[text.len() - 1] == text.last());
        assert(json_escaped(text) =~= text);
    }
}

/// Calls `serde_json::to_string` on a `str`.  The contract claims that the
/// result is the JSON string that holds the text, escaped as serde_json's
/// escape table does it (`json_escaped_char`).  serde_json writes a `str`
/// into an in-memory buffer, which cannot fail, so its error branch is
/// never taken.
#[verifier::external_body]
pub(crate) fn to_json_string(text: &str) -> (r: String)
    ensures
        r@ == json_string_literal(text@),
{
    match serde_json::to_string(text) {
        Ok(encoded) => encoded,
        Err(_) => String::new(),
    }
}

} // verus!

use vstd::prelude::*;
use vstd::string::StrSliceExecFns;

verus! {

// The token payload is compact JSON, written here as serde's derived
// serializers write it with serde_json: no blanks, fields in declaration
// order, `null` for an absent value, strings escaped as below.

/// A lower-case hexadecimal digit.
pub open spec fn hex_digit(n: int) -> char {
    if n == 0 { '0' } else if n == 1 { '1' } else if n == 2 { '2' } else if n == 3 { '3' }
    else if n == 4 { '4' } else if n == 5 { '5' } else if n == 6 { '6' } else if n == 7 { '7' }
    else if n == 8 { '8' } else if n == 9 { '9' } else if n == 10 { 'a' } else if n == 11 { 'b' }
    else if n == 12 { 'c' } else if n == 13 { 'd' } else if n == 14 { 'e' } else { 'f' }
}

/// How one character stands inside a JSON string: quote and backslash behind a
/// backslash, the short escapes for backspace, tab, line feed, form feed and
/// carriage return, `\u00XX` for the other control characters, and every other
/// character as itself.
pub open spec fn escape_char(c: char) -> Seq<char> {
    if c == '"' {
        seq!['\\', '"']
    } else if c == '\\' {
        seq!['\\', '\\']
    } else if c == '\u{8}' {
        seq!['\\', 'b']
    } else if c == '\t' {
        seq!['\\', 't']
    } else if c == '\n' {
        seq!['\\', 'n']
    } else if c == '\u{c}' {
        seq!['\\', 'f']
    } else if c == '\r' {
        seq!['\\', 'r']
    } else if (c as int) < 0x20 {
        seq!['\\', 'u', '0', '0', hex_digit((c as int) / 16), hex_digit((c as int) % 16)]
    } else {
        seq![c]
    }
}

/// The escaped form of a whole text.
pub open spec fn escape(s: Seq<char>) -> Seq<char>
    decreases s.len(),
{
    if s.len() == 0 {
        Seq::<char>::empty()
    } else {
        escape(s.drop_last()) + escape_char(s.last())
    }
}

/// A JSON string literal.
pub open spec fn json_string(s: Seq<char>) -> Seq<char> {
    seq!['"'] + escape(s) + seq!['"']
}

/// An optional string: `null` or a string literal.
pub open spec fn json_opt_string(o: Option<Seq<char>>) -> Seq<char> {
    match o {
        None => "null"@,
        Some(s) => json_string(s),
    }
}

/// An optional boolean.
pub open spec fn json_opt_bool(o: Option<bool>) -> Seq<char> {
    match o {
        None => "null"@,
        Some(true) => "true"@,
        Some(false) => "false"@,
    }
}

/// A decimal digit.
pub open spec fn decimal_digit(n: int) -> char {
    hex_digit(n)
}

/// The decimal digits of a natural number, without leading zeros.
pub open spec fn decimal(n: nat) -> Seq<char>
    decreases n,
{
    if n < 10 {
        seq![decimal_digit(n as int)]
    } else {
        decimal(n / 10).push(decimal_digit((n % 10) as int))
    }
}

/// A JSON integer.
pub open spec fn json_int(n: int) -> Seq<char> {
    if n < 0 {
        seq!['-'] + decimal((-n) as nat)
    } else {
        decimal(n as nat)
    }
}

fn hex_str(n: u32) -> (r: &'static str)
    requires
        n < 16,
    ensures
        r@ == seq![hex_digit(n as int)],
{
    proof {
        reveal_strlit("0"); reveal_strlit("1"); reveal_strlit("2"); reveal_strlit("3");
        reveal_strlit("4"); reveal_strlit("5"); reveal_strlit("6"); reveal_strlit("7");
        reveal_strlit("8"); reveal_strlit("9"); reveal_strlit("a"); reveal_strlit("b");
        reveal_strlit("c"); reveal_strlit("d"); reveal_strlit("e"); reveal_strlit("f");
    }
    if n == 0 { "0" } else if n == 1 { "1" } else if n == 2 { "2" } else if n == 3 { "3" }
    else if n == 4 { "4" } else if n == 5 { "5" } else if n == 6 { "6" } else if n == 7 { "7" }
    else if n == 8 { "8" } else if n == 9 { "9" } else if n == 10 { "a" } else if n == 11 { "b" }
    else if n == 12 { "c" } else if n == 13 { "d" } else if n == 14 { "e" } else { "f" }
}

/// Appends the escaped form of the character at position `i` of `s`.
fn append_escaped_char(out: &mut String, s: &str, i: usize)
    requires
        i < s@.len() <= usize::MAX,
    ensures
        final(out)@ == old(out)@ + escape_char(s@[i as int]),
{
    let c = s.get_char(i);
    proof {
        reveal_strlit("\\\""); reveal_strlit("\\\\"); reveal_strlit("\\b"); reveal_strlit("\\t");
        reveal_strlit("\\n"); reveal_strlit("\\f"); reveal_strlit("\\r"); reveal_strlit("\\u00");
    }
    if c == '"' {
        out.append("\\\"");
    } else if c == '\\' {
        out.append("\\\\");
    } else if c == '\u{8}' {
        out.append("\\b");
    } else if c == '\t' {
        out.append("\\t");
    } else if c == '\n' {
        out.append("\\n");
    } else if c == '\u{c}' {
        out.append("\\f");
    } else if c == '\r' {
        out.append("\\r");
    } else if (c as u32) < 0x20 {
        let code = c as u32;
        out.append("\\u00");
        out.append(hex_str(code / 16));
        out.append(hex_str(code % 16));
        proof {
            assert(final(out)@ =~= old(out)@ + escape_char(c)) by {
                assert(escape_char(c) =~= seq!['\\', 'u', '0', '0'] + seq![hex_digit((code / 16) as int)] + seq![hex_digit((code % 16) as int)]);
            }
        }
    } else {
        out.append(s.substring_char(i, i + 1));
        proof {
            assert(s@.subrange(i as int, i as int + 1) =~= seq![c]);
        }
    }
}

/// Appends `s` as a JSON string literal.
pub fn append_json_string(out: &mut String, s: &str)
    ensures
        final(out)@ == old(out)@ + json_string(s@),
{
    let ghost start = out@;
    proof {
        reveal_strlit("\"");
    }
    out.append("\"");
    let n = s.unicode_len();
    let mut i: usize = 0;
    proof {
        assert(s@.subrange(0, 0) =~= Seq::<char>::empty());
        assert(out@ =~= start + seq!['"'] + escape(s@.subrange(0, 0)));
    }
    while i < n
        invariant
            n == s@.len(),
            i <= n,
            out@ == start + seq!['"'] + escape(s@.subrange(0, i as int)),
        decreases n - i,
    {
        append_escaped_char(out, s, i);
        proof {
            let t = s@.subrange(0, i as int + 1);
            assert(t.drop_last() =~= s@.subrange(0, i as int));
            assert(t.last() == s@[i as int]);
            assert(escape(t) == escape(s@.subrange(0, i as int)) + escape_char(s@[i as int]));
        }
        i = i + 1;
    }
    out.append("\"");
    proof {
        assert(s@.subrange(0, n as int) =~= s@);
        assert(out@ =~= start + json_string(s@));
    }
}

/// Appends an optional string.
pub fn append_json_opt_string(out: &mut String, o: &Option<String>)
    ensures
        final(out)@ == old(out)@ + json_opt_string(match o {
            None => None,
            Some(s) => Some(s@),
        }),
{
    match o {
        None => out.append("null"),
        Some(s) => append_json_string(out, s.as_str()),
    }
}

/// Appends an optional boolean.
pub fn append_json_opt_bool(out: &mut String, o: Option<bool>)
    ensures
        final(out)@ == old(out)@ + json_opt_bool(o),
{
    match o {
        None => out.append("null"),
        Some(true) => out.append("true"),
        Some(false) => out.append("false"),
    }
}

/// Appends a JSON integer.
pub fn append_json_int(out: &mut String, n: i64)
    ensures
        final(out)@ == old(out)@ + json_int(n as int),
{
    let ghost start = out@;
    let mut m: u64 = if n < 0 {
        (-(n as i128)) as u64
    } else {
        n as u64
    };
    let ghost magnitude: nat = m as nat;
    let mut digits: Vec<u32> = Vec::new();
    let ghost mut tail: Seq<char> = Seq::<char>::empty();
    while m >= 10
        invariant
            decimal(magnitude) == decimal(m as nat) + tail,
            tail.len() == digits@.len(),
            forall|k: int| 0 <= k < tail.len() ==> digits@[digits@.len() - 1 - k] < 10 && tail[k] == decimal_digit(#[trigger] digits@[digits@.len() - 1 - k] as int),
        decreases m,
    {
        let d = (m % 10) as u32;
        proof {
            let new_tail = seq![decimal_digit(d as int)] + tail;
            assert(decimal(m as nat) == decimal((m / 10) as nat).push(decimal_digit(d as int)));
            assert(decimal((m / 10) as nat) + new_tail =~= decimal(m as nat) + tail);
            tail = new_tail;
        }
        digits.push(d);
        m = m / 10;
        proof {
            assert forall|k: int| 0 <= k < tail.len() implies digits@[digits@.len() - 1 - k] < 10 && tail[k] == decimal_digit(#[trigger] digits@[digits@.len() - 1 - k] as int) by {
                if k > 0 {
                    assert(digits@[digits@.len() - 1 - k] == digits@.drop_last()[digits@.drop_last().len() - 1 - (k - 1)]);
                }
            }
        }
    }
    digits.push(m as u32);
    proof {
        let new_tail = seq![decimal_digit(m as int)] + tail;
        assert(decimal(magnitude) =~= new_tail);
        tail = new_tail;
        assert forall|k: int| 0 <= k < tail.len() implies digits@[digits@.len() - 1 - k] < 10 && tail[k] == decimal_digit(#[trigger] digits@[digits@.len() - 1 - k] as int) by {
            if k > 0 {
                assert(digits@[digits@.len() - 1 - k] == digits@.drop_last()[digits@.drop_last().len() - 1 - (k - 1)]);
            }
        }
    }
    if n < 0 {
        proof {
            reveal_strlit("-");
        }
        out.append("-");
    }
    let ghost prefix = out@;
    let len = digits.len();
    let mut j: usize = 0;
    while j < len
        invariant
            len == digits@.len(),
            len == tail.len(),
            j <= len,
            out@ == prefix + tail.subrange(0, j as int),
            forall|k: int| 0 <= k < tail.len() ==> digits@[digits@.len() - 1 - k] < 10 && tail[k] == decimal_digit(#[trigger] digits@[digits@.len() - 1 - k] as int),
        decreases len - j,
    {
        let d = digits[len - 1 - j];
        proof {
            assert(digits@[digits@.len() - 1 - j as int] == d);
        }
        out.append(hex_str(d));
        proof {
            assert(tail.subrange(0, j as int + 1) =~= tail.subrange(0, j as int).push(tail[j as int]));
        }
        j = j + 1;
    }
    proof {
        assert(tail.subrange(0, len as int) =~= tail);
        if n < 0 {
            assert((-(n as int)) as nat == magnitude);
            assert(out@ =~= start + json_int(n as int));
        } else {
            assert(out@ =~= start + json_int(n as int));
        }
    }
}

/// Whether a character stands for itself inside a JSON string: it is neither
/// a quote, nor a backslash, nor a control character.
pub open spec fn json_plain_char(c: char) -> bool {
    c != '"' && c != '\\' && (c as int) >= 0x20
}

/// The value of a hexadecimal digit of either case.
pub open spec fn hex_value(c: char) -> Option<int> {
    if '0' <= c <= '9' {
        Some(c as int - '0' as int)
    } else if 'a' <= c <= 'f' {
        Some(c as int - 'a' as int + 10)
    } else if 'A' <= c <= 'F' {
        Some(c as int - 'A' as int + 10)
    } else {
        None
    }
}

/// The character that a two-character escape `\x` stands for.
pub open spec fn short_escape(x: char) -> Option<char> {
    if x == '"' {
        Some('"')
    } else if x == '\\' {
        Some('\\')
    } else if x == '/' {
        Some('/')
    } else if x == 'b' {
        Some('\u{8}')
    } else if x == 'f' {
        Some('\u{c}')
    } else if x == 'n' {
        Some('\n')
    } else if x == 'r' {
        Some('\r')
    } else if x == 't' {
        Some('\t')
    } else {
        None
    }
}

/// Reads the inside of a JSON string as RFC 8259 defines it: a character that
/// needs no escape stands for itself; a backslash starts one of the escapes
/// `\"`, `\\`, `\/`, `\b`, `\f`, `\n`, `\r`, `\t`, or `\u` with four
/// hexadecimal digits naming a code point outside the surrogates. Nothing where
/// the text is not the inside of a JSON string.
pub open spec fn json_unescape(t: Seq<char>) -> Option<Seq<char>>
    decreases t.len(),
{
    if t.len() == 0 {
        Some(Seq::<char>::empty())
    } else if t[0] != '\\' {
        if json_plain_char(t[0]) {
            match json_unescape(t.subrange(1, t.len() as int)) {
                Some(r) => Some(seq![t[0]] + r),
                None => None,
            }
        } else {
            None
        }
    } else if t.len() < 2 {
        None
    } else if t[1] == 'u' {
        if t.len() < 6 {
            None
        } else {
            match (hex_value(t[2]), hex_value(t[3]), hex_value(t[4]), hex_value(t[5])) {
                (Some(a), Some(b), Some(c), Some(d)) => {
                    let code = 4096 * a + 256 * b + 16 * c + d;
                    if 0xD800 <= code <= 0xDFFF {
                        None
                    } else {
                        match json_unescape(t.subrange(6, t.len() as int)) {
                            Some(r) => Some(seq![code as char] + r),
                            None => None,
                        }
                    }
                },
                _ => None,
            }
        }
    } else {
        match short_escape(t[1]) {
            Some(c) => match json_unescape(t.subrange(2, t.len() as int)) {
                Some(r) => Some(seq![c] + r),
                None => None,
            },
            None => None,
        }
    }
}

/// A character that needs no escape is written as itself.
pub proof fn lemma_plain_char_is_written_as_itself(c: char)
    requires
        json_plain_char(c),
    ensures
        escape_char(c) == seq![c],
{
}

proof fn lemma_escape_append(a: Seq<char>, b: Seq<char>)
    ensures
        escape(a + b) == escape(a) + escape(b),
    decreases b.len(),
{
    if b.len() == 0 {
        assert(a + b =~= a);
        assert(escape(a) + escape(b) =~= escape(a));
    } else {
        lemma_escape_append(a, b.drop_last());
        assert((a + b).drop_last() =~= a + b.drop_last());
        assert((a + b).last() == b.last());
        assert(escape(a + b) =~= escape(a) + escape(b));
    }
}

proof fn lemma_hex_digit_value(n: int)
    requires
        0 <= n < 16,
    ensures
        hex_value(hex_digit(n)) == Some(n),
{
}

proof fn lemma_unescape_char(c: char, rest: Seq<char>)
    ensures
        json_unescape(escape_char(c) + rest) == match json_unescape(rest) {
            Some(r) => Some(seq![c] + r),
            None => None::<Seq<char>>,
        },
{
    let t = escape_char(c) + rest;
    let k = escape_char(c).len() as int;
    assert(t.subrange(k, t.len() as int) =~= rest);
    if (c as int) < 0x20 && c != '\u{8}' && c != '\t' && c != '\n' && c != '\u{c}' && c != '\r' {
        let code = c as int;
        lemma_hex_digit_value(code / 16);
        lemma_hex_digit_value(code % 16);
        assert(t[2] == '0' && t[3] == '0');
        assert(t[4] == hex_digit(code / 16) && t[5] == hex_digit(code % 16));
        assert(4096 * 0 + 256 * 0 + 16 * (code / 16) + code % 16 == code);
        assert((code as char) == c);
    }
}

/// Writing a text as a JSON string and reading it back gives the text: the
/// inside of `json_string(s)` reads, by the rules of JSON, as `s`, for every
/// text `s`.
pub proof fn lemma_json_string_reads_back(s: Seq<char>)
    ensures
        json_string(s) == seq!['"'] + escape(s) + seq!['"'],
        json_unescape(escape(s)) == Some(s),
    decreases s.len(),
{
    if s.len() == 0 {
        assert(escape(s) == Seq::<char>::empty());
    } else {
        let rest = s.subrange(1, s.len() as int);
        lemma_json_string_reads_back(rest);
        assert(s =~= seq![s[0]] + rest);
        lemma_escape_append(seq![s[0]], rest);
        let one = seq![s[0]];
        assert(one.drop_last() =~= Seq::<char>::empty());
        assert(escape(one.drop_last()) == Seq::<char>::empty());
        assert(one.last() == s[0]);
        assert(escape(one) == escape(one.drop_last()) + escape_char(one.last()));
        assert(escape(one) =~= escape_char(s[0]));
        lemma_unescape_char(s[0], escape(rest));
        assert(seq![s[0]] + rest =~= s);
    }
}

/// A text without quotes, backslashes and control characters is written as
/// itself between the quotes.
pub proof fn lemma_plain_text_is_written_as_itself(s: Seq<char>)
    requires
        forall|i: int| 0 <= i < s.len() ==> json_plain_char(#[trigger] s[i]),
    ensures
        escape(s) == s,
        json_string(s) == seq!['"'] + s + seq!['"'],
    decreases s.len(),
{
    if s.len() > 0 {
        let d = s.drop_last();
        assert forall|i: int| 0 <= i < d.len() implies json_plain_char(#[trigger] d[i]) by {
            assert(d[i] == s[i]);
        }
        lemma_plain_text_is_written_as_itself(d);
        assert(json_plain_char(s[s.len() - 1]));
        assert(escape(s) =~= s);
    }
}

/// One member of a JSON object: the key as a string, a colon, the value.
pub open spec fn json_member(key: Seq<char>, value: Seq<char>) -> Seq<char> {
    json_string(key) + seq![':'] + value
}

} // verus!

//! Small verified text helpers: decimal formatting of counters and JSON
//! string escaping, used by the diff summaries and the document renderers.

use vstd::prelude::*;

verus! {

/// Appends the given char to the end of this String (std's documented
/// behaviour of `String::push`, which vstd does not specify).
pub assume_specification[ String::push ](s: &mut String, c: char)
    ensures
        final(s)@ == old(s)@.push(c),
;

pub open spec fn digit_char(d: nat) -> char {
    if d == 0 {
        '0'
    } else if d == 1 {
        '1'
    } else if d == 2 {
        '2'
    } else if d == 3 {
        '3'
    } else if d == 4 {
        '4'
    } else if d == 5 {
        '5'
    } else if d == 6 {
        '6'
    } else if d == 7 {
        '7'
    } else if d == 8 {
        '8'
    } else {
        '9'
    }
}

/// The decimal digits of `n`, most significant first.
pub open spec fn spec_dec_digits(n: nat) -> Seq<char>
    decreases n,
{
    if n < 10 {
        seq![digit_char(n)]
    } else {
        spec_dec_digits(n / 10).push(digit_char(n % 10))
    }
}

fn digit_of(d: u64) -> (c: char)
    requires
        d < 10,
    ensures
        c == digit_char(d as nat),
{
    match d {
        0 => '0',
        1 => '1',
        2 => '2',
        3 => '3',
        4 => '4',
        5 => '5',
        6 => '6',
        7 => '7',
        8 => '8',
        _ => '9',
    }
}

/// Renders `n` in decimal.
pub fn u64_to_string(n: u64) -> (r: String)
    ensures
        r@ == spec_dec_digits(n as nat),
    decreases n,
{
    if n < 10 {
        let mut s = String::new();
        s.push(digit_of(n));
        s
    } else {
        let mut s = u64_to_string(n / 10);
        s.push(digit_of(n % 10));
        s
    }
}

pub open spec fn hex_digit(d: nat) -> char {
    if d < 10 {
        digit_char(d)
    } else if d == 10 {
        'a'
    } else if d == 11 {
        'b'
    } else if d == 12 {
        'c'
    } else if d == 13 {
        'd'
    } else if d == 14 {
        'e'
    } else {
        'f'
    }
}

fn hex_digit_of(d: u32) -> (c: char)
    requires
        d < 16,
    ensures
        c == hex_digit(d as nat),
{
    if d < 10 {
        digit_of(d as u64)
    } else {
        match d {
            10 => 'a',
            11 => 'b',
            12 => 'c',
            13 => 'd',
            14 => 'e',
            _ => 'f',
        }
    }
}

/// How a single character appears inside a JSON string literal.
pub open spec fn escape_char(c: char) -> Seq<char> {
    if c == '"' {
        seq!['\\', '"']
    } else if c == '\\' {
        seq!['\\', '\\']
    } else if c == '\n' {
        seq!['\\', 'n']
    } else if c == '\r' {
        seq!['\\', 'r']
    } else if c == '\t' {
        seq!['\\', 't']
    } else if (c as u32) < 32 {
        seq!['\\', 'u', '0', '0', hex_digit((c as u32 / 16) as nat), hex_digit(
            (c as u32 % 16) as nat,
        )]
    } else {
        seq![c]
    }
}

/// The body of a JSON string literal holding exactly the characters of `s`.
pub open spec fn spec_escape(s: Seq<char>) -> Seq<char>
    decreases s.len(),
{
    if s.len() == 0 {
        Seq::empty()
    } else {
        spec_escape(s.drop_last()) + escape_char(s.last())
    }
}

/// A complete JSON string literal for `s`, quotes included.
pub open spec fn spec_string_literal(s: Seq<char>) -> Seq<char> {
    seq!['"'] + spec_escape(s) + seq!['"']
}

fn push_escaped(out: &mut String, c: char)
    ensures
        final(out)@ == old(out)@ + escape_char(c),
{
    if c == '"' {
        out.push('\\');
        out.push('"');
    } else if c == '\\' {
        out.push('\\');
        out.push('\\');
    } else if c == '\n' {
        out.push('\\');
        out.push('n');
    } else if c == '\r' {
        out.push('\\');
        out.push('r');
    } else if c == '\t' {
        out.push('\\');
        out.push('t');
    } else if (c as u32) < 32 {
        out.push('\\');
        out.push('u');
        out.push('0');
        out.push('0');
        out.push(hex_digit_of((c as u32) / 16));
        out.push(hex_digit_of((c as u32) % 16));
    } else {
        out.push(c);
    }
    proof {
        assert(out@ =~= old(out)@ + escape_char(c));
    }
}

/// Escapes `s` for use inside a JSON string literal.
pub fn escape_json_string(s: &str) -> (r: String)
    ensures
        r@ == spec_escape(s@),
{
    let mut out = String::new();
    let n = s.unicode_len();
    let mut i: usize = 0;
    while i < n
        invariant
            n == s@.len(),
            i <= n,
            out@ == spec_escape(s@.take(i as int)),
        decreases n - i,
    {
        let c = s.get_char(i);
        push_escaped(&mut out, c);
        proof {
            assert(s@.take(i as int + 1).drop_last() =~= s@.take(i as int));
            assert(s@.take(i as int + 1).last() == s@[i as int]);
        }
        i = i + 1;
    }
    proof {
        assert(s@.take(n as int) =~= s@);
    }
    out
}

/// Renders `s` as a JSON string literal, quotes included.
pub fn render_string_literal(s: &str) -> (r: String)
    ensures
        r@ == spec_string_literal(s@),
{
    let mut out = String::new();
    out.push('"');
    let body = escape_json_string(s);
    out.append(body.as_str());
    out.push('"');
    proof {
        assert(out@ =~= spec_string_literal(s@));
    }
    out
}

/// The value of a lower-case hex digit, or 16 for any other character.
pub open spec fn hex_val(c: char) -> nat {
    if c == '0' {
        0
    } else if c == '1' {
        1
    } else if c == '2' {
        2
    } else if c == '3' {
        3
    } else if c == '4' {
        4
    } else if c == '5' {
        5
    } else if c == '6' {
        6
    } else if c == '7' {
        7
    } else if c == '8' {
        8
    } else if c == '9' {
        9
    } else if c == 'a' {
        10
    } else if c == 'b' {
        11
    } else if c == 'c' {
        12
    } else if c == 'd' {
        13
    } else if c == 'e' {
        14
    } else if c == 'f' {
        15
    } else {
        16
    }
}

fn hex_val_of(c: char) -> (v: u32)
    ensures
        v == hex_val(c),
{
    match c {
        '0' => 0,
        '1' => 1,
        '2' => 2,
        '3' => 3,
        '4' => 4,
        '5' => 5,
        '6' => 6,
        '7' => 7,
        '8' => 8,
        '9' => 9,
        'a' => 10,
        'b' => 11,
        'c' => 12,
        'd' => 13,
        'e' => 14,
        'f' => 15,
        _ => 16,
    }
}

/// The character a simple escape stands for.
pub open spec fn unescape_simple(c: char) -> char {
    if c == '"' {
        '"'
    } else if c == '\\' {
        '\\'
    } else if c == 'n' {
        '\n'
    } else if c == 'r' {
        '\r'
    } else {
        '\t'
    }
}

fn unescape_simple_of(c: char) -> (r: char)
    ensures
        r == unescape_simple(c),
{
    match c {
        '"' => '"',
        '\\' => '\\',
        'n' => '\n',
        'r' => '\r',
        _ => '\t',
    }
}

/// The control character with the given code.
pub open spec fn spec_control_char(code: nat) -> char {
    (code as u32) as char
}

/// A code the escaper writes in hex form: a control character that has no
/// short escape of its own.
pub open spec fn control_code_only(code: nat) -> bool {
    code < 32 && code != 9 && code != 10 && code != 13
}

fn control_char_of(code: u32) -> (c: char)
    requires
        code < 32,
    ensures
        c == spec_control_char(code as nat),
{
    let c = match code {
        0 => '\u{00}',
        1 => '\u{01}',
        2 => '\u{02}',
        3 => '\u{03}',
        4 => '\u{04}',
        5 => '\u{05}',
        6 => '\u{06}',
        7 => '\u{07}',
        8 => '\u{08}',
        9 => '\u{09}',
        10 => '\u{0a}',
        11 => '\u{0b}',
        12 => '\u{0c}',
        13 => '\u{0d}',
        14 => '\u{0e}',
        15 => '\u{0f}',
        16 => '\u{10}',
        17 => '\u{11}',
        18 => '\u{12}',
        19 => '\u{13}',
        20 => '\u{14}',
        21 => '\u{15}',
        22 => '\u{16}',
        23 => '\u{17}',
        24 => '\u{18}',
        25 => '\u{19}',
        26 => '\u{1a}',
        27 => '\u{1b}',
        28 => '\u{1c}',
        29 => '\u{1d}',
        30 => '\u{1e}',
        _ => '\u{1f}',
    };
    proof {
        assert(c as u32 == code);
        vstd::utf8::char_u32_cast(c, code);
    }
    c
}

/// Scans a JSON string literal body starting at `p`, strictly: it accepts
/// exactly the texts `spec_escape` produces, up to the closing quote, and
/// yields the unescaped characters with the position after the quote.
pub open spec fn spec_unescape_at(text: Seq<char>, p: int) -> Option<(Seq<char>, int)>
    decreases text.len() - p,
{
    if p < 0 || p >= text.len() {
        None
    } else if text[p] == '"' {
        Some((Seq::empty(), p + 1))
    } else if text[p] == '\\' {
        if p + 2 <= text.len() && (text[p + 1] == '"' || text[p + 1] == '\\' || text[p + 1] == 'n'
            || text[p + 1] == 'r' || text[p + 1] == 't') {
            match spec_unescape_at(text, p + 2) {
                Some(st) => Some((seq![unescape_simple(text[p + 1])] + st.0, st.1)),
                None => None,
            }
        } else if p + 6 <= text.len() && text[p + 1] == 'u' && text[p + 2] == '0' && text[p + 3]
            == '0' && hex_val(text[p + 4]) < 16 && hex_val(text[p + 5]) < 16 && control_code_only(
            hex_val(text[p + 4]) * 16 + hex_val(text[p + 5]),
        ) {
            match spec_unescape_at(text, p + 6) {
                Some(st) => Some(
                    (
                        seq![spec_control_char(hex_val(text[p + 4]) * 16 + hex_val(text[p + 5]))]
                            + st.0,
                        st.1,
                    ),
                ),
                None => None,
            }
        } else {
            None
        }
    } else if (text[p] as u32) >= 32 {
        match spec_unescape_at(text, p + 1) {
            Some(st) => Some((seq![text[p]] + st.0, st.1)),
            None => None,
        }
    } else {
        None
    }
}

/// Scans a string literal body in `text` from `start` (just after the
/// opening quote), unescaping it, strictly as `spec_unescape_at` says.
pub fn scan_string_body(text: &str, start: usize) -> (r: Option<(String, usize)>)
    ensures
        match r {
            Some(pair) => spec_unescape_at(text@, start as int) == Some(
                (pair.0@, pair.1 as int),
            ) && start < pair.1 && pair.1 <= text@.len(),
            None => spec_unescape_at(text@, start as int) is None,
        },
{
    let n = text.unicode_len();
    if start > n {
        return None;
    }
    let mut acc = String::new();
    let mut p = start;
    loop
        invariant
            n == text@.len(),
            start <= p,
            p <= n,
            spec_unescape_at(text@, start as int) == (match spec_unescape_at(text@, p as int) {
                Some(st) => Some((acc@ + st.0, st.1)),
                None => None::<(Seq<char>, int)>,
            }),
        decreases n - p,
    {
        if p >= n {
            return None;
        }
        let c = text.get_char(p);
        if c == '"' {
            proof {
                assert(acc@ + Seq::<char>::empty() =~= acc@);
            }
            return Some((acc, p + 1));
        } else if c == '\\' {
            if n - p < 2 {
                return None;
            }
            let e = text.get_char(p + 1);
            if e == '"' || e == '\\' || e == 'n' || e == 'r' || e == 't' {
                let ghost acc_prev = acc@;
                acc.push(unescape_simple_of(e));
                proof {
                    if spec_unescape_at(text@, p as int + 2) is Some {
                        let st = spec_unescape_at(text@, p as int + 2).unwrap();
                        assert(acc@ + st.0 =~= acc_prev + (seq![unescape_simple(e)] + st.0));
                    }
                }
                p = p + 2;
            } else if e == 'u' && n - p >= 6 {
                let d1 = text.get_char(p + 2);
                let d2 = text.get_char(p + 3);
                let h1 = hex_val_of(text.get_char(p + 4));
                let h2 = hex_val_of(text.get_char(p + 5));
                let code: u32 = if h1 < 16 && h2 < 16 {
                    h1 * 16 + h2
                } else {
                    32
                };
                if d1 == '0' && d2 == '0' && code < 32 && code != 9 && code != 10 && code != 13 {
                    let u = control_char_of(code);
                    let ghost acc_prev = acc@;
                    acc.push(u);
                    proof {
                        if spec_unescape_at(text@, p as int + 6) is Some {
                            let st = spec_unescape_at(text@, p as int + 6).unwrap();
                            assert(acc@ + st.0 =~= acc_prev + (seq![u] + st.0));
                        }
                    }
                    p = p + 6;
                } else {
                    return None;
                }
            } else {
                return None;
            }
        } else if (c as u32) >= 32 {
            let ghost acc_prev = acc@;
            acc.push(c);
            proof {
                if spec_unescape_at(text@, p as int + 1) is Some {
                    let st = spec_unescape_at(text@, p as int + 1).unwrap();
                    assert(acc@ + st.0 =~= acc_prev + (seq![c] + st.0));
                }
            }
            p = p + 1;
        } else {
            return None;
        }
    }
}

/// Escaping distributes over concatenation.
pub proof fn lemma_escape_concat(a: Seq<char>, b: Seq<char>)
    ensures
        spec_escape(a + b) == spec_escape(a) + spec_escape(b),
    decreases b.len(),
{
    if b.len() == 0 {
        assert(a + b =~= a);
        assert(spec_escape(a) + spec_escape(b) =~= spec_escape(a));
    } else {
        lemma_escape_concat(a, b.drop_last());
        assert((a + b).drop_last() =~= a + b.drop_last());
        assert((a + b).last() == b.last());
        assert(spec_escape(a) + spec_escape(b) =~= (spec_escape(a) + spec_escape(b.drop_last()))
            + escape_char(b.last()));
    }
}

/// A non-empty text whose first character needs no escaping keeps it as
/// the first character of its escaped form.
pub proof fn lemma_escape_first_plain(s: Seq<char>)
    requires
        s.len() > 0,
        escape_char(s[0]) == seq![s[0]],
    ensures
        spec_escape(s).len() > 0,
        spec_escape(s)[0] == s[0],
{
    lemma_escape_concat(seq![s[0]], s.drop_first());
    assert(s =~= seq![s[0]] + s.drop_first());
    assert(spec_escape(seq![s[0]]) =~= escape_char(s[0])) by {
        assert(seq![s[0]].drop_last() =~= Seq::<char>::empty());
        assert(spec_escape(Seq::<char>::empty()) =~= Seq::<char>::empty());
        assert(seq![s[0]].last() == s[0]);
        assert(Seq::<char>::empty() + escape_char(s[0]) =~= escape_char(s[0]));
    }
    assert(spec_escape(s) =~= escape_char(s[0]) + spec_escape(s.drop_first()));
}

/// Law: the scanner undoes the escaper. Scanning a text that continues,
/// from position `base.len()`, with the escaped form of `s`, a closing
/// quote, and anything after, recovers exactly `s` and stops right after
/// the quote.
#[verifier::rlimit(60)]
pub proof fn lemma_scan_escaped(s: Seq<char>, base: Seq<char>, tail: Seq<char>)
    ensures
        spec_unescape_at(base + spec_escape(s) + seq!['"'] + tail, base.len() as int) == Some(
            (s, base.len() as int + spec_escape(s).len() + 1),
        ),
    decreases s.len(),
{
    let text = base + spec_escape(s) + seq!['"'] + tail;
    let p = base.len() as int;
    if s.len() == 0 {
        assert(spec_escape(s) =~= Seq::<char>::empty());
        assert(text[p] == '"');
        assert(spec_unescape_at(text, p) == Some((Seq::<char>::empty(), p + 1)));
        assert(s =~= Seq::<char>::empty());
    } else {
        let c = s[0];
        let rest = s.drop_first();
        assert(s =~= seq![c] + rest);
        lemma_escape_concat(seq![c], rest);
        assert(spec_escape(seq![c]) =~= escape_char(c)) by {
            assert(seq![c].drop_last() =~= Seq::<char>::empty());
            assert(spec_escape(Seq::<char>::empty()) =~= Seq::<char>::empty());
            assert(seq![c].last() == c);
            assert(Seq::<char>::empty() + escape_char(c) =~= escape_char(c));
        }
        assert(spec_escape(s) =~= escape_char(c) + spec_escape(rest));
        let base2 = base + escape_char(c);
        lemma_scan_escaped(rest, base2, tail);
        let text2 = base2 + spec_escape(rest) + seq!['"'] + tail;
        assert(text =~= text2);
        let k = escape_char(c).len() as int;
        let end = base2.len() as int + spec_escape(rest).len() + 1;
        assert(spec_unescape_at(text, p + k) == Some((rest, end)));
        // The next k characters of the text are the escape image of c.
        assert(forall|i: int| 0 <= i < k ==> text2[p + i] == #[trigger] escape_char(c)[i]);
        if c == '"' || c == '\\' || c == '\n' || c == '\r' || c == '\t' {
            assert(k == 2);
            assert(text[p] == escape_char(c)[0]);
            assert(text[p + 1] == escape_char(c)[1]);
            assert(text[p] == '\\');
            assert(unescape_simple(text[p + 1]) == c);
            assert(p + 2 <= text.len());
            assert(spec_unescape_at(text, p) == Some((seq![c] + rest, end)));
        } else if (c as u32) < 32 {
            assert(k == 6);
            assert(text[p] == escape_char(c)[0]);
            assert(text[p + 1] == escape_char(c)[1]);
            assert(text[p + 2] == escape_char(c)[2]);
            assert(text[p + 3] == escape_char(c)[3]);
            assert(text[p + 4] == escape_char(c)[4]);
            assert(text[p + 5] == escape_char(c)[5]);
            let hi = ((c as u32) / 16) as nat;
            let lo = ((c as u32) % 16) as nat;
            assert(text[p + 4] == hex_digit(hi));
            assert(text[p + 5] == hex_digit(lo));
            assert(hex_val(hex_digit(hi)) == hi);
            assert(hex_val(hex_digit(lo)) == lo);
            assert(hi * 16 + lo == c as u32);
            assert(spec_control_char(hi * 16 + lo) == c) by {
                vstd::utf8::char_u32_cast(c, c as u32);
            }
            assert(p + 6 <= text.len());
            assert(spec_unescape_at(text, p) == Some((seq![c] + rest, end)));
        } else {
            assert(escape_char(c) =~= seq![c]);
            assert(k == 1);
            assert(text[p] == c);
            assert(text[p] != '"' && text[p] != '\\');
            assert((text[p] as u32) >= 32);
            assert(spec_unescape_at(text, p) == Some((seq![c] + rest, end)));
        }
        assert(end == base.len() as int + spec_escape(s).len() + 1);
    }
}

proof fn lemma_control_char_code(code: nat)
    requires
        code < 32,
    ensures
        spec_control_char(code) as u32 == code,
{
    let u = code as u32;
    if code == 0 {
        vstd::utf8::char_u32_cast('\u{00}', u);
    } else if code == 1 {
        vstd::utf8::char_u32_cast('\u{01}', u);
    } else if code == 2 {
        vstd::utf8::char_u32_cast('\u{02}', u);
    } else if code == 3 {
        vstd::utf8::char_u32_cast('\u{03}', u);
    } else if code == 4 {
        vstd::utf8::char_u32_cast('\u{04}', u);
    } else if code == 5 {
        vstd::utf8::char_u32_cast('\u{05}', u);
    } else if code == 6 {
        vstd::utf8::char_u32_cast('\u{06}', u);
    } else if code == 7 {
        vstd::utf8::char_u32_cast('\u{07}', u);
    } else if code == 8 {
        vstd::utf8::char_u32_cast('\u{08}', u);
    } else if code == 9 {
        vstd::utf8::char_u32_cast('\u{09}', u);
    } else if code == 10 {
        vstd::utf8::char_u32_cast('\u{0a}', u);
    } else if code == 11 {
        vstd::utf8::char_u32_cast('\u{0b}', u);
    } else if code == 12 {
        vstd::utf8::char_u32_cast('\u{0c}', u);
    } else if code == 13 {
        vstd::utf8::char_u32_cast('\u{0d}', u);
    } else if code == 14 {
        vstd::utf8::char_u32_cast('\u{0e}', u);
    } else if code == 15 {
        vstd::utf8::char_u32_cast('\u{0f}', u);
    } else if code == 16 {
        vstd::utf8::char_u32_cast('\u{10}', u);
    } else if code == 17 {
        vstd::utf8::char_u32_cast('\u{11}', u);
    } else if code == 18 {
        vstd::utf8::char_u32_cast('\u{12}', u);
    } else if code == 19 {
        vstd::utf8::char_u32_cast('\u{13}', u);
    } else if code == 20 {
        vstd::utf8::char_u32_cast('\u{14}', u);
    } else if code == 21 {
        vstd::utf8::char_u32_cast('\u{15}', u);
    } else if code == 22 {
        vstd::utf8::char_u32_cast('\u{16}', u);
    } else if code == 23 {
        vstd::utf8::char_u32_cast('\u{17}', u);
    } else if code == 24 {
        vstd::utf8::char_u32_cast('\u{18}', u);
    } else if code == 25 {
        vstd::utf8::char_u32_cast('\u{19}', u);
    } else if code == 26 {
        vstd::utf8::char_u32_cast('\u{1a}', u);
    } else if code == 27 {
        vstd::utf8::char_u32_cast('\u{1b}', u);
    } else if code == 28 {
        vstd::utf8::char_u32_cast('\u{1c}', u);
    } else if code == 29 {
        vstd::utf8::char_u32_cast('\u{1d}', u);
    } else if code == 30 {
        vstd::utf8::char_u32_cast('\u{1e}', u);
    } else {
        vstd::utf8::char_u32_cast('\u{1f}', u);
    }
}

/// Law: the scanner is strict. Whatever it accepts from position `p` is
/// byte for byte the escaped form of what it returns, closing quote
/// included: it parses exactly the texts the escaper produces.
#[verifier::rlimit(60)]
pub proof fn lemma_scan_sound(text: Seq<char>, p: int, s: Seq<char>, end: int)
    requires
        spec_unescape_at(text, p) == Some((s, end)),
    ensures
        0 <= p < end <= text.len(),
        text.subrange(p, end) == spec_escape(s) + seq!['"'],
    decreases text.len() - p,
{
    if text[p] == '"' {
        assert(s == Seq::<char>::empty());
        assert(end == p + 1);
        assert(spec_escape(s) + seq!['"'] =~= seq!['"']);
        assert(text.subrange(p, end) =~= seq!['"']);
    } else if text[p] == '\\' {
        if p + 2 <= text.len() && (text[p + 1] == '"' || text[p + 1] == '\\' || text[p + 1] == 'n'
            || text[p + 1] == 'r' || text[p + 1] == 't') {
            let st = spec_unescape_at(text, p + 2).unwrap();
            lemma_scan_sound(text, p + 2, st.0, st.1);
            let e = text[p + 1];
            let c = unescape_simple(e);
            assert(s == seq![c] + st.0);
            assert(end == st.1);
            lemma_escape_concat(seq![c], st.0);
            assert(spec_escape(seq![c]) =~= escape_char(c)) by {
                assert(seq![c].drop_last() =~= Seq::<char>::empty());
                assert(spec_escape(Seq::<char>::empty()) =~= Seq::<char>::empty());
                assert(seq![c].last() == c);
                assert(Seq::<char>::empty() + escape_char(c) =~= escape_char(c));
            }
            assert(escape_char(c) =~= seq!['\\', e]);
            assert(text.subrange(p, end) =~= seq!['\\', e] + text.subrange(p + 2, end));
            assert(spec_escape(s) + seq!['"'] =~= escape_char(c) + (spec_escape(st.0)
                + seq!['"']));
            assert(text.subrange(p, end) =~= spec_escape(s) + seq!['"']);
        } else {
            let st = spec_unescape_at(text, p + 6).unwrap();
            lemma_scan_sound(text, p + 6, st.0, st.1);
            let hv1 = hex_val(text[p + 4]);
            let hv2 = hex_val(text[p + 5]);
            let code = hv1 * 16 + hv2;
            let c = spec_control_char(code);
            lemma_control_char_code(code);
            assert(c as u32 == code);
            assert(s == seq![c] + st.0);
            assert(end == st.1);
            lemma_escape_concat(seq![c], st.0);
            assert(spec_escape(seq![c]) =~= escape_char(c)) by {
                assert(seq![c].drop_last() =~= Seq::<char>::empty());
                assert(spec_escape(Seq::<char>::empty()) =~= Seq::<char>::empty());
                assert(seq![c].last() == c);
                assert(Seq::<char>::empty() + escape_char(c) =~= escape_char(c));
            }
            assert(c != '"' && c != '\\' && c != '\n' && c != '\r' && c != '\t');
            assert((c as u32) < 32);
            assert((c as u32) / 16 == hv1 && (c as u32) % 16 == hv2) by (nonlinear_arith)
                requires
                    c as u32 == hv1 * 16 + hv2,
                    hv2 < 16,
                    hv1 < 16,
            ;
            assert(hex_digit(hv1) == text[p + 4]);
            assert(hex_digit(hv2) == text[p + 5]);
            assert(escape_char(c) =~= seq!['\\', 'u', '0', '0', text[p + 4], text[p + 5]]);
            assert(text.subrange(p, end) =~= seq![
                text[p],
                text[p + 1],
                text[p + 2],
                text[p + 3],
                text[p + 4],
                text[p + 5],
            ] + text.subrange(p + 6, end));
            assert(spec_escape(s) + seq!['"'] =~= escape_char(c) + (spec_escape(st.0)
                + seq!['"']));
            assert(text.subrange(p, end) =~= spec_escape(s) + seq!['"']);
        }
    } else {
        let st = spec_unescape_at(text, p + 1).unwrap();
        lemma_scan_sound(text, p + 1, st.0, st.1);
        let c = text[p];
        assert(s == seq![c] + st.0);
        assert(end == st.1);
        lemma_escape_concat(seq![c], st.0);
        assert(spec_escape(seq![c]) =~= escape_char(c)) by {
            assert(seq![c].drop_last() =~= Seq::<char>::empty());
            assert(spec_escape(Seq::<char>::empty()) =~= Seq::<char>::empty());
            assert(seq![c].last() == c);
            assert(Seq::<char>::empty() + escape_char(c) =~= escape_char(c));
        }
        assert(escape_char(c) =~= seq![c]);
        assert(text.subrange(p, end) =~= seq![c] + text.subrange(p + 1, end));
        assert(spec_escape(s) + seq!['"'] =~= escape_char(c) + (spec_escape(st.0) + seq!['"']));
        assert(text.subrange(p, end) =~= spec_escape(s) + seq!['"']);
    }
}

/// Position `p` of the text starts with `lit`, and the position after it.
pub open spec fn spec_expect(text: Seq<char>, p: int, lit: Seq<char>) -> Option<int> {
    if 0 <= p && p + lit.len() <= text.len() && text.subrange(p, p + lit.len()) == lit {
        Some(p + lit.len())
    } else {
        None
    }
}

/// Matches the exact literal `lit` at position `pos` of `text`.
pub fn expect_lit(text: &str, pos: usize, lit: &str) -> (r: Option<usize>)
    ensures
        match r {
            Some(p) => spec_expect(text@, pos as int, lit@) == Some(p as int) && p <= text@.len(),
            None => spec_expect(text@, pos as int, lit@) is None,
        },
{
    let n = text.unicode_len();
    let m = lit.unicode_len();
    if pos > n || m > n - pos {
        return None;
    }
    let sub = text.substring_char(pos, pos + m);
    if sub.to_owned() == lit.to_owned() {
        Some(pos + m)
    } else {
        None
    }
}

/// Joins a directory and a file name with the portable path separator.
pub fn join_path(dir: &str, name: &str) -> (r: String)
    ensures
        r@ == dir@ + "/"@ + name@,
{
    let mut out = dir.to_owned();
    out.append("/");
    out.append(name);
    out
}

} // verus!

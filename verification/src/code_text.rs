use vstd::prelude::*;

use crate::program::{code_text, hex_byte_text, hex_char, MAX_PROGRAM_LEN};

verus! {

// ---------------------------------------------------------------------------
// The hex-text program format: bytes written as hex values (an optional 0x or
// 0X prefix, an optional +), separated by ASCII whitespace or commas, with
// comments from `#` or `//` to the end of the line.
// ---------------------------------------------------------------------------

/// Characters that separate tokens: ASCII whitespace and the comma.
pub open spec fn is_separator(c: char) -> bool {
    c == ' ' || c == '\t' || c == '\n' || c == '\x0C' || c == '\r' || c == ','
}

/// Unicode white space, as `char::is_whitespace` defines it.
pub open spec fn is_white_space(c: char) -> bool {
    let u = c as u32;
    (0x09 <= u <= 0x0D) || u == 0x20 || u == 0x85 || u == 0xA0 || u == 0x1680 || (0x2000 <= u
        <= 0x200A) || u == 0x2028 || u == 0x2029 || u == 0x202F || u == 0x205F || u == 0x3000
}

/// A comment starts at `i`: a `#`, or the first of two slashes.
pub open spec fn starts_comment(t: Seq<char>, i: int) -> bool {
    t[i] == '#' || (t[i] == '/' && i + 1 < t.len() && t[i + 1] == '/')
}

/// Character `i` lies in a comment: a comment started at or before it on its line.
pub open spec fn in_comment(t: Seq<char>, i: int) -> bool
    decreases i + 1,
{
    if i < 0 {
        false
    } else {
        t[i] != '\n' && (starts_comment(t, i) || in_comment(t, i - 1))
    }
}

/// Character `i` belongs to a token: it is neither in a comment nor a separator.
pub open spec fn is_token_char(t: Seq<char>, i: int) -> bool {
    !in_comment(t, i) && !is_separator(t[i])
}

/// The tokens of the first `n` characters: maximal runs of token characters.
pub open spec fn raw_tokens(t: Seq<char>, n: int) -> Seq<Seq<char>>
    decreases n,
{
    if n <= 0 {
        Seq::empty()
    } else if !is_token_char(t, n - 1) {
        raw_tokens(t, n - 1)
    } else if n >= 2 && is_token_char(t, n - 2) {
        let r = raw_tokens(t, n - 1);
        r.update(r.len() - 1, r.last().push(t[n - 1]))
    } else {
        raw_tokens(t, n - 1).push(seq![t[n - 1]])
    }
}

/// A token without leading white space.
pub open spec fn trim_start(s: Seq<char>) -> Seq<char>
    decreases s.len(),
{
    if s.len() > 0 && is_white_space(s[0]) {
        trim_start(s.drop_first())
    } else {
        s
    }
}

/// A token without trailing white space.
pub open spec fn trim_end(s: Seq<char>) -> Seq<char>
    decreases s.len(),
{
    if s.len() > 0 && is_white_space(s.last()) {
        trim_end(s.drop_last())
    } else {
        s
    }
}

/// A token without the `0x` or `0X` prefix, if it has one.
pub open spec fn strip_hex_prefix(s: Seq<char>) -> Seq<char> {
    if s.len() >= 2 && s[0] == '0' && (s[1] == 'x' || s[1] == 'X') {
        s.skip(2)
    } else {
        s
    }
}

/// The value of a hexadecimal digit, either case.
pub open spec fn hex_digit_value(c: char) -> Option<int> {
    let u = c as u32;
    if 0x30 <= u <= 0x39 {
        Some(u - 0x30)
    } else if 0x41 <= u <= 0x46 {
        Some(u - 0x41 + 10)
    } else if 0x61 <= u <= 0x66 {
        Some(u - 0x61 + 10)
    } else {
        None
    }
}

/// The value of a string of hex digits, `None` if one is not a digit.
pub open spec fn hex_digits_value(d: Seq<char>) -> Option<int>
    decreases d.len(),
{
    if d.len() == 0 {
        Some(0)
    } else {
        match (hex_digits_value(d.drop_last()), hex_digit_value(d.last())) {
            (Some(v), Some(x)) => Some(v * 16 + x),
            _ => None,
        }
    }
}

/// A byte written in hex: an optional `+`, then at least one hex digit, with a
/// value of at most 0xFF.
pub open spec fn parse_hex_byte(s: Seq<char>) -> Option<u8> {
    let digits = if s.len() > 0 && s[0] == '+' {
        s.skip(1)
    } else {
        s
    };
    if digits.len() == 0 {
        None
    } else {
        match hex_digits_value(digits) {
            Some(v) => if v <= 255 {
                Some(v as u8)
            } else {
                None
            },
            None => None,
        }
    }
}

/// The bytes of a token list, or the first token that is not a byte (without
/// its prefix). Tokens made only of white space are skipped.
pub open spec fn parse_tokens(toks: Seq<Seq<char>>) -> Result<Seq<u8>, Seq<char>>
    decreases toks.len(),
{
    if toks.len() == 0 {
        Ok(Seq::empty())
    } else {
        match parse_tokens(toks.drop_last()) {
            Err(e) => Err(e),
            Ok(bytes) => {
                let tok = trim_end(trim_start(toks.last()));
                if tok.len() == 0 {
                    Ok(bytes)
                } else {
                    match parse_hex_byte(strip_hex_prefix(tok)) {
                        Some(b) => Ok(bytes.push(b)),
                        None => Err(strip_hex_prefix(tok)),
                    }
                }
            },
        }
    }
}

/// The bytes a program text holds, or its first invalid token.
pub open spec fn text_bytes(t: Seq<char>) -> Result<Seq<u8>, Seq<char>> {
    parse_tokens(raw_tokens(t, t.len() as int))
}

/// Why a program text was refused.
#[derive(Debug, PartialEq, Eq)]
pub enum ParseError {
    /// A token that is not a hex byte (shown without its 0x prefix).
    InvalidByte(Vec<char>),
    /// The text holds no byte.
    Empty,
    /// The program does not fit in memory; the number of bytes it holds.
    TooLarge(usize),
}

/// Whether `e` is the refusal that program text `t` earns: its first invalid
/// token, no byte at all, or more bytes than fit from 0x0600 on (and their number).
pub open spec fn is_refusal(t: Seq<char>, e: ParseError) -> bool {
    match text_bytes(t) {
        Err(tok) => e matches ParseError::InvalidByte(x) && x@ == tok,
        Ok(bytes) => if bytes.len() == 0 {
            e is Empty
        } else if bytes.len() > 64000 {
            e matches ParseError::TooLarge(n) && n == bytes.len()
        } else {
            false
        },
    }
}

/// The decimal digit for a value below 10.
pub open spec fn decimal_char(d: int) -> char {
    (48 + d) as char
}

/// A number in decimal, without leading zeros.
pub open spec fn decimal_text(n: nat) -> Seq<char>
    decreases n,
{
    if n < 10 {
        seq![decimal_char(n as int)]
    } else {
        decimal_text(n / 10) + seq![decimal_char((n % 10) as int)]
    }
}

/// The message shown for a refused program text.
pub open spec fn message_text(e: ParseError) -> Seq<char> {
    match e {
        ParseError::InvalidByte(t) => "Invalid byte `"@ + t@ + "`. Use hex values like A9 or 0xA9."@,
        ParseError::Empty => "Program is empty."@,
        ParseError::TooLarge(n) => "Program is too large: "@ + decimal_text(n as nat) + " bytes, max is "@
            + decimal_text(64000) + "."@,
    }
}

/// `String::push`: appends one character.
#[verifier::external_body]
fn push_char(text: &mut String, c: char)
    ensures
        final(text)@ == old(text)@.push(c),
{
    text.push(c);
}

/// The decimal digit character for a value below 10.
fn decimal_digit(d: u8) -> (c: char)
    requires
        d < 10,
    ensures
        c == decimal_char(d as int),
{
    match d {
        0 => '0',
        1 => '1',
        2 => '2',
        3 => '3',
        4 => '4',
        5 => '5',
        6 => '6',
        7 => '7',
        8 => '8',
        _ => '9',
    }
}

/// Appends `n` in decimal.
fn push_decimal(text: &mut String, n: usize)
    ensures
        final(text)@ == old(text)@ + decimal_text(n as nat),
    decreases n,
{
    let ghost start = text@;
    if n >= 10 {
        push_decimal(text, n / 10);
    }
    push_char(text, decimal_digit((n % 10) as u8));
    assert(text@ =~= start + decimal_text(n as nat));
}

impl ParseError {
    /// The message the editor shows for this refusal.
    pub fn message(&self) -> (m: String)
        ensures
            m@ == message_text(*self),
    {
        let mut m = String::new();
        match self {
            ParseError::InvalidByte(t) => {
                m.append("Invalid byte `");
                let mut i: usize = 0;
                while i < t.len()
                    invariant
                        i <= t.len(),
                        m@ == "Invalid byte `"@ + t@.take(i as int),
                    decreases t.len() - i,
                {
                    push_char(&mut m, t[i]);
                    i = i + 1;
                    assert(m@ =~= "Invalid byte `"@ + t@.take(i as int));
                }
                assert(t@.take(t.len() as int) =~= t@);
                m.append("`. Use hex values like A9 or 0xA9.");
            },
            ParseError::Empty => {
                m.append("Program is empty.");
            },
            ParseError::TooLarge(n) => {
                m.append("Program is too large: ");
                push_decimal(&mut m, *n);
                m.append(" bytes, max is ");
                push_decimal(&mut m, MAX_PROGRAM_LEN);
                m.append(".");
            },
        }
        m
    }
}

fn is_separator_char(c: char) -> (b: bool)
    ensures
        b == is_separator(c),
{
    c == ' ' || c == '\t' || c == '\n' || c == '\x0C' || c == '\r' || c == ','
}

fn is_white_space_char(c: char) -> (b: bool)
    ensures
        b == is_white_space(c),
{
    let u = c as u32;
    (0x09 <= u && u <= 0x0D) || u == 0x20 || u == 0x85 || u == 0xA0 || u == 0x1680 || (0x2000 <= u
        && u <= 0x200A) || u == 0x2028 || u == 0x2029 || u == 0x202F || u == 0x205F || u == 0x3000
}

fn hex_digit_of(c: char) -> (v: Option<u32>)
    ensures
        v matches Some(x) ==> hex_digit_value(c) == Some(x as int),
        v is None ==> hex_digit_value(c) is None,
{
    let u = c as u32;
    if 0x30 <= u && u <= 0x39 {
        Some(u - 0x30)
    } else if 0x41 <= u && u <= 0x46 {
        Some(u - 0x41 + 10)
    } else if 0x61 <= u && u <= 0x66 {
        Some(u - 0x61 + 10)
    } else {
        None
    }
}

proof fn lemma_hex_value_step(d: Seq<char>, k: int)
    requires
        0 <= k < d.len(),
    ensures
        hex_digits_value(d.take(k + 1)) == match (
            hex_digits_value(d.take(k)),
            hex_digit_value(d[k]),
        ) {
            (Some(v), Some(x)) => Some(v * 16 + x),
            _ => None,
        },
{
    assert(d.take(k + 1).drop_last() =~= d.take(k));
}

/// Once a prefix of the digits is worth `v`, the whole string is worth at
/// least `v` (or is not a number at all).
proof fn lemma_hex_value_grows(d: Seq<char>, k: int, v: int)
    requires
        0 <= k <= d.len(),
        v >= 0,
        hex_digits_value(d.take(k)) == Some(v),
    ensures
        hex_digits_value(d) matches Some(w) ==> w >= v,
    decreases d.len() - k,
{
    if k == d.len() {
        assert(d.take(k) =~= d);
    } else {
        lemma_hex_value_step(d, k);
        match hex_digit_value(d[k]) {
            Some(x) => {
                assert(hex_digit_value(d[k]) matches Some(y) && y >= 0);
                lemma_hex_value_grows(d, k + 1, v * 16 + x);
            },
            None => {
                lemma_hex_value_none(d, k + 1);
            },
        }
    }
}

/// A string with a non-digit in its first `k` characters is not a number.
proof fn lemma_hex_value_none(d: Seq<char>, k: int)
    requires
        0 <= k <= d.len(),
        hex_digits_value(d.take(k)) is None,
    ensures
        hex_digits_value(d) is None,
    decreases d.len() - k,
{
    if k == d.len() {
        assert(d.take(k) =~= d);
    } else {
        lemma_hex_value_step(d, k);
        lemma_hex_value_none(d, k + 1);
    }
}

/// Parses a hex byte: an optional `+` and one or more hex digits worth at most 0xFF.
fn parse_hex(s: &Vec<char>) -> (r: Option<u8>)
    ensures
        r == parse_hex_byte(s@),
{
    let len = s.len();
    let mut k: usize = 0;
    if k < len && s[k] == '+' {
        k = 1;
    }
    let start = k;
    let ghost digits = if s@.len() > 0 && s@[0] == '+' {
        s@.skip(1)
    } else {
        s@
    };
    assert(digits =~= s@.skip(start as int));
    if k == len {
        return None;
    }
    let mut value: u32 = 0;
    assert(digits.take(0) =~= Seq::<char>::empty());
    while k < len
        invariant
            start <= k <= len,
            len == s@.len(),
            digits == s@.skip(start as int),
            digits == (if s@.len() > 0 && s@[0] == '+' {
                s@.skip(1)
            } else {
                s@
            }),
            digits.len() > 0,
            value <= 255,
            hex_digits_value(digits.take(k - start)) == Some(value as int),
        decreases len - k,
    {
        proof {
            lemma_hex_value_step(digits, k - start);
            assert(digits[k - start] == s@[k as int]);
        }
        match hex_digit_of(s[k]) {
            None => {
                proof {
                    lemma_hex_value_none(digits, k - start + 1);
                }
                return None;
            },
            Some(x) => {
                value = value * 16 + x;
                k = k + 1;
                if value > 255 {
                    proof {
                        lemma_hex_value_grows(digits, k - start, value as int);
                    }
                    return None;
                }
            },
        }
    }
    assert(digits.take(k - start) =~= digits);
    Some(value as u8)
}

/// Characters `lo..hi` of `s` as a new vector.
fn copy_chars(s: &Vec<char>, lo: usize, hi: usize) -> (r: Vec<char>)
    requires
        lo <= hi <= s@.len(),
    ensures
        r@ == s@.subrange(lo as int, hi as int),
{
    let mut r: Vec<char> = Vec::new();
    let mut i = lo;
    while i < hi
        invariant
            lo <= i <= hi,
            hi <= s@.len(),
            r@ == s@.subrange(lo as int, i as int),
        decreases hi - i,
    {
        r.push(s[i]);
        i = i + 1;
        assert(r@ =~= s@.subrange(lo as int, i as int));
    }
    r
}

/// What one token contributes: `None` when it is only white space, else the
/// byte it denotes or, when it denotes none, the token without its prefix.
fn token_byte(tok: &Vec<char>) -> (r: Option<Result<u8, Vec<char>>>)
    ensures
        ({
            let t = trim_end(trim_start(tok@));
            &&& t.len() == 0 ==> r is None
            &&& t.len() != 0 ==> (r matches Some(res) && match parse_hex_byte(strip_hex_prefix(t)) {
                Some(b) => res == Ok::<u8, Vec<char>>(b),
                None => res matches Err(body) && body@ == strip_hex_prefix(t),
            })
        }),
{
    let len = tok.len();
    let mut lo: usize = 0;
    assert(tok@.skip(0) =~= tok@);
    while lo < len && is_white_space_char(tok[lo])
        invariant
            lo <= len,
            len == tok@.len(),
            trim_start(tok@) == trim_start(tok@.skip(lo as int)),
        decreases len - lo,
    {
        assert(tok@.skip(lo as int).drop_first() =~= tok@.skip(lo + 1));
        lo = lo + 1;
    }
    let ghost started = tok@.skip(lo as int);
    assert(trim_start(tok@) == started);
    let mut hi: usize = len;
    assert(started.take(hi - lo) =~= started);
    while hi > lo && is_white_space_char(tok[hi - 1])
        invariant
            lo <= hi <= len,
            len == tok@.len(),
            started == tok@.skip(lo as int),
            trim_end(started) == trim_end(started.take(hi - lo)),
        decreases hi,
    {
        assert(started.take(hi - lo).drop_last() =~= started.take(hi - 1 - lo));
        hi = hi - 1;
    }
    let ghost t = started.take(hi - lo);
    assert(trim_end(started) == t);
    assert(t =~= tok@.subrange(lo as int, hi as int));
    if lo == hi {
        return None;
    }
    let mut p = lo;
    if hi - lo >= 2 && tok[lo] == '0' && (tok[lo + 1] == 'x' || tok[lo + 1] == 'X') {
        p = lo + 2;
    }
    let body = copy_chars(tok, p, hi);
    assert(body@ =~= strip_hex_prefix(t));
    match parse_hex(&body) {
        Some(b) => Some(Ok(b)),
        None => Some(Err(body)),
    }
}

/// The characters of a string.
fn collect_chars(text: &str) -> (chars: Vec<char>)
    ensures
        chars@ == text@,
{
    broadcast use vstd::string::axiom_spec_iter;

    let mut chars: Vec<char> = Vec::new();
    for c in iter: text.chars()
        invariant
            chars@ == iter.seq().take(iter.index() as int),
    {
        chars.push(c);
    }
    chars
}

/// Parses a program written as hex text (see `text_bytes`): the bytes in
/// order, or why the text was refused — its first invalid token, no byte at
/// all, or more bytes than fit between 0x0600 and the top of memory.
pub fn parse_code(text: &str) -> (r: Result<Vec<u8>, ParseError>)
    ensures
        match text_bytes(text@) {
            Err(tok) => r matches Err(ParseError::InvalidByte(t)) && t@ == tok,
            Ok(bytes) => if bytes.len() == 0 {
                r matches Err(ParseError::Empty)
            } else if bytes.len() > 64000 {
                r matches Err(ParseError::TooLarge(n)) && n == bytes.len()
            } else {
                r matches Ok(code) && code@ == bytes
            },
        },
{
    let chars = collect_chars(text);
    let ghost t = chars@;
    let len = chars.len();
    let mut code: Vec<u8> = Vec::new();
    let mut error: Option<Vec<char>> = None;
    let mut cur: Vec<char> = Vec::new();
    let mut in_comment_prev = false;
    let ghost mut done: Seq<Seq<char>> = Seq::empty();
    let mut i: usize = 0;
    while i < len
        invariant
            i <= len,
            len == t.len(),
            t == chars@,
            in_comment_prev == in_comment(t, i - 1),
            raw_tokens(t, i as int) == if cur@.len() > 0 {
                done.push(cur@)
            } else {
                done
            },
            cur@.len() > 0 <==> (i > 0 && is_token_char(t, i - 1)),
            parse_tokens(done) == match error {
                Some(e) => Err(e@),
                None => Ok::<Seq<u8>, Seq<char>>(code@),
            },
        decreases len - i,
    {
        let c = chars[i];
        let starts = c == '#' || (c == '/' && i + 1 < len && chars[i + 1] == '/');
        let now_in_comment = c != '\n' && (starts || in_comment_prev);
        assert(now_in_comment == in_comment(t, i as int));
        assert(is_token_char(t, i as int) == (!now_in_comment && !is_separator(c)));
        if !now_in_comment && !is_separator_char(c) {
            let ghost before = cur@;
            cur.push(c);
            proof {
                if before.len() > 0 {
                    assert(done.push(before).update(done.len() as int, before.push(t[i as int]))
                        =~= done.push(cur@));
                } else {
                    assert(cur@ =~= seq![t[i as int]]);
                }
            }
        } else if cur.len() > 0 {
            let ghost finished = cur@;
            proof {
                assert(done.push(finished).drop_last() =~= done);
            }
            if error.is_none() {
                match token_byte(&cur) {
                    None => {},
                    Some(Ok(b)) => {
                        code.push(b);
                    },
                    Some(Err(body)) => {
                        error = Some(body);
                    },
                }
            }
            proof {
                done = done.push(finished);
            }
            cur = Vec::new();
        }
        in_comment_prev = now_in_comment;
        i = i + 1;
    }
    if cur.len() > 0 {
        let ghost finished = cur@;
        proof {
            assert(done.push(finished).drop_last() =~= done);
        }
        if error.is_none() {
            match token_byte(&cur) {
                None => {},
                Some(Ok(b)) => {
                    code.push(b);
                },
                Some(Err(body)) => {
                    error = Some(body);
                },
            }
        }
        proof {
            done = done.push(finished);
        }
    }
    assert(text_bytes(text@) == parse_tokens(done));
    match error {
        Some(e) => Err(ParseError::InvalidByte(e)),
        None => {
            if code.len() == 0 {
                Err(ParseError::Empty)
            } else if code.len() > MAX_PROGRAM_LEN {
                Err(ParseError::TooLarge(code.len()))
            } else {
                Ok(code)
            }
        },
    }
}


// ---------------------------------------------------------------------------
// Formatted programs parse back
// ---------------------------------------------------------------------------

/// The characters `code_text` writes: digit `3k` and `3k + 1` are the two hex
/// digits of byte `k`, and the character before byte `k > 0` separates it.
proof fn lemma_code_text_shape(code: Seq<u8>)
    ensures
        code.len() == 0 ==> code_text(code).len() == 0,
        code.len() > 0 ==> code_text(code).len() == 3 * code.len() - 1,
        forall|k: int|
            #![trigger code[k]]
            0 <= k < code.len() ==> {
                &&& code_text(code)[3 * k] == hex_char(code[k] as int / 16)
                &&& code_text(code)[3 * k + 1] == hex_char(code[k] as int % 16)
                &&& (k > 0 ==> is_separator(code_text(code)[3 * k - 1]))
            },
    decreases code.len(),
{
    if code.len() > 0 {
        let n = code.len() - 1;
        let p = code.take(n);
        lemma_code_text_shape(p);
        let tp = code_text(p);
        let t = code_text(code);
        assert forall|k: int| #![trigger code[k]] 0 <= k < code.len() implies {
            &&& t[3 * k] == hex_char(code[k] as int / 16)
            &&& t[3 * k + 1] == hex_char(code[k] as int % 16)
            &&& (k > 0 ==> is_separator(t[3 * k - 1]))
        } by {
            if k < n {
                assert(p[k] == code[k]);
            }
        }
    }
}

/// A hex digit is neither a separator nor white space, nor part of a comment
/// marker, a sign or a hex prefix.
proof fn lemma_hex_char_plain(d: int)
    requires
        0 <= d < 16,
    ensures
        !is_separator(hex_char(d)),
        !is_white_space(hex_char(d)),
        hex_char(d) != '#',
        hex_char(d) != '/',
        hex_char(d) != '+',
        hex_char(d) != 'x',
        hex_char(d) != 'X',
        hex_digit_value(hex_char(d)) == Some(d),
{
}

/// Every character of a formatted program is a hex digit or a separator.
proof fn lemma_code_text_chars(code: Seq<u8>, i: int)
    requires
        0 <= i < code_text(code).len(),
    ensures
        code_text(code)[i] != '#',
        code_text(code)[i] != '/',
        i % 3 != 2 ==> !is_separator(code_text(code)[i]),
        i % 3 == 2 ==> is_separator(code_text(code)[i]),
{
    lemma_code_text_shape(code);
    let t = code_text(code);
    let k = i / 3;
    if i % 3 == 0 {
        assert(i == 3 * k);
        let b = code[k];
        assert(t[i] == hex_char(b as int / 16));
        lemma_hex_char_plain(b as int / 16);
    } else if i % 3 == 1 {
        assert(i == 3 * k + 1);
        let b = code[k];
        assert(t[i] == hex_char(b as int % 16));
        lemma_hex_char_plain(b as int % 16);
    } else {
        assert(i == 3 * (k + 1) - 1);
        let b = code[k + 1];
        assert(is_separator(t[i]));
    }
}

/// A formatted program has no comment.
proof fn lemma_code_text_no_comment(code: Seq<u8>, i: int)
    requires
        i < code_text(code).len(),
    ensures
        !in_comment(code_text(code), i),
    decreases i + 1,
{
    if i >= 0 {
        lemma_code_text_chars(code, i);
        lemma_code_text_no_comment(code, i - 1);
    }
}

/// Token character `i` of a formatted program: the hex digits are, the
/// separators are not.
proof fn lemma_code_text_token_char(code: Seq<u8>, i: int)
    requires
        0 <= i < code_text(code).len(),
    ensures
        is_token_char(code_text(code), i) <==> i % 3 != 2,
{
    lemma_code_text_chars(code, i);
    lemma_code_text_no_comment(code, i);
}

/// The tokens of a formatted program, up to byte `k`, are the hex texts of its
/// bytes.
proof fn lemma_code_text_tokens(code: Seq<u8>, k: int)
    requires
        0 <= k < code.len(),
    ensures
        raw_tokens(code_text(code), 3 * k + 2) =~= Seq::new(
            (k + 1) as nat,
            |j: int| hex_byte_text(code[j]),
        ),
    decreases k,
{
    let t = code_text(code);
    lemma_code_text_shape(code);
    assert(code[k] == code[k]);
    lemma_code_text_token_char(code, 3 * k + 1);
    lemma_code_text_token_char(code, 3 * k);
    let pre = raw_tokens(t, 3 * k);
    if k == 0 {
        assert(pre =~= Seq::<Seq<char>>::empty());
    } else {
        lemma_code_text_token_char(code, 3 * k - 1);
        lemma_code_text_tokens(code, k - 1);
        assert(3 * (k - 1) + 2 == 3 * k - 1);
        assert(pre == raw_tokens(t, 3 * k - 1));
    }
    let r1 = raw_tokens(t, 3 * k + 1);
    assert(r1 == pre.push(seq![t[3 * k]]));
    let r2 = raw_tokens(t, 3 * k + 2);
    assert(r2 == r1.update(r1.len() - 1, r1.last().push(t[3 * k + 1])));
    assert(seq![t[3 * k]].push(t[3 * k + 1]) =~= hex_byte_text(code[k]));
}

/// The hex text of a byte reads back as that byte.
proof fn lemma_hex_byte_text_parses(b: u8)
    ensures
        trim_end(trim_start(hex_byte_text(b))) == hex_byte_text(b),
        strip_hex_prefix(hex_byte_text(b)) == hex_byte_text(b),
        parse_hex_byte(hex_byte_text(b)) == Some(b),
{
    let s = hex_byte_text(b);
    let hi = b as int / 16;
    let lo = b as int % 16;
    lemma_hex_char_plain(hi);
    lemma_hex_char_plain(lo);
    assert(trim_start(s) == s);
    assert(trim_end(s) == s);
    assert(s.drop_last() =~= seq![hex_char(hi)]);
    assert(s.drop_last().drop_last() =~= Seq::<char>::empty());
    assert(hex_digits_value(s.drop_last().drop_last()) == Some(0int));
    assert(hex_digits_value(s.drop_last()) == Some(hi));
    assert(hex_digits_value(s) == Some(hi * 16 + lo));
}

/// The hex texts of the first `m` bytes parse back as those bytes.
proof fn lemma_hex_texts_parse(code: Seq<u8>, m: int)
    requires
        0 <= m <= code.len(),
    ensures
        parse_tokens(Seq::new(m as nat, |j: int| hex_byte_text(code[j]))) == Ok::<
            Seq<u8>,
            Seq<char>,
        >(code.take(m)),
    decreases m,
{
    let toks = Seq::new(m as nat, |j: int| hex_byte_text(code[j]));
    if m == 0 {
        assert(code.take(0) =~= Seq::<u8>::empty());
    } else {
        lemma_hex_texts_parse(code, m - 1);
        assert(toks.drop_last() =~= Seq::new((m - 1) as nat, |j: int| hex_byte_text(code[j])));
        lemma_hex_byte_text_parses(code[m - 1]);
        assert(code.take(m - 1).push(code[m - 1]) =~= code.take(m));
    }
}

/// A program written out by `format_code` reads back, byte for byte, as the
/// same program.
pub proof fn lemma_code_text_parses_back(code: Seq<u8>)
    ensures
        text_bytes(code_text(code)) == Ok::<Seq<u8>, Seq<char>>(code),
{
    lemma_code_text_shape(code);
    let t = code_text(code);
    if code.len() == 0 {
        assert(code =~= Seq::<u8>::empty());
    } else {
        let k = code.len() - 1;
        lemma_code_text_tokens(code, k);
        assert(3 * k + 2 == t.len());
        lemma_hex_texts_parse(code, code.len() as int);
        assert(code.take(code.len() as int) =~= code);
    }
}

} // verus!

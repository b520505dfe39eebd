//! Text primitives that the agent's replies are built from: trimming,
//! JSON string literals and decimal numbers.
use vstd::prelude::*;

verus! {

/// The Unicode `White_Space` property (PropList.txt), which `char::is_whitespace`
/// and `str::trim` go by.
pub open spec fn is_white_space(c: char) -> bool {
    let u = c as u32;
    ||| 0x9 <= u <= 0xd
    ||| u == 0x20
    ||| u == 0x85
    ||| u == 0xa0
    ||| u == 0x1680
    ||| 0x2000 <= u <= 0x200a
    ||| u == 0x2028
    ||| u == 0x2029
    ||| u == 0x202f
    ||| u == 0x205f
    ||| u == 0x3000
}

/// `s` without its leading white space.
pub open spec fn trim_start(s: Seq<char>) -> Seq<char>
    decreases s.len(),
{
    if s.len() > 0 && is_white_space(s[0]) {
        trim_start(s.drop_first())
    } else {
        s
    }
}

/// `s` without its trailing white space.
pub open spec fn trim_end(s: Seq<char>) -> Seq<char>
    decreases s.len(),
{
    if s.len() > 0 && is_white_space(s.last()) {
        trim_end(s.drop_last())
    } else {
        s
    }
}

/// `s` without leading and trailing white space.
pub open spec fn trimmed(s: Seq<char>) -> Seq<char> {
    trim_end(trim_start(s))
}

proof fn lemma_trim_start_clean(s: Seq<char>)
    ensures
        trim_start(s).len() == 0 || !is_white_space(trim_start(s)[0]),
    decreases s.len(),
{
    if s.len() > 0 && is_white_space(s[0]) {
        lemma_trim_start_clean(s.drop_first());
    }
}

proof fn lemma_trim_start_fixed(s: Seq<char>)
    requires
        s.len() == 0 || !is_white_space(s[0]),
    ensures
        trim_start(s) == s,
{
}

proof fn lemma_trim_end_prefix(s: Seq<char>)
    ensures
        trim_end(s).len() <= s.len(),
        trim_end(s) == s.take(trim_end(s).len() as int),
        trim_end(s).len() == 0 || !is_white_space(trim_end(s).last()),
        s.len() > 0 && !is_white_space(s[0]) ==> trim_end(s).len() > 0,
    decreases s.len(),
{
    if s.len() > 0 && is_white_space(s.last()) {
        lemma_trim_end_prefix(s.drop_last());
        let t = trim_end(s.drop_last());
        assert(t == s.take(t.len() as int)) by {
            assert(s.drop_last().take(t.len() as int) =~= s.take(t.len() as int));
        }
        if s.len() > 0 && !is_white_space(s[0]) {
            assert(s.drop_last().len() > 0) by {
                if s.len() == 1 {
                    assert(s.last() == s[0]);
                }
            }
            assert(s.drop_last()[0] == s[0]);
        }
    } else {
        assert(s.take(s.len() as int) =~= s);
    }
}

proof fn lemma_trim_end_fixed(s: Seq<char>)
    requires
        s.len() == 0 || !is_white_space(s.last()),
    ensures
        trim_end(s) == s,
{
}

/// Trimming a trimmed text changes nothing.
pub proof fn lemma_trimmed_idempotent(s: Seq<char>)
    ensures
        trimmed(trimmed(s)) == trimmed(s),
{
    let a = trim_start(s);
    lemma_trim_start_clean(s);
    let b = trim_end(a);
    lemma_trim_end_prefix(a);
    if b.len() > 0 {
        assert(b[0] == a[0]);
    }
    lemma_trim_start_fixed(b);
    lemma_trim_end_fixed(b);
}

/// A character that stands as it is inside a JSON string literal.
pub open spec fn plain_char(c: char) -> bool {
    c != '"' && c != '\\' && (c as u32) >= 0x20
}

/// Escaping works character by character: the escape of a concatenation is
/// the concatenation of the escapes.
pub proof fn lemma_escaped_concat(a: Seq<char>, b: Seq<char>)
    ensures
        json_escaped(a + b) == json_escaped(a) + json_escaped(b),
    decreases a.len(),
{
    if a.len() == 0 {
        assert(a + b =~= b);
        assert(json_escaped(a) + json_escaped(b) =~= json_escaped(b));
    } else {
        lemma_escaped_concat(a.drop_first(), b);
        assert((a + b).drop_first() =~= a.drop_first() + b);
        assert((a + b)[0] == a[0]);
        assert(json_escaped(a + b) =~= json_escaped(a) + json_escaped(b));
    }
}

/// Text of plain characters is its own escape.
pub proof fn lemma_escaped_plain(s: Seq<char>)
    requires
        forall|i: int| 0 <= i < s.len() ==> plain_char(#[trigger] s[i]),
    ensures
        json_escaped(s) == s,
    decreases s.len(),
{
    if s.len() > 0 {
        lemma_escaped_plain(s.drop_first());
        assert(plain_char(s[0]));
        assert(json_escape(s[0]) == seq![s[0]]);
        assert(seq![s[0]] + s.drop_first() =~= s);
    }
}

/// Characters that need no escape never grow; each of the others becomes a
/// backslash sequence: the escape of a character is never empty and starts
/// with the character itself or with a backslash.
pub proof fn lemma_escape_shape(c: char)
    ensures
        plain_char(c) ==> json_escape(c) == seq![c],
        !plain_char(c) ==> json_escape(c).len() >= 2 && json_escape(c)[0] == '\\',
{
}

/// The JSON string literal of plain text is the text between quotes.
pub proof fn lemma_json_string_plain(s: Seq<char>)
    requires
        forall|i: int| 0 <= i < s.len() ==> plain_char(#[trigger] s[i]),
    ensures
        json_string(s) == seq!['"'] + s + seq!['"'],
{
    lemma_escaped_plain(s);
}

/// A member whose key is plain text: the quoted key, a colon, then the value.
pub proof fn lemma_member_plain(key: Seq<char>, value: Seq<char>)
    requires
        forall|i: int| 0 <= i < key.len() ==> plain_char(#[trigger] key[i]),
    ensures
        json_member(key, value) == seq!['"'] + key + seq!['"', ':'] + value,
{
    lemma_escaped_plain(key);
    assert(json_member(key, value) =~= seq!['"'] + key + seq!['"', ':'] + value);
}

/// The number of white-space characters that `s` starts with.
pub open spec fn leading_white(s: Seq<char>) -> nat
    decreases s.len(),
{
    if s.len() > 0 && is_white_space(s[0]) {
        1 + leading_white(s.drop_first())
    } else {
        0
    }
}

proof fn lemma_trim_start_skip(s: Seq<char>)
    ensures
        leading_white(s) <= s.len(),
        trim_start(s) == s.skip(leading_white(s) as int),
        forall|k: int| 0 <= k < leading_white(s) ==> is_white_space(#[trigger] s[k]),
    decreases s.len(),
{
    if s.len() > 0 && is_white_space(s[0]) {
        lemma_trim_start_skip(s.drop_first());
        assert(s.drop_first().skip(leading_white(s.drop_first()) as int) =~= s.skip(
            leading_white(s) as int,
        ));
        assert forall|k: int| 0 <= k < leading_white(s) implies is_white_space(#[trigger] s[k]) by {
            if k > 0 {
                assert(s[k] == s.drop_first()[k - 1]);
            }
        }
    } else {
        assert(s.skip(0) =~= s);
    }
}

proof fn lemma_trim_end_tail(s: Seq<char>)
    ensures
        forall|k: int| trim_end(s).len() <= k < s.len() ==> is_white_space(#[trigger] s[k]),
    decreases s.len(),
{
    lemma_trim_end_prefix(s);
    if s.len() > 0 && is_white_space(s.last()) {
        lemma_trim_end_tail(s.drop_last());
        assert forall|k: int| trim_end(s).len() <= k < s.len() implies is_white_space(#[trigger] s[k]) by {
            if k < s.len() - 1 {
                assert(s[k] == s.drop_last()[k]);
            }
        }
    }
}

/// What trimming keeps is one contiguous piece of the text: everything
/// before it and after it is white space, and the piece neither starts nor
/// ends with white space.
pub proof fn lemma_trimmed_is_inner_piece(s: Seq<char>)
    ensures
        ({
            let t = trimmed(s);
            let i = leading_white(s) as int;
            &&& i + t.len() <= s.len()
            &&& t == s.subrange(i, i + t.len())
            &&& forall|k: int| 0 <= k < i ==> is_white_space(#[trigger] s[k])
            &&& forall|k: int| i + t.len() <= k < s.len() ==> is_white_space(#[trigger] s[k])
            &&& t.len() > 0 ==> !is_white_space(t[0]) && !is_white_space(t.last())
        }),
{
    lemma_trim_start_skip(s);
    lemma_trim_start_clean(s);
    let a = trim_start(s);
    let i = leading_white(s) as int;
    lemma_trim_end_prefix(a);
    lemma_trim_end_tail(a);
    let t = trim_end(a);
    assert(t =~= s.subrange(i, i + t.len()));
    assert forall|k: int| i + t.len() <= k < s.len() implies is_white_space(#[trigger] s[k]) by {
        assert(s[k] == a[k - i]);
    }
    if t.len() > 0 {
        assert(t[0] == a[0]);
    }
}

/// The value of a run of decimal digits, most significant first.
pub open spec fn digits_value(s: Seq<char>) -> int
    decreases s.len(),
{
    if s.len() == 0 {
        0
    } else {
        digits_value(s.drop_last()) * 10 + ((s.last() as u32) as int - 48)
    }
}

/// Writing a number in decimal gives back the number: the digits are
/// decimal digits, read back they make `n`, and there is no leading zero.
pub proof fn lemma_decimal_digits_value(n: nat)
    ensures
        decimal_digits(n).len() > 0,
        forall|i: int|
            0 <= i < decimal_digits(n).len() ==> '0' <= #[trigger] decimal_digits(n)[i] <= '9',
        digits_value(decimal_digits(n)) == n,
        n > 0 ==> decimal_digits(n)[0] != '0',
    decreases n,
{
    if n < 10 {
        assert(decimal_digits(n).drop_last() =~= Seq::<char>::empty());
        assert(((digit_char(n) as u32) as int) == 48 + n);
        assert(digits_value(Seq::<char>::empty()) == 0);
    } else {
        lemma_decimal_digits_value(n / 10);
        let d = decimal_digits(n / 10);
        assert(decimal_digits(n).drop_last() =~= d);
        assert(decimal_digits(n)[0] == d[0]);
        assert forall|i: int| 0 <= i < decimal_digits(n).len() implies '0' <= #[trigger] decimal_digits(
            n,
        )[i] <= '9' by {
            if i < d.len() {
                assert(decimal_digits(n)[i] == d[i]);
            }
        }
        assert(((digit_char(n % 10) as u32) as int) == 48 + n % 10);
        assert(decimal_digits(n).last() == digit_char(n % 10));
        assert((n / 10) * 10 + n % 10 == n);
    }
}

/// A negative number is written as a minus sign and then its magnitude.
pub proof fn lemma_decimal_sign(n: int)
    ensures
        n < 0 ==> decimal(n) == seq!['-'] + decimal(-n),
        n >= 0 ==> decimal(n) == decimal_digits(n as nat),
{
}

/// A one-member object whose key is plain text: the brace, the quoted key,
/// the colon, the value as a JSON string literal, the closing brace.
pub proof fn lemma_object1_plain(key: Seq<char>, value: Seq<char>)
    requires
        forall|i: int| 0 <= i < key.len() ==> plain_char(#[trigger] key[i]),
    ensures
        json_object1(key, value) == seq!['{', '"'] + key + seq!['"', ':'] + json_string(value) + seq!['}'],
{
    lemma_member_plain(key, json_string(value));
    assert(json_object1(key, value) =~= seq!['{', '"'] + key + seq!['"', ':'] + json_string(value) + seq!['}']);
}

/// `str::trim`: the slice of `s` between its leading and its trailing white
/// space, white space being the Unicode `White_Space` property.
#[verifier::external_body]
pub(crate) fn trim(s: &str) -> (r: &str)
    ensures
        r@ == trimmed(s@),
{
    s.trim()
}

/// `<str as PartialEq>::eq`: two string slices are equal when they hold the
/// same characters.
#[verifier::external_body]
pub(crate) fn str_equal(a: &str, b: &str) -> (r: bool)
    ensures
        r == (a@ == b@),
{
    a == b
}

/// `String::push`: appends one character.
#[verifier::external_body]
pub(crate) fn push_char(s: &mut String, c: char)
    ensures
        final(s)@ == old(s)@.push(c),
{
    s.push(c)
}

/// The lower-case hexadecimal digit of `n`, for `0 <= n < 16`.
pub open spec fn hex_digit(n: int) -> char {
    if n < 10 {
        (48 + n) as char
    } else {
        (87 + n) as char
    }
}

/// How one character stands inside a JSON string literal: the quote, the
/// backslash and the control characters are escaped, everything else stands
/// as it is.
pub open spec fn json_escape(c: char) -> Seq<char> {
    if c == '"' {
        seq!['\\', '"']
    } else if c == '\\' {
        seq!['\\', '\\']
    } else if c == '\u{8}' {
        seq!['\\', 'b']
    } else if c == '\t' {
        seq!['\\', 't']
    } else if c == '\n' {
        seq!['\\', 'n']
    } else if c == '\u{c}' {
        seq!['\\', 'f']
    } else if c == '\r' {
        seq!['\\', 'r']
    } else if (c as u32) < 0x20 {
        seq!['\\', 'u', '0', '0', hex_digit((c as u32) as int / 16), hex_digit((c as u32) as int % 16)]
    } else {
        seq![c]
    }
}

/// The characters of `s`, each escaped for a JSON string literal.
pub open spec fn json_escaped(s: Seq<char>) -> Seq<char>
    decreases s.len(),
{
    if s.len() == 0 {
        Seq::empty()
    } else {
        json_escape(s[0]) + json_escaped(s.drop_first())
    }
}

/// The JSON string literal that stands for `s`.
pub open spec fn json_string(s: Seq<char>) -> Seq<char> {
    seq!['"'] + json_escaped(s) + seq!['"']
}

/// The compact JSON text of an object with one member, `key` mapped to the
/// JSON text `value`.
pub open spec fn json_member(key: Seq<char>, value: Seq<char>) -> Seq<char> {
    json_string(key) + seq![':'] + value
}

/// `serde_json::to_string` on a `str`: the string literal, quoted, with the
/// quote, the backslash and each control character below U+0020 escaped
/// (`\b`, `\t`, `\n`, `\f`, `\r`, else `\u00` and two lower-case hex digits).
/// Serialising a `str` into memory cannot fail, so the `Err` arm never occurs.
#[verifier::external_body]
pub(crate) fn json_string_of(s: &str) -> (r: String)
    ensures
        r@ == json_string(s@),
{
    serde_json::to_string(s).unwrap()
}

/// The decimal digits of `n`, most significant first, without leading zeros.
pub open spec fn decimal_digits(n: nat) -> Seq<char>
    decreases n,
{
    if n < 10 {
        seq![digit_char(n)]
    } else {
        decimal_digits(n / 10).push(digit_char(n % 10))
    }
}

/// The character of the decimal digit `d`.
pub open spec fn digit_char(d: nat) -> char {
    (48 + d) as char
}

/// How `n` is written in decimal, with a leading `-` when it is negative.
pub open spec fn decimal(n: int) -> Seq<char> {
    if n < 0 {
        seq!['-'] + decimal_digits((-n) as nat)
    } else {
        decimal_digits(n as nat)
    }
}

fn digit(d: u64) -> (c: char)
    requires
        d < 10,
    ensures
        c == digit_char(d as nat),
{
    match d {
        0 => '0',
        1 => '1',
        2 => '2',
        3 => '3',
        4 => '4',
        5 => '5',
        6 => '6',
        7 => '7',
        8 => '8',
        _ => '9',
    }
}

/// Appends the decimal digits of `n`.
pub fn push_decimal_digits(out: &mut String, n: u64)
    ensures
        final(out)@ == old(out)@ + decimal_digits(n as nat),
    decreases n,
{
    if n >= 10 {
        push_decimal_digits(out, n / 10);
    }
    push_char(out, digit(n % 10));
}

/// Appends `n` written in decimal, as `Display` and `serde_json` write it.
pub fn push_decimal(out: &mut String, n: i64)
    requires
        n > i64::MIN,
    ensures
        final(out)@ == old(out)@ + decimal(n as int),
{
    if n < 0 {
        push_char(out, '-');
        push_decimal_digits(out, (-n) as u64);
    } else {
        push_decimal_digits(out, n as u64);
    }
}

/// Appends the JSON string literal of `s`.
pub fn push_json_string(out: &mut String, s: &str)
    ensures
        final(out)@ == old(out)@ + json_string(s@),
{
    let lit = json_string_of(s);
    out.append(lit.as_str());
}

/// The JSON text of a boolean.
pub open spec fn json_bool(b: bool) -> Seq<char> {
    if b {
        "true"@
    } else {
        "false"@
    }
}

/// Appends the JSON text of a boolean.
pub fn push_json_bool(out: &mut String, b: bool)
    ensures
        final(out)@ == old(out)@ + json_bool(b),
{
    if b {
        out.append("true");
    } else {
        out.append("false");
    }
}

/// Appends the key of an object member and the colon after it.
pub fn push_member_key(out: &mut String, key: &str)
    ensures
        final(out)@ == old(out)@ + json_string(key@) + seq![':'],
{
    push_json_string(out, key);
    push_char(out, ':');
}

/// The compact JSON text of an object with the one member `key`, whose value
/// is the string `value`.
pub open spec fn json_object1(key: Seq<char>, value: Seq<char>) -> Seq<char> {
    seq!['{'] + json_member(key, json_string(value)) + seq!['}']
}

/// The JSON object with the one member `key`, whose value is the string
/// `value`, as `serde_json` writes it.
pub fn json_object_of(key: &str, value: &str) -> (r: String)
    ensures
        r@ == json_object1(key@, value@),
{
    let mut out = String::new();
    push_char(&mut out, '{');
    push_member_key(&mut out, key);
    push_json_string(&mut out, value);
    push_char(&mut out, '}');
    assert(out@ =~= json_object1(key@, value@));
    out
}

} // verus!

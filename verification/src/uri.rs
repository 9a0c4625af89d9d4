//! Escaping and unescaping of URI path parameters, on top of the `url` crate's
//! percent-encoding.
use vstd::prelude::*;
use crate::text::replace_all;

verus! {

/// The bytes that `url::percent_encoding::DEFAULT_ENCODE_SET` percent-encodes:
/// controls, non-ASCII bytes, and space `"` `#` `<` `>` `` ` `` `?` `{` `}`.
pub open spec fn in_default_encode_set(b: u8) -> bool {
    ||| b < 0x20
    ||| b > 0x7E
    ||| b == 0x20
    ||| b == 0x22
    ||| b == 0x23
    ||| b == 0x3C
    ||| b == 0x3E
    ||| b == 0x60
    ||| b == 0x3F
    ||| b == 0x7B
    ||| b == 0x7D
}

/// The upper-case hexadecimal digit for a value below sixteen.
pub open spec fn hex_digit(d: u8) -> char {
    if d < 10 {
        ((d + 48) as u8) as char
    } else {
        ((d + 55) as u8) as char
    }
}

/// `%` followed by the two upper-case hexadecimal digits of `b`.
pub open spec fn percent_byte(b: u8) -> Seq<char> {
    seq!['%', hex_digit(b / 16), hex_digit(b % 16)]
}

/// The percent-encoding of `bytes` with the default encode set: each byte of the
/// set becomes `%XX`, every other byte stands as the character of that code.
pub open spec fn percent_encoded(bytes: Seq<u8>) -> Seq<char>
    decreases bytes.len(),
{
    if bytes.len() == 0 {
        Seq::empty()
    } else {
        (if in_default_encode_set(bytes[0]) {
            percent_byte(bytes[0])
        } else {
            seq![bytes[0] as char]
        }) + percent_encoded(bytes.drop_first())
    }
}

/// The value of an ASCII hexadecimal digit (either case).
pub open spec fn hex_value(b: u8) -> Option<u8> {
    if 0x30 <= b <= 0x39 {
        Some((b - 0x30) as u8)
    } else if 0x41 <= b <= 0x46 {
        Some((b - 0x37) as u8)
    } else if 0x61 <= b <= 0x66 {
        Some((b - 0x57) as u8)
    } else {
        None
    }
}

/// Percent-decoding of `bytes`: `%` followed by two hexadecimal digits becomes
/// the byte they denote; every other byte, a lone `%` included, stays.
pub open spec fn percent_decoded(bytes: Seq<u8>) -> Seq<u8>
    decreases bytes.len(),
{
    if bytes.len() == 0 {
        Seq::empty()
    } else if bytes[0] == 0x25 && bytes.len() >= 3 && hex_value(bytes[1]) is Some && hex_value(
        bytes[2],
    ) is Some {
        seq![(hex_value(bytes[1])->0 * 16 + hex_value(bytes[2])->0) as u8] + percent_decoded(
            bytes.skip(3),
        )
    } else {
        seq![bytes[0]] + percent_decoded(bytes.drop_first())
    }
}

/// What lossy UTF-8 decoding makes of `bytes`, invalid sequences replaced by U+FFFD.
pub uninterp spec fn utf8_lossy(bytes: Seq<u8>) -> Seq<char>;

/// Lossy UTF-8 decoding, with what is known of it: valid UTF-8 decodes exactly.
pub open spec fn lossy_text(bytes: Seq<u8>) -> Seq<char> {
    if vstd::utf8::valid_utf8(bytes) {
        vstd::utf8::decode_utf8(bytes)
    } else {
        utf8_lossy(bytes)
    }
}

/// Calls `url::percent_encoding::utf8_percent_encode` with `DEFAULT_ENCODE_SET`
/// and collects the pieces. Claimed: the result is the UTF-8 bytes of `s`, each
/// byte of the default encode set written `%XX` with upper-case digits, every
/// other byte as its ASCII character (percent-encoding 1.0.1, `PercentEncode::next`).
#[verifier::external_body]
fn percent_encode_default(s: &str) -> (r: String)
    ensures
        r@ == percent_encoded(vstd::utf8::encode_utf8(s@)),
{
    url::percent_encoding::utf8_percent_encode(s, url::percent_encoding::DEFAULT_ENCODE_SET).collect::<String>()
}

/// Calls `url::percent_encoding::percent_decode` on the bytes of `s`, then
/// `decode_utf8_lossy`. Claimed: the bytes are percent-decoded as in
/// `PercentDecode::next`; the decoded bytes are then read as UTF-8, exactly when
/// they are valid UTF-8 (`String::from_utf8_lossy`); what comes out of invalid
/// bytes is only named.
#[verifier::external_body]
fn percent_decode_lossy(s: &str) -> (r: String)
    ensures
        r@ == utf8_lossy(percent_decoded(vstd::utf8::encode_utf8(s@))),
        vstd::utf8::valid_utf8(percent_decoded(vstd::utf8::encode_utf8(s@))) ==> r@ == vstd::utf8::decode_utf8(
            percent_decoded(vstd::utf8::encode_utf8(s@)),
        ),
{
    url::percent_encoding::percent_decode(s.as_bytes()).decode_utf8_lossy().into_owned()
}

/// The characters that escaping writes as `%XX` after percent-encoding, each with
/// its code: `:` `/` `\` `$` `.` `!` `@`.
pub open spec fn extra_escapes() -> Seq<u8> {
    seq![0x3Au8, 0x2Fu8, 0x5Cu8, 0x24u8, 0x2Eu8, 0x21u8, 0x40u8]
}

/// The codes that unescaping turns back from `%XX` before percent-decoding:
/// `:` `/` `$` `.` `!` `@`.
pub open spec fn extra_unescapes() -> Seq<u8> {
    seq![0x3Au8, 0x2Fu8, 0x24u8, 0x2Eu8, 0x21u8, 0x40u8]
}

/// `s` with each character of `codes`, in turn, replaced by its `%XX` form.
pub open spec fn escape_each(s: Seq<char>, codes: Seq<u8>) -> Seq<char>
    decreases codes.len(),
{
    if codes.len() == 0 {
        s
    } else {
        escape_each(crate::text::replaced(s, seq![codes[0] as char], percent_byte(codes[0])), codes.drop_first())
    }
}

/// `s` with the `%XX` form of each of `codes`, in turn, replaced by its character.
pub open spec fn unescape_each(s: Seq<char>, codes: Seq<u8>) -> Seq<char>
    decreases codes.len(),
{
    if codes.len() == 0 {
        s
    } else {
        unescape_each(crate::text::replaced(s, percent_byte(codes[0]), seq![codes[0] as char]), codes.drop_first())
    }
}

/// The escaped form of a URI parameter.
pub open spec fn uri_escaped(p: Seq<char>) -> Seq<char> {
    escape_each(percent_encoded(vstd::utf8::encode_utf8(p)), extra_escapes())
}

/// The unescaped form of a URI parameter.
pub open spec fn uri_unescaped(p: Seq<char>) -> Seq<char> {
    lossy_text(percent_decoded(vstd::utf8::encode_utf8(unescape_each(p, extra_unescapes()))))
}

/// Percent-encodes a URI parameter for use in a link, also escaping
/// `:` `/` `\` `$` `.` `!` `@`.
pub fn aux_uri_escape(param: Option<String>) -> (r: Option<String>)
    ensures
        match param {
            None => r is None,
            Some(p) => r matches Some(e) && e@ == uri_escaped(p@),
        },
{
    match param {
        None => None,
        Some(param_pure) => {
            let e0 = percent_encode_default(param_pure.as_str());
            proof {
                reveal_strlit(":");
                reveal_strlit("%3A");
                reveal_strlit("/");
                reveal_strlit("%2F");
                reveal_strlit("\\");
                reveal_strlit("%5C");
                reveal_strlit("$");
                reveal_strlit("%24");
                reveal_strlit(".");
                reveal_strlit("%2E");
                reveal_strlit("!");
                reveal_strlit("%21");
                reveal_strlit("@");
                reveal_strlit("%40");
                assert(":"@ =~= seq![0x3Au8 as char]);
                assert("%3A"@ =~= percent_byte(0x3A));
                assert("/"@ =~= seq![0x2Fu8 as char]);
                assert("%2F"@ =~= percent_byte(0x2F));
                assert("\\"@ =~= seq![0x5Cu8 as char]);
                assert("%5C"@ =~= percent_byte(0x5C));
                assert("$"@ =~= seq![0x24u8 as char]);
                assert("%24"@ =~= percent_byte(0x24));
                assert("."@ =~= seq![0x2Eu8 as char]);
                assert("%2E"@ =~= percent_byte(0x2E));
                assert("!"@ =~= seq![0x21u8 as char]);
                assert("%21"@ =~= percent_byte(0x21));
                assert("@"@ =~= seq![0x40u8 as char]);
                assert("%40"@ =~= percent_byte(0x40));
            }
            let e1 = replace_all(e0.as_str(), ":", "%3A");
            let e2 = replace_all(e1.as_str(), "/", "%2F");
            let e3 = replace_all(e2.as_str(), "\\", "%5C");
            let e4 = replace_all(e3.as_str(), "$", "%24");
            let e5 = replace_all(e4.as_str(), ".", "%2E");
            let e6 = replace_all(e5.as_str(), "!", "%21");
            let e7 = replace_all(e6.as_str(), "@", "%40");
            proof {
                let c = extra_escapes();
                reveal_with_fuel(escape_each, 8);
                assert(c.drop_first().drop_first().drop_first().drop_first().drop_first().drop_first().drop_first().len() == 0);
            }
            Some(e7)
        },
    }
}

/// Decodes a URI parameter: turns `%3A` `%2F` `%24` `%2E` `%21` `%40` back into
/// their characters, then percent-decodes and reads the bytes as UTF-8, lossily.
pub fn aux_uri_unescape(param: Option<&str>) -> (r: Option<String>)
    ensures
        match param {
            None => r is None,
            Some(p) => r matches Some(d) && d@ == uri_unescaped(p@),
        },
{
    match param {
        None => None,
        Some(param_encoded) => {
            proof {
                reveal_strlit(":");
                reveal_strlit("%3A");
                reveal_strlit("/");
                reveal_strlit("%2F");
                reveal_strlit("$");
                reveal_strlit("%24");
                reveal_strlit(".");
                reveal_strlit("%2E");
                reveal_strlit("!");
                reveal_strlit("%21");
                reveal_strlit("@");
                reveal_strlit("%40");
                assert(":"@ =~= seq![0x3Au8 as char]);
                assert("%3A"@ =~= percent_byte(0x3A));
                assert("/"@ =~= seq![0x2Fu8 as char]);
                assert("%2F"@ =~= percent_byte(0x2F));
                assert("$"@ =~= seq![0x24u8 as char]);
                assert("%24"@ =~= percent_byte(0x24));
                assert("."@ =~= seq![0x2Eu8 as char]);
                assert("%2E"@ =~= percent_byte(0x2E));
                assert("!"@ =~= seq![0x21u8 as char]);
                assert("%21"@ =~= percent_byte(0x21));
                assert("@"@ =~= seq![0x40u8 as char]);
                assert("%40"@ =~= percent_byte(0x40));
            }
            let d1 = replace_all(param_encoded, "%3A", ":");
            let d2 = replace_all(d1.as_str(), "%2F", "/");
            let d3 = replace_all(d2.as_str(), "%24", "$");
            let d4 = replace_all(d3.as_str(), "%2E", ".");
            let d5 = replace_all(d4.as_str(), "%21", "!");
            let d6 = replace_all(d5.as_str(), "%40", "@");
            let decoded = percent_decode_lossy(d6.as_str());
            proof {
                let c = extra_unescapes();
                reveal_with_fuel(unescape_each, 7);
                assert(c.drop_first().drop_first().drop_first().drop_first().drop_first().drop_first().len() == 0);
            }
            Some(decoded)
        },
    }
}

/// Each byte of `bytes` written `%XX` where `esc` holds of it, as its character otherwise.
pub open spec fn tokens(bytes: Seq<u8>, esc: spec_fn(u8) -> bool) -> Seq<char>
    decreases bytes.len(),
{
    if bytes.len() == 0 {
        Seq::empty()
    } else {
        token(bytes[0], esc) + tokens(bytes.drop_first(), esc)
    }
}

/// A byte written `%XX` where `esc` holds of it, as its character otherwise.
pub open spec fn token(b: u8, esc: spec_fn(u8) -> bool) -> Seq<char> {
    if esc(b) {
        percent_byte(b)
    } else {
        seq![b as char]
    }
}

proof fn lemma_tokens_congruent(bytes: Seq<u8>, f: spec_fn(u8) -> bool, g: spec_fn(u8) -> bool)
    requires
        forall|b: u8| #[trigger] f(b) == g(b),
    ensures
        tokens(bytes, f) == tokens(bytes, g),
    decreases bytes.len(),
{
    if bytes.len() > 0 {
        lemma_tokens_congruent(bytes.drop_first(), f, g);
    }
}

proof fn lemma_percent_encoded_tokens(bytes: Seq<u8>)
    ensures
        percent_encoded(bytes) == tokens(bytes, |b: u8| in_default_encode_set(b)),
    decreases bytes.len(),
{
    if bytes.len() > 0 {
        lemma_percent_encoded_tokens(bytes.drop_first());
    }
}

proof fn lemma_hex_digit(d: u8)
    requires
        d < 16,
    ensures
        hex_digit(d) != '%',
        (hex_digit(d) as u32) < 0x80,
        hex_value(hex_digit(d) as u8) == Some(d),
        0x30 <= hex_digit(d) as u32 <= 0x39 || 0x41 <= hex_digit(d) as u32 <= 0x46,
{
    let c: u8 = if d < 10 { (d + 48) as u8 } else { (d + 55) as u8 };
    assert(hex_digit(d) == c as char);
    assert((c as char) as u32 == c as u32);
    assert((c as char) as u8 == c);
    assert('%' as u32 == 0x25);
}

proof fn lemma_hex_digit_injective(a: u8, b: u8)
    requires
        a < 16,
        b < 16,
        hex_digit(a) == hex_digit(b),
    ensures
        a == b,
{
    lemma_hex_digit(a);
    lemma_hex_digit(b);
}

proof fn lemma_percent_byte_injective(a: u8, b: u8)
    requires
        percent_byte(a) == percent_byte(b),
    ensures
        a == b,
{
    assert(percent_byte(a)[1] == percent_byte(b)[1]);
    assert(percent_byte(a)[2] == percent_byte(b)[2]);
    lemma_hex_digit_injective(a / 16, b / 16);
    lemma_hex_digit_injective(a % 16, b % 16);
}

proof fn lemma_byte_char_injective(a: u8, b: u8)
    requires
        a as char == b as char,
    ensures
        a == b,
{
    assert((a as char) as u32 == a as u32);
    assert((b as char) as u32 == b as u32);
}

/// Replacing a single character distributes over concatenation.
proof fn lemma_replaced_single_concat(x: Seq<char>, y: Seq<char>, pat: Seq<char>, rep: Seq<char>)
    requires
        pat.len() == 1,
    ensures
        crate::text::replaced(x + y, pat, rep) == crate::text::replaced(x, pat, rep) + crate::text::replaced(y, pat, rep),
    decreases x.len(),
{
    if x.len() == 0 {
        assert(x + y == y);
        assert(crate::text::replaced(x, pat, rep) == x);
        assert(x + crate::text::replaced(y, pat, rep) == crate::text::replaced(y, pat, rep));
    } else {
        let s = x + y;
        assert(s.skip(1) == x.skip(1) + y);
        assert(s.take(1) == x.take(1));
        lemma_replaced_single_concat(x.skip(1), y, pat, rep);
        if x.take(1) == pat {
            assert(rep + (crate::text::replaced(x.skip(1), pat, rep) + crate::text::replaced(y, pat, rep)) == (rep
                + crate::text::replaced(x.skip(1), pat, rep)) + crate::text::replaced(y, pat, rep));
        } else {
            assert(s[0] == x[0]);
            assert(seq![x[0]] + (crate::text::replaced(x.skip(1), pat, rep) + crate::text::replaced(y, pat, rep)) == (seq![x[0]]
                + crate::text::replaced(x.skip(1), pat, rep)) + crate::text::replaced(y, pat, rep));
        }
    }
}

/// A sequence without the single character of `pat` is left as it is.
proof fn lemma_replaced_single_absent(x: Seq<char>, pat: Seq<char>, rep: Seq<char>)
    requires
        pat.len() == 1,
        forall|i: int| 0 <= i < x.len() ==> x[i] != pat[0],
    ensures
        crate::text::replaced(x, pat, rep) == x,
    decreases x.len(),
{
    if x.len() > 0 {
        assert(x.take(1)[0] != pat[0]);
        lemma_replaced_single_absent(x.skip(1), pat, rep);
        assert(seq![x[0]] + x.skip(1) == x);
    }
}

/// Replacing at the front when the sequence starts with the pattern.
proof fn lemma_replaced_front_match(y: Seq<char>, pat: Seq<char>, rep: Seq<char>)
    requires
        pat.len() > 0,
    ensures
        crate::text::replaced(pat + y, pat, rep) == rep + crate::text::replaced(y, pat, rep),
{
    let s = pat + y;
    assert(s.take(pat.len() as int) == pat);
    assert(s.skip(pat.len() as int) == y);
}

/// A first character that cannot start the pattern is kept.
proof fn lemma_replaced_front_keep(x: char, y: Seq<char>, pat: Seq<char>, rep: Seq<char>)
    requires
        pat.len() > 0,
        x != pat[0],
    ensures
        crate::text::replaced(seq![x] + y, pat, rep) == seq![x] + crate::text::replaced(y, pat, rep),
{
    let s = seq![x] + y;
    assert(s.skip(1) == y);
    assert(s[0] == x);
    if s.len() < pat.len() {
        assert(y.len() < pat.len());
    } else {
        assert(s.take(pat.len() as int)[0] != pat[0]);
    }
}

spec fn safe_code(c: u8) -> bool {
    &&& c < 0x80
    &&& c != 0x25
    &&& !(0x30 <= c <= 0x39)
    &&& !(0x41 <= c <= 0x46)
}

proof fn lemma_escape_step(bytes: Seq<u8>, esc: spec_fn(u8) -> bool, c: u8)
    requires
        safe_code(c),
    ensures
        crate::text::replaced(tokens(bytes, esc), seq![c as char], percent_byte(c)) == tokens(
            bytes,
            |b: u8| esc(b) || b == c,
        ),
    decreases bytes.len(),
{
    let pat = seq![c as char];
    let esc2 = |b: u8| esc(b) || b == c;
    if bytes.len() > 0 {
        let b0 = bytes[0];
        let rest = bytes.drop_first();
        lemma_escape_step(rest, esc, c);
        lemma_replaced_single_concat(token(b0, esc), tokens(rest, esc), pat, percent_byte(c));
        if esc(b0) {
            lemma_hex_digit(b0 / 16);
            lemma_hex_digit(b0 % 16);
            assert((c as char) as u32 == c as u32);
            assert('%' as u32 == 0x25);
            assert forall|i: int| 0 <= i < percent_byte(b0).len() implies percent_byte(b0)[i]
                != pat[0] by {
                if i == 1 {
                    assert(hex_digit(b0 / 16) as u32 != c as u32);
                } else if i == 2 {
                    assert(hex_digit(b0 % 16) as u32 != c as u32);
                }
            }
            lemma_replaced_single_absent(percent_byte(b0), pat, percent_byte(c));
        } else if b0 == c {
            lemma_replaced_front_match(Seq::empty(), pat, percent_byte(c));
            assert(pat + Seq::<char>::empty() == pat);
            assert(crate::text::replaced(Seq::<char>::empty(), pat, percent_byte(c)) == Seq::<char>::empty());
            assert(percent_byte(c) + Seq::<char>::empty() == percent_byte(c));
        } else {
            if b0 as char == c as char {
                lemma_byte_char_injective(b0, c);
            }
            lemma_replaced_single_absent(seq![b0 as char], pat, percent_byte(c));
        }
        assert(token(b0, esc2) == crate::text::replaced(token(b0, esc), pat, percent_byte(c)));
    }
}

proof fn lemma_escape_each(bytes: Seq<u8>, esc: spec_fn(u8) -> bool, codes: Seq<u8>)
    requires
        forall|i: int| 0 <= i < codes.len() ==> safe_code(#[trigger] codes[i]),
    ensures
        escape_each(tokens(bytes, esc), codes) == tokens(
            bytes,
            |b: u8| esc(b) || codes.contains(b),
        ),
    decreases codes.len(),
{
    if codes.len() == 0 {
        lemma_tokens_congruent(bytes, esc, |b: u8| esc(b) || codes.contains(b));
    } else {
        let c = codes[0];
        let rest = codes.drop_first();
        let esc1 = |b: u8| esc(b) || b == c;
        assert(safe_code(codes[0]));
        lemma_escape_step(bytes, esc, c);
        assert forall|i: int| 0 <= i < rest.len() implies safe_code(#[trigger] rest[i]) by {
            assert(rest[i] == codes[i + 1]);
        }
        lemma_escape_each(bytes, esc1, rest);
        assert forall|b: u8| (esc1(b) || rest.contains(b)) == (esc(b) || codes.contains(b)) by {
            if rest.contains(b) {
                let j = choose|j: int| 0 <= j < rest.len() && rest[j] == b;
                assert(codes[j + 1] == b);
            }
            if codes.contains(b) && b != c {
                let j = choose|j: int| 0 <= j < codes.len() && codes[j] == b;
                assert(rest[j - 1] == b);
            }
        }
        lemma_tokens_congruent(
            bytes,
            |b: u8| esc1(b) || rest.contains(b),
            |b: u8| esc(b) || codes.contains(b),
        );
    }
}

proof fn lemma_unescape_step(bytes: Seq<u8>, esc: spec_fn(u8) -> bool, c: u8)
    requires
        !bytes.contains(0x25u8),
    ensures
        crate::text::replaced(tokens(bytes, esc), percent_byte(c), seq![c as char]) == tokens(
            bytes,
            |b: u8| esc(b) && b != c,
        ),
    decreases bytes.len(),
{
    let pat = percent_byte(c);
    let rep = seq![c as char];
    let esc2 = |b: u8| esc(b) && b != c;
    if bytes.len() > 0 {
        let b0 = bytes[0];
        let rest = bytes.drop_first();
        assert forall|i: int| 0 <= i < rest.len() implies rest[i] != 0x25u8 by {
            assert(rest[i] == bytes[i + 1]);
        }
        lemma_unescape_step(rest, esc, c);
        let tail = tokens(rest, esc);
        assert(tokens(bytes, esc) == token(b0, esc) + tail);
        assert(tokens(bytes, esc2) == token(b0, esc2) + tokens(rest, esc2));
        assert(b0 != 0x25u8) by {
            assert(bytes[0] == b0);
        }
        if esc(b0) && b0 == c {
            lemma_replaced_front_match(tail, pat, rep);
        } else if esc(b0) {
            lemma_hex_digit(b0 / 16);
            lemma_hex_digit(b0 % 16);
            let h = hex_digit(b0 / 16);
            let l = hex_digit(b0 % 16);
            let s = percent_byte(b0) + tail;
            assert(s == seq!['%'] + (seq![h] + (seq![l] + tail)));
            lemma_replaced_front_keep(l, tail, pat, rep);
            lemma_replaced_front_keep(h, seq![l] + tail, pat, rep);
            if s.take(3) == pat {
                assert(s.take(3) == percent_byte(b0));
                lemma_percent_byte_injective(b0, c);
            }
            assert(s.len() >= pat.len());
            assert(s.skip(1) == seq![h] + (seq![l] + tail));
            assert(s[0] == '%');
            assert(crate::text::replaced(s, pat, rep) == seq!['%'] + crate::text::replaced(s.skip(1), pat, rep));
            assert(seq!['%'] + (seq![h] + (seq![l] + crate::text::replaced(tail, pat, rep))) == percent_byte(b0)
                + crate::text::replaced(tail, pat, rep));
        } else {
            assert((b0 as char) as u32 == b0 as u32);
            assert('%' as u32 == 0x25);
            lemma_replaced_front_keep(b0 as char, tail, pat, rep);
        }
    }
}

proof fn lemma_unescape_each(bytes: Seq<u8>, esc: spec_fn(u8) -> bool, codes: Seq<u8>)
    requires
        !bytes.contains(0x25u8),
    ensures
        unescape_each(tokens(bytes, esc), codes) == tokens(
            bytes,
            |b: u8| esc(b) && !codes.contains(b),
        ),
    decreases codes.len(),
{
    if codes.len() == 0 {
        lemma_tokens_congruent(bytes, esc, |b: u8| esc(b) && !codes.contains(b));
    } else {
        let c = codes[0];
        let rest = codes.drop_first();
        let esc1 = |b: u8| esc(b) && b != c;
        lemma_unescape_step(bytes, esc, c);
        lemma_unescape_each(bytes, esc1, rest);
        assert forall|b: u8| (esc1(b) && !rest.contains(b)) == (esc(b) && !codes.contains(b)) by {
            if rest.contains(b) {
                let j = choose|j: int| 0 <= j < rest.len() && rest[j] == b;
                assert(codes[j + 1] == b);
            }
            if codes.contains(b) && b != c {
                let j = choose|j: int| 0 <= j < codes.len() && codes[j] == b;
                assert(rest[j - 1] == b);
            }
        }
        lemma_tokens_congruent(
            bytes,
            |b: u8| esc1(b) && !rest.contains(b),
            |b: u8| esc(b) && !codes.contains(b),
        );
    }
}

proof fn lemma_encode_utf8_concat(x: Seq<char>, y: Seq<char>)
    ensures
        vstd::utf8::encode_utf8(x + y) == vstd::utf8::encode_utf8(x) + vstd::utf8::encode_utf8(y),
    decreases x.len(),
{
    if x.len() == 0 {
        assert(x + y == y);
    } else {
        assert((x + y).drop_first() == x.drop_first() + y);
        assert((x + y)[0] == x[0]);
        lemma_encode_utf8_concat(x.drop_first(), y);
    }
}

proof fn lemma_ascii_char_bytes(b: u8)
    requires
        b < 0x80,
    ensures
        vstd::utf8::encode_utf8(seq![b as char]) == seq![b],
{
    let v: u32 = (b as char) as u32;
    assert(v == b as u32);
    assert(v <= 0x7F ==> (v & 0x7F) as u8 == v as u8) by (bit_vector);
    assert(seq![b as char].drop_first() =~= Seq::<char>::empty());
    assert(vstd::utf8::encode_utf8(seq![b as char]) == vstd::utf8::encode_scalar(v) + vstd::utf8::encode_utf8(Seq::<char>::empty()));
}

/// The bytes of the UTF-8 encoding of a token sequence whose literals are printable ASCII.
proof fn lemma_tokens_decode(bytes: Seq<u8>, esc: spec_fn(u8) -> bool)
    requires
        !bytes.contains(0x25u8),
        forall|b: u8| in_default_encode_set(b) ==> #[trigger] esc(b),
    ensures
        percent_decoded(vstd::utf8::encode_utf8(tokens(bytes, esc))) == bytes,
    decreases bytes.len(),
{
    if bytes.len() > 0 {
        let b0 = bytes[0];
        let rest = bytes.drop_first();
        assert forall|i: int| 0 <= i < rest.len() implies rest[i] != 0x25u8 by {
            assert(rest[i] == bytes[i + 1]);
        }
        lemma_tokens_decode(rest, esc);
        let tail = vstd::utf8::encode_utf8(tokens(rest, esc));
        lemma_encode_utf8_concat(token(b0, esc), tokens(rest, esc));
        assert(b0 != 0x25u8) by {
            assert(bytes[0] == b0);
        }
        if esc(b0) {
            let hi = b0 / 16;
            let lo = b0 % 16;
            lemma_hex_digit(hi);
            lemma_hex_digit(lo);
            let hb = hex_digit(hi) as u8;
            let lb = hex_digit(lo) as u8;
            assert((hb as char) == hex_digit(hi));
            assert((lb as char) == hex_digit(lo));
            assert(('%' as u8) as char == '%');
            assert('%' as u8 == 0x25u8);
            lemma_ascii_char_bytes(0x25u8);
            lemma_ascii_char_bytes(hb);
            lemma_ascii_char_bytes(lb);
            assert(percent_byte(b0) == seq![0x25u8 as char] + (seq![hb as char] + seq![lb as char]));
            lemma_encode_utf8_concat(seq![0x25u8 as char], seq![hb as char] + seq![lb as char]);
            lemma_encode_utf8_concat(seq![hb as char], seq![lb as char]);
            let eb = seq![0x25u8, hb, lb] + tail;
            assert(vstd::utf8::encode_utf8(percent_byte(b0)) == seq![0x25u8, hb, lb]);
            assert(eb[0] == 0x25u8 && eb[1] == hb && eb[2] == lb);
            assert(eb.skip(3) == tail);
            assert(hi * 16 + lo == b0);
        } else {
            assert(!in_default_encode_set(b0));
            lemma_ascii_char_bytes(b0);
            let eb = seq![b0] + tail;
            assert(eb.drop_first() == tail);
        }
    }
}

proof fn lemma_no_percent_byte(p: Seq<char>)
    requires
        !p.contains('%'),
    ensures
        !vstd::utf8::encode_utf8(p).contains(0x25u8),
    decreases p.len(),
{
    if p.len() > 0 {
        let c = p[0];
        assert forall|i: int| 0 <= i < p.drop_first().len() implies p.drop_first()[i] != '%' by {
            assert(p.drop_first()[i] == p[i + 1]);
        }
        lemma_no_percent_byte(p.drop_first());
        let v = c as u32;
        assert(c != '%');
        let e = vstd::utf8::encode_scalar(v);
        assert((0xC0u8 | ((v >> 6) & 0x1F) as u8) != 0x25u8) by (bit_vector);
        assert((0xE0u8 | ((v >> 12) & 0x0F) as u8) != 0x25u8) by (bit_vector);
        assert((0xF0u8 | ((v >> 18) & 0x7) as u8) != 0x25u8) by (bit_vector);
        assert((0x80u8 | (v & 0x3F) as u8) != 0x25u8) by (bit_vector);
        assert((0x80u8 | ((v >> 6) & 0x3F) as u8) != 0x25u8) by (bit_vector);
        assert((0x80u8 | ((v >> 12) & 0x3F) as u8) != 0x25u8) by (bit_vector);
        assert(v <= 0x7F ==> (v & 0x7F) as u8 == v as u8) by (bit_vector);
        assert('%' as u32 == 0x25);
        vstd::utf8::char_is_scalar(c);
        if v <= 0x7F {
            if v == 0x25 {
                vstd::utf8::char_u32_cast(c, v);
                vstd::utf8::char_u32_cast('%', 0x25);
            }
            assert(e == seq![v as u8]);
        }
        assert(forall|i: int| 0 <= i < e.len() ==> e[i] != 0x25u8);
        let whole = vstd::utf8::encode_utf8(p);
        assert(whole == e + vstd::utf8::encode_utf8(p.drop_first()));
        assert forall|i: int| 0 <= i < whole.len() implies whole[i] != 0x25u8 by {
            if i >= e.len() {
                assert(whole[i] == vstd::utf8::encode_utf8(p.drop_first())[i - e.len()]);
            }
        }
    }
}

/// The bytes a link writes as `%XX`: those of the default encode set, and `:`
/// `/` `\` `$` `.` `!` `@`.
pub open spec fn escaped_in_links(b: u8) -> bool {
    ||| in_default_encode_set(b)
    ||| b == 0x3A
    ||| b == 0x2F
    ||| b == 0x5C
    ||| b == 0x24
    ||| b == 0x2E
    ||| b == 0x21
    ||| b == 0x40
}

/// Escaping a URI parameter writes each byte of its UTF-8 form in turn: as `%XX`
/// (upper-case digits) when it is a control or non-ASCII byte, one of space `"`
/// `#` `<` `>` `` ` `` `?` `{` `}`, or one of `:` `/` `\` `$` `.` `!` `@`; as its
/// own character otherwise.
pub proof fn law_uri_escape_bytes(p: Seq<char>)
    ensures
        uri_escaped(p) == tokens(vstd::utf8::encode_utf8(p), |b: u8| escaped_in_links(b)),
{
    let bytes = vstd::utf8::encode_utf8(p);
    lemma_percent_encoded_tokens(bytes);
    let esc0 = |b: u8| in_default_encode_set(b);
    assert forall|i: int| 0 <= i < extra_escapes().len() implies safe_code(
        #[trigger] extra_escapes()[i],
    ) by {}
    lemma_escape_each(bytes, esc0, extra_escapes());
    let esc1 = |b: u8| esc0(b) || extra_escapes().contains(b);
    assert forall|b: u8| #[trigger] esc1(b) == escaped_in_links(b) by {
        let c = extra_escapes();
        if c.contains(b) {
            let j = choose|j: int| 0 <= j < c.len() && c[j] == b;
        }
        if b == 0x3A { assert(c[0] == b); }
        if b == 0x2F { assert(c[1] == b); }
        if b == 0x5C { assert(c[2] == b); }
        if b == 0x24 { assert(c[3] == b); }
        if b == 0x2E { assert(c[4] == b); }
        if b == 0x21 { assert(c[5] == b); }
        if b == 0x40 { assert(c[6] == b); }
    }
    lemma_tokens_congruent(bytes, esc1, |b: u8| escaped_in_links(b));
}

/// Escaping and then unescaping a URI parameter gives the parameter back,
/// for every parameter without a `%` (a literal `%` followed by two hexadecimal
/// digits is read back as the byte they denote).
pub proof fn law_uri_unescape_inverts_escape(p: Seq<char>)
    requires
        !p.contains('%'),
    ensures
        uri_unescaped(uri_escaped(p)) == p,
{
    let bytes = vstd::utf8::encode_utf8(p);
    lemma_no_percent_byte(p);
    lemma_percent_encoded_tokens(bytes);
    let esc0 = |b: u8| in_default_encode_set(b);
    assert forall|i: int| 0 <= i < extra_escapes().len() implies safe_code(
        #[trigger] extra_escapes()[i],
    ) by {}
    lemma_escape_each(bytes, esc0, extra_escapes());
    let esc1 = |b: u8| esc0(b) || extra_escapes().contains(b);
    lemma_unescape_each(bytes, esc1, extra_unescapes());
    let esc2 = |b: u8| esc1(b) && !extra_unescapes().contains(b);
    assert forall|b: u8| in_default_encode_set(b) implies #[trigger] esc2(b) by {
        if extra_unescapes().contains(b) {
            let j = choose|j: int| 0 <= j < extra_unescapes().len() && extra_unescapes()[j] == b;
        }
    }
    lemma_tokens_decode(bytes, esc2);
    vstd::utf8::encode_utf8_valid_utf8(p);
    vstd::utf8::encode_utf8_decode_utf8(p);
}

} // verus!

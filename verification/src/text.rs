//! Building the text of a query: decimal numbers, percent-encoding, and
//! `key=value` pairs joined by `&`.

use vstd::prelude::*;
use vstd::string::StringExecFns;
use vstd::utf8::encode_utf8;

verus! {

/// Appends one character, as `String::push` of the standard library does:
/// the text afterwards is the text before with `c` at its end.
#[verifier::external_body]
pub(crate) fn push_char(out: &mut String, c: char)
    ensures
        final(out)@ == old(out)@.push(c),
{
    out.push(c);
}

/// The character of a decimal digit.
pub open spec fn digit_char(d: nat) -> char
    recommends
        d < 10,
{
    (48 + d) as u8 as char
}

/// The decimal digits of a number, without leading zeros.
pub open spec fn decimal(n: nat) -> Seq<char>
    decreases n,
{
    if n < 10 {
        seq![digit_char(n)]
    } else {
        decimal(n / 10).push(digit_char(n % 10))
    }
}

/// Appends the decimal digits of `n`.
pub fn push_decimal(out: &mut String, n: u64)
    ensures
        final(out)@ == old(out)@ + decimal(n as nat),
    decreases n,
{
    if n >= 10 {
        push_decimal(out, n / 10);
    }
    let d: u8 = (n % 10) as u8;
    push_char(out, (48 + d) as char);
    proof {
        assert(out@ =~= old(out)@ + decimal(n as nat));
    }
}

/// Whether a byte stands for itself in a query value: an ASCII letter or
/// digit, or one of `-`, `.`, `_`, `~`.
pub open spec fn unreserved(b: u8) -> bool {
    (65 <= b <= 90) || (97 <= b <= 122) || (48 <= b <= 57) || b == 45 || b == 46 || b == 95 || b
        == 126
}

/// The character of a hexadecimal digit, in upper case.
pub open spec fn hex_char(d: u8) -> char
    recommends
        d < 16,
{
    if d < 10 {
        (48 + d) as u8 as char
    } else {
        (55 + d) as u8 as char
    }
}

/// How one byte is written in a query value.
pub open spec fn escaped(b: u8) -> Seq<char> {
    if unreserved(b) {
        seq![b as char]
    } else {
        seq!['%', hex_char(b / 16), hex_char(b % 16)]
    }
}

/// Bytes as they are written in a query value, byte by byte.
pub open spec fn percent_encoded(bytes: Seq<u8>) -> Seq<char>
    decreases bytes.len(),
{
    if bytes.len() == 0 {
        Seq::empty()
    } else {
        percent_encoded(bytes.drop_last()) + escaped(bytes.last())
    }
}

fn is_unreserved(b: u8) -> (r: bool)
    ensures
        r == unreserved(b),
{
    (65 <= b && b <= 90) || (97 <= b && b <= 122) || (48 <= b && b <= 57) || b == 45 || b == 46
        || b == 95 || b == 126
}

fn hex_digit(d: u8) -> (c: char)
    requires
        d < 16,
    ensures
        c == hex_char(d),
{
    if d < 10 {
        (48 + d) as char
    } else {
        (55 + d) as char
    }
}

/// Appends the UTF-8 bytes of `text`, percent-encoded.
pub fn push_percent_encoded(out: &mut String, text: &str)
    ensures
        final(out)@ == old(out)@ + percent_encoded(encode_utf8(text@)),
{
    let bytes = text.as_bytes();
    let ghost all = bytes@;
    let mut i: usize = 0;
    proof {
        assert(out@ =~= old(out)@ + percent_encoded(all.take(0)));
    }
    while i < bytes.len()
        invariant
            i <= bytes.len(),
            all == bytes@,
            out@ == old(out)@ + percent_encoded(all.take(i as int)),
        decreases bytes.len() - i,
    {
        let b = bytes[i];
        let ghost before = out@;
        proof {
            assert(all.take(i + 1).drop_last() =~= all.take(i as int));
        }
        if is_unreserved(b) {
            push_char(out, b as char);
        } else {
            push_char(out, '%');
            push_char(out, hex_digit(b / 16));
            push_char(out, hex_digit(b % 16));
        }
        proof {
            assert(out@ =~= before + escaped(b));
            assert(out@ =~= old(out)@ + percent_encoded(all.take(i + 1)));
        }
        i += 1;
    }
    proof {
        assert(all.take(i as int) =~= all);
    }
}

/// `key=value` pairs joined by `&`, in their order.
pub open spec fn joined(pairs: Seq<(Seq<char>, Seq<char>)>) -> Seq<char>
    decreases pairs.len(),
{
    if pairs.len() == 0 {
        Seq::empty()
    } else if pairs.len() == 1 {
        pairs[0].0 + seq!['='] + pairs[0].1
    } else {
        joined(pairs.drop_last()) + seq!['&'] + pairs.last().0 + seq!['='] + pairs.last().1
    }
}

/// Starts the next pair: the separator, unless it is the first pair, the
/// key, and the equals sign.
fn begin_pair(out: &mut String, first: bool, key: &str)
    ensures
        final(out)@ == old(out)@ + (if first {
            Seq::<char>::empty()
        } else {
            seq!['&']
        }) + key@ + seq!['='],
{
    if !first {
        push_char(out, '&');
    }
    out.append(key);
    push_char(out, '=');
    proof {
        assert(out@ =~= old(out)@ + (if first {
            Seq::<char>::empty()
        } else {
            seq!['&']
        }) + key@ + seq!['=']);
    }
}

/// Appends a pair whose value is a number.
pub(crate) fn push_number(
    out: &mut String,
    Ghost(done): Ghost<Seq<(Seq<char>, Seq<char>)>>,
    first: bool,
    key: &str,
    n: u64,
)
    requires
        old(out)@ == joined(done),
        first == (done.len() == 0),
    ensures
        final(out)@ == joined(done.push((key@, decimal(n as nat)))),
{
    begin_pair(out, first, key);
    push_decimal(out, n);
    proof {
        lemma_joined_push(done, (key@, decimal(n as nat)));
        assert(out@ =~= joined(done.push((key@, decimal(n as nat)))));
    }
}

/// Appends a pair whose value is free text, percent-encoded.
pub(crate) fn push_text(
    out: &mut String,
    Ghost(done): Ghost<Seq<(Seq<char>, Seq<char>)>>,
    first: bool,
    key: &str,
    value: &str,
)
    requires
        old(out)@ == joined(done),
        first == (done.len() == 0),
    ensures
        final(out)@ == joined(done.push((key@, percent_encoded(encode_utf8(value@))))),
{
    begin_pair(out, first, key);
    push_percent_encoded(out, value);
    proof {
        lemma_joined_push(done, (key@, percent_encoded(encode_utf8(value@))));
        assert(out@ =~= joined(done.push((key@, percent_encoded(encode_utf8(value@))))));
    }
}

/// Appends a pair whose value is a word that needs no encoding.
pub(crate) fn push_word(
    out: &mut String,
    Ghost(done): Ghost<Seq<(Seq<char>, Seq<char>)>>,
    first: bool,
    key: &str,
    word: &str,
)
    requires
        old(out)@ == joined(done),
        first == (done.len() == 0),
    ensures
        final(out)@ == joined(done.push((key@, word@))),
{
    begin_pair(out, first, key);
    out.append(word);
    proof {
        lemma_joined_push(done, (key@, word@));
        assert(out@ =~= joined(done.push((key@, word@))));
    }
}

/// One more pair where the number is given, none where it is not.
pub open spec fn with_number(
    pairs: Seq<(Seq<char>, Seq<char>)>,
    key: Seq<char>,
    n: Option<u64>,
) -> Seq<(Seq<char>, Seq<char>)> {
    match n {
        Some(x) => pairs.push((key, decimal(x as nat))),
        None => pairs,
    }
}

/// One more pair where the text is given, percent-encoded, none where it
/// is not.
pub open spec fn with_text(
    pairs: Seq<(Seq<char>, Seq<char>)>,
    key: Seq<char>,
    text: Option<Seq<char>>,
) -> Seq<(Seq<char>, Seq<char>)> {
    match text {
        Some(t) => pairs.push((key, percent_encoded(encode_utf8(t)))),
        None => pairs,
    }
}

/// One more pair where the word is given, as it is, none where it is not.
pub open spec fn with_word(
    pairs: Seq<(Seq<char>, Seq<char>)>,
    key: Seq<char>,
    word: Option<Seq<char>>,
) -> Seq<(Seq<char>, Seq<char>)> {
    match word {
        Some(w) => pairs.push((key, w)),
        None => pairs,
    }
}

/// The model of an optional string.
pub open spec fn opt_text(s: Option<String>) -> Option<Seq<char>> {
    match s {
        Some(text) => Some(text@),
        None => None,
    }
}

/// Appends a number's pair after the first pair, where the number is given.
pub(crate) fn push_opt_number(
    out: &mut String,
    Ghost(done): Ghost<Seq<(Seq<char>, Seq<char>)>>,
    key: &str,
    n: Option<u64>,
)
    requires
        old(out)@ == joined(done),
        done.len() > 0,
    ensures
        final(out)@ == joined(with_number(done, key@, n)),
        with_number(done, key@, n).len() > 0,
{
    if let Some(x) = n {
        push_number(out, Ghost(done), false, key, x);
    }
}

/// Appends a text's pair after the first pair, where the text is given.
pub(crate) fn push_opt_text(
    out: &mut String,
    Ghost(done): Ghost<Seq<(Seq<char>, Seq<char>)>>,
    key: &str,
    value: &Option<String>,
)
    requires
        old(out)@ == joined(done),
        done.len() > 0,
    ensures
        final(out)@ == joined(with_text(done, key@, opt_text(*value))),
        with_text(done, key@, opt_text(*value)).len() > 0,
{
    if let Some(t) = value {
        push_text(out, Ghost(done), false, key, t.as_str());
    }
}

/// Appends a word's pair after the first pair, where the word is given.
pub(crate) fn push_opt_word(
    out: &mut String,
    Ghost(done): Ghost<Seq<(Seq<char>, Seq<char>)>>,
    key: &str,
    word: Option<&str>,
)
    requires
        old(out)@ == joined(done),
        done.len() > 0,
    ensures
        final(out)@ == joined(
            with_word(
                done,
                key@,
                match word {
                    Some(w) => Some(w@),
                    None => None,
                },
            ),
        ),
{
    if let Some(w) = word {
        push_word(out, Ghost(done), false, key, w);
    }
}

/// Widens an optional 32-bit number.
pub fn widen(n: Option<u32>) -> (r: Option<u64>)
    ensures
        r == number_of(n),
{
    match n {
        Some(x) => Some(x as u64),
        None => None,
    }
}

/// The 64-bit number that stands for an optional 32-bit number.
pub open spec fn number_of(n: Option<u32>) -> Option<u64> {
    match n {
        Some(x) => Some(x as u64),
        None => None,
    }
}

/// One more pair adds the separator, unless it is the first, then the key,
/// the equals sign and the value.
pub proof fn lemma_joined_push(done: Seq<(Seq<char>, Seq<char>)>, pair: (Seq<char>, Seq<char>))
    ensures
        joined(done.push(pair)) == joined(done) + (if done.len() == 0 {
            Seq::<char>::empty()
        } else {
            seq!['&']
        }) + pair.0 + seq!['='] + pair.1,
{
    let all = done.push(pair);
    assert(all.drop_last() =~= done);
    if done.len() == 0 {
        assert(joined(all) =~= joined(done) + Seq::<char>::empty() + pair.0 + seq!['='] + pair.1);
    }
}

/// A query never starts anywhere but at its first pair: the first key and
/// its value open the text.
pub proof fn lemma_joined_starts(pairs: Seq<(Seq<char>, Seq<char>)>)
    requires
        pairs.len() > 0,
    ensures
        (pairs[0].0 + seq!['='] + pairs[0].1).is_prefix_of(joined(pairs)),
    decreases pairs.len(),
{
    if pairs.len() > 1 {
        lemma_joined_starts(pairs.drop_last());
    }
}

} // verus!

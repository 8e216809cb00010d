//! Text primitives of the wire format: decimal numbers and the
//! `application/x-www-form-urlencoded` rendering of ordered key/value pairs.

use vstd::prelude::*;

verus! {

/// The character of the decimal digit `d` (for `d < 10`).
pub open spec fn digit_char(d: nat) -> char {
    if d == 0 {
        '0'
    } else if d == 1 {
        '1'
    } else if d == 2 {
        '2'
    } else if d == 3 {
        '3'
    } else if d == 4 {
        '4'
    } else if d == 5 {
        '5'
    } else if d == 6 {
        '6'
    } else if d == 7 {
        '7'
    } else if d == 8 {
        '8'
    } else {
        '9'
    }
}

/// The decimal text of `n`, without sign or leading zeros.
pub open spec fn decimal(n: nat) -> Seq<char>
    decreases n,
{
    if n < 10 {
        seq![digit_char(n)]
    } else {
        decimal(n / 10) + seq![digit_char(n % 10)]
    }
}

fn digit_text(d: u64) -> (r: &'static str)
    requires
        d < 10,
    ensures
        r@ == seq![digit_char(d as nat)],
{
    if d == 0 {
        proof { reveal_strlit("0"); }
        "0"
    } else if d == 1 {
        proof { reveal_strlit("1"); }
        "1"
    } else if d == 2 {
        proof { reveal_strlit("2"); }
        "2"
    } else if d == 3 {
        proof { reveal_strlit("3"); }
        "3"
    } else if d == 4 {
        proof { reveal_strlit("4"); }
        "4"
    } else if d == 5 {
        proof { reveal_strlit("5"); }
        "5"
    } else if d == 6 {
        proof { reveal_strlit("6"); }
        "6"
    } else if d == 7 {
        proof { reveal_strlit("7"); }
        "7"
    } else if d == 8 {
        proof { reveal_strlit("8"); }
        "8"
    } else {
        proof { reveal_strlit("9"); }
        "9"
    }
}

/// Renders `n` in decimal.
pub fn decimal_text(n: u64) -> (r: String)
    ensures
        r@ == decimal(n as nat),
    decreases n,
{
    if n < 10 {
        String::from_str(digit_text(n))
    } else {
        let mut s = decimal_text(n / 10);
        s.append(digit_text(n % 10));
        s
    }
}

/// Every character of `s` is ASCII.
pub open spec fn is_ascii_text(s: Seq<char>) -> bool {
    forall|i: int| 0 <= i < s.len() ==> (s[i] as u32) < 128
}

/// The characters that form encoding leaves as they are.
pub open spec fn form_unchanged(c: char) -> bool {
    let u = c as u32;
    ||| c == '*'
    ||| c == '-'
    ||| c == '.'
    ||| c == '_'
    ||| 48 <= u <= 57
    ||| 65 <= u <= 90
    ||| 97 <= u <= 122
}

/// The upper-case hexadecimal digit of `d` (for `d < 16`).
pub open spec fn hex_upper(d: nat) -> char {
    if d < 10 {
        digit_char(d)
    } else if d == 10 {
        'A'
    } else if d == 11 {
        'B'
    } else if d == 12 {
        'C'
    } else if d == 13 {
        'D'
    } else if d == 14 {
        'E'
    } else {
        'F'
    }
}

/// Form encoding of one ASCII character: kept, `+` for a space, else `%XX`.
pub open spec fn form_encode_char(c: char) -> Seq<char> {
    if form_unchanged(c) {
        seq![c]
    } else if c == ' ' {
        seq!['+']
    } else {
        seq!['%', hex_upper((c as u32 as nat) / 16), hex_upper((c as u32 as nat) % 16)]
    }
}

/// Form encoding of an ASCII text, character by character.
pub open spec fn form_encode_ascii(s: Seq<char>) -> Seq<char>
    decreases s.len(),
{
    if s.len() == 0 {
        seq![]
    } else {
        form_encode_ascii(s.drop_last()) + form_encode_char(s.last())
    }
}

/// What `form_urlencoded::byte_serialize` makes of the UTF-8 bytes of a text.
pub uninterp spec fn form_urlencoded_of(s: Seq<char>) -> Seq<char>;

/// Form encoding of any text: stated character by character for ASCII text.
pub open spec fn form_encode(s: Seq<char>) -> Seq<char> {
    if is_ascii_text(s) {
        form_encode_ascii(s)
    } else {
        form_urlencoded_of(s)
    }
}

/// Relies on `form_urlencoded::byte_serialize`, which maps each byte of `s`
/// to itself when it is `*`, `-`, `.`, `_` or alphanumeric, to `+` when it is
/// a space, and to `%` and two upper-case hexadecimal digits otherwise.
#[verifier::external_body]
fn form_encode_text(s: &str) -> (r: String)
    ensures
        r@ == form_encode(s@),
        !is_ascii_text(s@) ==> r@ == form_urlencoded_of(s@),
{
    form_urlencoded::byte_serialize(s.as_bytes()).collect()
}

/// A key/value pair as text.
pub type TextPair = (Seq<char>, Seq<char>);

/// One encoded `key=value` item.
pub open spec fn pair_text(p: TextPair) -> Seq<char> {
    form_encode(p.0) + seq!['='] + form_encode(p.1)
}

/// The encoded pairs, in order, joined by `&`.
pub open spec fn query_text(pairs: Seq<TextPair>) -> Seq<char>
    decreases pairs.len(),
{
    if pairs.len() == 0 {
        seq![]
    } else if pairs.len() == 1 {
        pair_text(pairs[0])
    } else {
        query_text(pairs.drop_last()) + seq!['&'] + pair_text(pairs.last())
    }
}

/// The text view of a list of string pairs.
pub open spec fn pairs_view(v: Seq<(String, String)>) -> Seq<TextPair> {
    v.map_values(|p: (String, String)| (p.0@, p.1@))
}

/// Appends the pair `(key, value)` to `out`.
pub fn push_pair(out: &mut Vec<(String, String)>, key: &str, value: String)
    ensures
        pairs_view(final(out)@) == pairs_view(old(out)@).push((key@, value@)),
{
    out.push((String::from_str(key), value));
    proof {
        assert(pairs_view(out@) =~= pairs_view(old(out)@).push((key@, value@)));
    }
}

/// Renders ordered key/value pairs as a form-encoded query string.
pub fn encode_query(pairs: &Vec<(String, String)>) -> (r: String)
    ensures
        r@ == query_text(pairs_view(pairs@)),
{
    let ghost all = pairs_view(pairs@);
    let mut out = String::new();
    let mut i: usize = 0;
    while i < pairs.len()
        invariant
            0 <= i <= pairs.len(),
            all == pairs_view(pairs@),
            out@ == query_text(all.take(i as int)),
        decreases pairs.len() - i,
    {
        proof {
            reveal_strlit("&");
            reveal_strlit("=");
        }
        if i > 0 {
            out.append("&");
        }
        let key = form_encode_text(pairs[i].0.as_str());
        let value = form_encode_text(pairs[i].1.as_str());
        out.append(key.as_str());
        out.append("=");
        out.append(value.as_str());
        proof {
            let next = all.take(i + 1);
            assert(next.drop_last() =~= all.take(i as int));
            assert(next.last() == all[i as int]);
        }
        i += 1;
    }
    assert(all.take(pairs.len() as int) =~= all);
    out
}

} // verus!

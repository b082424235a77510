use crate::icons;
use crate::result::{SearchAction, SearchResult};
use vstd::prelude::*;
use vstd::string::StringExecFns;
use vstd::string::StringSliceAdditionalSpecFns;
use vstd::utf8::encode_utf8;

verus! {

/// A byte that stands for itself in a URL query component: an ASCII letter,
/// a digit, or one of `-` `.` `_` `~`.
pub open spec fn is_unreserved(b: u8) -> bool {
    ||| 0x41 <= b <= 0x5A  // 'A'..'Z'
    ||| 0x61 <= b <= 0x7A  // 'a'..'z'
    ||| 0x30 <= b <= 0x39  // '0'..'9'
    ||| b == 0x2D  // '-'
    ||| b == 0x2E  // '.'
    ||| b == 0x5F  // '_'
    ||| b == 0x7E  // '~'
}

/// The upper-case hexadecimal digit for a value below sixteen.
pub open spec fn hex_digit_char(n: u8) -> char
    recommends
        n < 16,
{
    seq!['0', '1', '2', '3', '4', '5', '6', '7', '8', '9', 'A', 'B', 'C', 'D', 'E', 'F'][n as int]
}

/// How one byte is written in a percent-encoded string: unreserved bytes
/// stand for themselves, every other byte as `%` and two hex digits.
pub open spec fn encode_byte(b: u8) -> Seq<char> {
    if is_unreserved(b) {
        seq![b as char]
    } else {
        seq!['%', hex_digit_char(b / 16), hex_digit_char(b % 16)]
    }
}

/// The percent-encoding of a byte sequence.
pub open spec fn percent_encode_seq(bs: Seq<u8>) -> Seq<char>
    decreases bs.len(),
{
    if bs.len() == 0 {
        Seq::empty()
    } else {
        encode_byte(bs[0]) + percent_encode_seq(bs.drop_first())
    }
}

/// The percent-encoding of a text: its UTF-8 bytes, each encoded.
pub open spec fn percent_encoding(s: Seq<char>) -> Seq<char> {
    percent_encode_seq(encode_utf8(s))
}

proof fn lemma_percent_encode_seq_add(a: Seq<u8>, b: Seq<u8>)
    ensures
        percent_encode_seq(a + b) == percent_encode_seq(a) + percent_encode_seq(b),
    decreases a.len(),
{
    if a.len() == 0 {
        assert(a + b =~= b);
        assert(percent_encode_seq(a) =~= Seq::<char>::empty());
        assert(percent_encode_seq(a) + percent_encode_seq(b) =~= percent_encode_seq(b));
    } else {
        assert((a + b).len() > 0);
        assert((a + b)[0] == a[0]);
        assert((a + b).drop_first() =~= a.drop_first() + b);
        lemma_percent_encode_seq_add(a.drop_first(), b);
        assert(percent_encode_seq(a + b) == encode_byte(a[0]) + (percent_encode_seq(a.drop_first())
            + percent_encode_seq(b)));
        assert(encode_byte(a[0]) + (percent_encode_seq(a.drop_first()) + percent_encode_seq(b))
            =~= (encode_byte(a[0]) + percent_encode_seq(a.drop_first())) + percent_encode_seq(b));
        assert(percent_encode_seq(a) == encode_byte(a[0]) + percent_encode_seq(a.drop_first()));
    }
}

proof fn lemma_percent_encode_seq_push(bs: Seq<u8>, b: u8)
    ensures
        percent_encode_seq(bs.push(b)) == percent_encode_seq(bs) + encode_byte(b),
{
    assert(bs.push(b) =~= bs + seq![b]);
    lemma_percent_encode_seq_add(bs, seq![b]);
    assert(seq![b].drop_first() =~= Seq::<u8>::empty());
    assert(percent_encode_seq(seq![b].drop_first()) =~= Seq::<char>::empty());
    assert(percent_encode_seq(seq![b]) =~= encode_byte(b));
}

fn hex_digit(n: u8) -> (c: char)
    requires
        n < 16,
    ensures
        c == hex_digit_char(n),
{
    if n == 0 {
        '0'
    } else if n == 1 {
        '1'
    } else if n == 2 {
        '2'
    } else if n == 3 {
        '3'
    } else if n == 4 {
        '4'
    } else if n == 5 {
        '5'
    } else if n == 6 {
        '6'
    } else if n == 7 {
        '7'
    } else if n == 8 {
        '8'
    } else if n == 9 {
        '9'
    } else if n == 10 {
        'A'
    } else if n == 11 {
        'B'
    } else if n == 12 {
        'C'
    } else if n == 13 {
        'D'
    } else if n == 14 {
        'E'
    } else {
        'F'
    }
}

/// Relies on String::push: appends one character at the end of the string.
pub assume_specification[ String::push ](s: &mut String, c: char)
    ensures
        final(s)@ == old(s)@.push(c),
;

/// Percent-encodes a text for use as a URL query component.
pub fn percent_encode(s: &str) -> (r: String)
    ensures
        r@ == percent_encoding(s@),
{
    let bytes = s.as_bytes();
    let mut out = String::new();
    let mut i: usize = 0;
    while i < bytes.len()
        invariant
            i <= bytes@.len(),
            bytes@ == encode_utf8(s@),
            out@ == percent_encode_seq(bytes@.take(i as int)),
        decreases bytes@.len() - i,
    {
        let b = bytes[i];
        if (0x41 <= b && b <= 0x5A) || (0x61 <= b && b <= 0x7A) || (0x30 <= b && b <= 0x39) || b
            == 0x2D || b == 0x2E || b == 0x5F || b == 0x7E {
            out.push(b as char);
        } else {
            out.push('%');
            out.push(hex_digit(b / 16));
            out.push(hex_digit(b % 16));
        }
        proof {
            lemma_percent_encode_seq_push(bytes@.take(i as int), bytes@[i as int]);
            assert(bytes@.take(i as int + 1) =~= bytes@.take(i as int).push(bytes@[i as int]));
        }
        i = i + 1;
    }
    proof {
        assert(bytes@.take(bytes@.len() as int) =~= bytes@);
    }
    out
}

/// The URL of a web search for the query: a fixed search-engine prefix
/// followed by the percent-encoded query text.
pub open spec fn web_search_url(q: Seq<char>) -> Seq<char> {
    "https://google.com/search?q="@ + percent_encoding(q)
}

/// Holds when `r` is the result the web provider produces for query `q`.
pub open spec fn is_web_result(q: Seq<char>, r: SearchResult) -> bool {
    &&& r.icon == icons::SPIDER_WEB
    &&& r.text@ == q
    &&& r.action matches Some(SearchAction::OpenUrl(url)) && url@ == web_search_url(q)
}

/// The web provider: unconditionally sends exactly one result with a web
/// icon, the raw query as text, and an action that opens a web search for
/// the percent-encoded query.
pub fn search(query: &str, sink: &mut Vec<SearchResult>)
    ensures
        final(sink)@.len() == old(sink)@.len() + 1,
        final(sink)@ == old(sink)@.push(final(sink)@.last()),
        is_web_result(query@, final(sink)@.last()),
{
    let url = String::from_str("https://google.com/search?q=").concat(
        percent_encode(query).as_str(),
    );
    let result = SearchResult::default().icon(icons::SPIDER_WEB).text(
        String::from_str(query),
    ).open_with(url);
    sink.push(result);
}

} // verus!

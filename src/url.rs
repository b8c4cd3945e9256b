use vstd::prelude::*;
use vstd::utf8::encode_utf8;

verus! {

/// The address of the lookup service, up to the country name.
pub const LOOKUP_BASE: &'static str = "https://restcountries.com/v3.1/translation/";

/// The fixed field selection of every lookup, one field per attribute of a
/// country record.
pub const LOOKUP_FIELDS: &'static str = "?fields=name,capital,population,flag,region,subregion,timezones,latlng,capitalInfo,tld,languages,currencies,borders,landlocked,startOfWeek,continents,maps";

/// Bytes that stand for themselves in a URL path segment: ASCII letters,
/// digits and `-`, `.`, `_`, `~`.
pub open spec fn is_unreserved(b: u8) -> bool {
    (0x41 <= b && b <= 0x5a) || (0x61 <= b && b <= 0x7a) || (0x30 <= b && b <= 0x39) || b == 0x2d
        || b == 0x2e || b == 0x5f || b == 0x7e
}

/// The upper-case hexadecimal digit for `d < 16`.
pub open spec fn hex_char(d: u8) -> char {
    if d < 10 {
        (0x30 + d) as char
    } else {
        (0x41 + (d - 10)) as char
    }
}

/// How one byte is written in a URL path segment.
pub open spec fn encode_byte(b: u8) -> Seq<char> {
    if is_unreserved(b) {
        seq![b as char]
    } else {
        seq!['%', hex_char(b / 16), hex_char(b % 16)]
    }
}

/// Percent-encoding of a byte string.
pub open spec fn percent_encode(bytes: Seq<u8>) -> Seq<char>
    decreases bytes.len(),
{
    if bytes.len() == 0 {
        Seq::empty()
    } else {
        percent_encode(bytes.drop_last()) + encode_byte(bytes.last())
    }
}

/// The request address for a country name: the name is percent-encoded over
/// its UTF-8 bytes.
pub open spec fn lookup_url_spec(name: Seq<char>) -> Seq<char> {
    LOOKUP_BASE@ + percent_encode(encode_utf8(name)) + LOOKUP_FIELDS@
}

/// Relies on std's `String::push`, which appends one character.
#[verifier::external_body]
fn push_char(s: &mut String, c: char)
    ensures
        final(s)@ == old(s)@.push(c),
{
    s.push(c);
}

fn hex_digit(d: u8) -> (c: char)
    requires
        d < 16,
    ensures
        c == hex_char(d),
{
    if d < 10 {
        (0x30 + d) as char
    } else {
        (0x41 + (d - 10)) as char
    }
}

fn is_unreserved_byte(b: u8) -> (r: bool)
    ensures
        r == is_unreserved(b),
{
    (0x41 <= b && b <= 0x5a) || (0x61 <= b && b <= 0x7a) || (0x30 <= b && b <= 0x39) || b == 0x2d
        || b == 0x2e || b == 0x5f || b == 0x7e
}

/// Percent-encodes `name` for use as one URL path segment.
pub fn encode_path_segment(name: &str) -> (r: String)
    ensures
        r@ == percent_encode(encode_utf8(name@)),
{
    let bytes = name.as_bytes();
    let mut out = String::new();
    let mut i: usize = 0;
    while i < bytes.len()
        invariant
            i <= bytes@.len(),
            bytes@ == encode_utf8(name@),
            out@ == percent_encode(bytes@.take(i as int)),
        decreases bytes@.len() - i,
    {
        let b = bytes[i];
        let ghost before = out@;
        assert(bytes@.take(i + 1).drop_last() =~= bytes@.take(i as int));
        if is_unreserved_byte(b) {
            push_char(&mut out, b as char);
        } else {
            push_char(&mut out, '%');
            push_char(&mut out, hex_digit(b / 16));
            push_char(&mut out, hex_digit(b % 16));
        }
        assert(out@ =~= before + encode_byte(b));
        i = i + 1;
    }
    assert(bytes@.take(bytes@.len() as int) =~= bytes@);
    out
}

/// The request address for looking up `name`.
pub fn lookup_url(name: &str) -> (r: String)
    ensures
        r@ == lookup_url_spec(name@),
{
    let mut url = String::from_str(LOOKUP_BASE);
    let segment = encode_path_segment(name);
    url.append(segment.as_str());
    url.append(LOOKUP_FIELDS);
    url
}

} // verus!

use vstd::prelude::*;
use vstd::string::StringExecFns;

verus! {

broadcast use vstd::string::group_string_axioms;

/// The decimal digit character for `d`.
pub open spec fn spec_digit_char(d: int) -> char {
    if d == 0 {
        '0'
    } else if d == 1 {
        '1'
    } else if d == 2 {
        '2'
    } else if d == 3 {
        '3'
    } else if d == 4 {
        '4'
    } else if d == 5 {
        '5'
    } else if d == 6 {
        '6'
    } else if d == 7 {
        '7'
    } else if d == 8 {
        '8'
    } else {
        '9'
    }
}

/// The decimal rendering of `n`, most significant digit first.
pub open spec fn spec_decimal(n: int) -> Seq<char>
    decreases n,
{
    if n < 10 {
        seq![spec_digit_char(n)]
    } else {
        spec_decimal(n / 10) + seq![spec_digit_char(n % 10)]
    }
}

/// What `urlencoding::encode` returns for the characters `s`: every byte of
/// the UTF-8 encoding outside ASCII alphanumerics and `-`, `_`, `.`, `~`
/// percent-encoded. The result depends on the input characters alone.
pub uninterp spec fn url_encoded(s: Seq<char>) -> Seq<char>;

/// Relies on urlencoding::encode: percent-encodes every byte of the input
/// except ASCII alphanumerics and `-`, `_`, `.`, `~`; a pure function of the
/// input, and an empty input stays empty.
#[verifier::external_body]
fn url_encode(s: &str) -> (r: String)
    ensures
        r@ == url_encoded(s@),
        s@.len() == 0 ==> r@.len() == 0,
{
    urlencoding::encode(s).into_owned()
}

fn digit_str(d: u64) -> (r: &'static str)
    requires
        d < 10,
    ensures
        r@ == seq![spec_digit_char(d as int)],
{
    let r: &'static str = match d {
        0 => "0",
        1 => "1",
        2 => "2",
        3 => "3",
        4 => "4",
        5 => "5",
        6 => "6",
        7 => "7",
        8 => "8",
        _ => "9",
    };
    proof {
        reveal_strlit("0");
        reveal_strlit("1");
        reveal_strlit("2");
        reveal_strlit("3");
        reveal_strlit("4");
        reveal_strlit("5");
        reveal_strlit("6");
        reveal_strlit("7");
        reveal_strlit("8");
        reveal_strlit("9");
        assert(r@ =~= seq![spec_digit_char(d as int)]);
    }
    r
}

/// Renders `n` in decimal.
pub fn decimal_string(n: u64) -> (r: String)
    ensures
        r@ == spec_decimal(n as int),
    decreases n,
{
    if n < 10 {
        digit_str(n).to_string()
    } else {
        let prefix = decimal_string(n / 10);
        prefix.concat(digit_str(n % 10))
    }
}

/// The asset-description address registered for a freshly minted entry
/// token: a fixed base, the mint's key, and the entry name as a query,
/// percent-encoded.
pub open spec fn spec_metadata_uri(mint: u64, name: Seq<char>) -> Seq<char> {
    "https://nft.cardinal.so/metadata/"@ + spec_decimal(mint as int) + "?name="@ + url_encoded(
        name,
    )
}

/// Builds the asset-description address for the token `mint` backing the
/// entry called `name`.
pub fn metadata_uri(mint: u64, name: &str) -> (r: String)
    ensures
        r@ == spec_metadata_uri(mint, name@),
{
    let mut uri: String = "https://nft.cardinal.so/metadata/".to_string();
    let rendered_mint = decimal_string(mint);
    uri.append(rendered_mint.as_str());
    uri.append("?name=");
    let encoded_name = url_encode(name);
    uri.append(encoded_name.as_str());
    proof {
        assert(uri@ =~= spec_metadata_uri(mint, name@));
    }
    uri
}

} // verus!

//! Headers, statuses and lengths of the download request.

use vstd::prelude::*;

use crate::failure::{outcome, ErrorView, Failure, UpdateError};
use crate::text::{decimal, digit_char, law_decimal_digits};

verus! {

/// `http::HeaderMap`, a map from header names to the values of each.
#[verifier::external_type_specification]
#[verifier::external_body]
#[verifier::reject_recursive_types(T)]
pub struct ExHeaderMap<T>(http::HeaderMap<T>);

/// `http::HeaderValue`, the bytes of a header's value.
#[verifier::external_type_specification]
#[verifier::external_body]
pub struct ExHeaderValue(http::HeaderValue);

/// `http::header::MaxSizeReached`, the error of a map that cannot grow.
#[verifier::external_type_specification]
#[verifier::external_body]
pub struct ExMaxSizeReached(http::header::MaxSizeReached);

/// The values of each header in the map, by the header's lower-case name, in the
/// order in which they were added.
pub uninterp spec fn header_values(headers: http::HeaderMap<http::HeaderValue>) -> Map<
    Seq<char>,
    Seq<Seq<u8>>,
>;

/// A header name of lower-case letters and hyphens.
pub open spec fn plain_name(name: Seq<char>) -> bool {
    &&& 0 < name.len() <= 64
    &&& forall|i: int|
        0 <= i < name.len() ==> 'a' <= #[trigger] name[i] <= 'z' || name[i] == '-'
}

/// A header value of visible ASCII characters.
pub open spec fn plain_value(value: Seq<char>) -> bool {
    forall|i: int| 0 <= i < value.len() ==> ' ' <= #[trigger] value[i] <= '~'
}

/// The bytes of an ASCII text.
pub open spec fn ascii_bytes(text: Seq<char>) -> Seq<u8> {
    text.map_values(|c: char| c as u8)
}

/// `HeaderMap::contains_key`: the map has a value under the name.
#[verifier::external_body]
pub(crate) fn has_header(headers: &http::HeaderMap<http::HeaderValue>, name: &str) -> (res: bool)
    requires
        plain_name(name@),
    ensures
        res == header_values(*headers).contains_key(name@),
{
    headers.contains_key(name)
}

/// `HeaderMap::get`: the first value under the name, as bytes.
#[verifier::external_body]
pub(crate) fn first_header(headers: &http::HeaderMap<http::HeaderValue>, name: &str) -> (res:
    Option<Vec<u8>>)
    requires
        plain_name(name@),
    ensures
        match res {
            Some(value) => header_values(*headers).contains_key(name@) && header_values(
                *headers,
            )[name@].len() > 0 && value@ == header_values(*headers)[name@][0],
            None => !header_values(*headers).contains_key(name@),
        },
{
    headers.get(name).map(|value| value.as_bytes().to_vec())
}

/// `HeaderMap::try_insert`: the value replaces all values under the name, unless
/// the map cannot grow; then it stays as it is. A map of fewer than 6554 names can
/// always grow.
#[verifier::external_body]
pub(crate) fn insert_header(
    headers: &mut http::HeaderMap<http::HeaderValue>,
    name: &'static str,
    value: &'static str,
) -> (res: Result<(), http::header::MaxSizeReached>)
    requires
        plain_name(name@),
        plain_value(value@),
    ensures
        match res {
            Ok(_) => header_values(*final(headers)) == header_values(*old(headers)).insert(
                name@,
                seq![ascii_bytes(value@)],
            ),
            Err(_) => header_values(*final(headers)) == header_values(*old(headers))
                && header_values(*old(headers)).len() >= 6554,
        },
{
    let value = http::HeaderValue::from_static(value);
    headers.try_insert(http::HeaderName::from_static(name), value).map(|_| ())
}

/// The headers of a download request, with a default for the accepted type.
pub open spec fn with_accept(headers: Map<Seq<char>, Seq<Seq<u8>>>) -> Map<
    Seq<char>,
    Seq<Seq<u8>>,
> {
    if headers.contains_key("accept"@) {
        headers
    } else {
        headers.insert("accept"@, seq![ascii_bytes("application/octet-stream"@)])
    }
}

/// The headers of a download request: those of the update, with an `Accept` header
/// for arbitrary bytes where the update has none. A map too large for one more
/// name comes back as `None`.
pub fn download_headers(headers: http::HeaderMap<http::HeaderValue>) -> (res: Option<
    http::HeaderMap<http::HeaderValue>,
>)
    ensures
        match res {
            Some(sent) => header_values(sent) == with_accept(header_values(headers)),
            None => !header_values(headers).contains_key("accept"@) && header_values(headers).len()
                >= 6554,
        },
{
    proof {
        reveal_strlit("accept");
        reveal_strlit("application/octet-stream");
    }
    let mut sent = headers;
    if has_header(&sent, "accept") {
        return Some(sent);
    }
    match insert_header(&mut sent, "accept", "application/octet-stream") {
        Ok(_) => Some(sent),
        Err(_) => None,
    }
}

/// The text of a status code: the code and its reason phrase.
pub uninterp spec fn status_line(code: u16) -> Seq<char>;

/// `Display` of `http::StatusCode`, which holds the codes from 100 to 999.
#[verifier::external_body]
pub(crate) fn status_text(code: u16) -> (res: String)
    requires
        100 <= code <= 999,
    ensures
        res@ == status_line(code),
{
    http::StatusCode::from_u16(code).unwrap().to_string()
}

/// A status code of success.
pub open spec fn is_success(code: u16) -> bool {
    200 <= code < 300
}

/// The catalog may be read only from a response of success.
pub open spec fn catalog_granted(code: u16) -> Result<(), ErrorView> {
    if is_success(code) {
        Ok(())
    } else {
        Err(Failure::CatalogStatus { status: status_line(code) })
    }
}

/// The catalog may be read only from a response of success.
pub fn check_catalog_status(code: u16) -> (res: Result<(), UpdateError>)
    requires
        100 <= code <= 999,
    ensures
        outcome(res) == catalog_granted(code),
{
    if 200 <= code && code < 300 {
        Ok(())
    } else {
        Err(Failure::CatalogStatus { status: status_text(code) })
    }
}

/// A package may be read only from a response of success.
pub open spec fn download_granted(code: u16) -> Result<(), ErrorView> {
    if is_success(code) {
        Ok(())
    } else {
        Err(Failure::DownloadStatus { status: status_line(code) })
    }
}

/// A package may be read only from a response of success.
pub fn check_download_status(code: u16) -> (res: Result<(), UpdateError>)
    requires
        100 <= code <= 999,
    ensures
        outcome(res) == download_granted(code),
{
    if 200 <= code && code < 300 {
        Ok(())
    } else {
        Err(Failure::DownloadStatus { status: status_text(code) })
    }
}

/// An ASCII decimal digit.
pub open spec fn is_digit(b: u8) -> bool {
    48 <= b <= 57
}

/// One or more decimal digits.
pub open spec fn is_numeral(s: Seq<u8>) -> bool {
    s.len() > 0 && forall|i: int| 0 <= i < s.len() ==> is_digit(#[trigger] s[i])
}

/// The number that decimal digits stand for.
pub open spec fn numeral_value(s: Seq<u8>) -> int
    decreases s.len(),
{
    if s.len() == 0 {
        0
    } else {
        numeral_value(s.drop_last()) * 10 + (s.last() - 48)
    }
}

/// The text without a leading plus sign.
pub open spec fn unsigned(s: Seq<u8>) -> Seq<u8> {
    if s.len() > 0 && s[0] == 43 {
        s.drop_first()
    } else {
        s
    }
}

/// The length that a header value tells: an optional plus sign and decimal digits
/// of a number that fits.
pub open spec fn told_length(value: Seq<u8>) -> Option<u64> {
    if is_numeral(unsigned(value)) && numeral_value(unsigned(value)) <= u64::MAX {
        Some(numeral_value(unsigned(value)) as u64)
    } else {
        None
    }
}

proof fn lemma_numeral_is_not_negative(s: Seq<u8>)
    requires
        forall|i: int| 0 <= i < s.len() ==> is_digit(#[trigger] s[i]),
    ensures
        0 <= numeral_value(s),
    decreases s.len(),
{
    if s.len() > 0 {
        assert forall|i: int| 0 <= i < s.drop_last().len() implies is_digit(
            #[trigger] s.drop_last()[i],
        ) by {
            assert(s.drop_last()[i] == s[i]);
        }
        lemma_numeral_is_not_negative(s.drop_last());
        assert(is_digit(s[s.len() - 1]));
    }
}

/// The digits that follow never make a number smaller.
#[verifier::spinoff_prover]
proof fn lemma_numeral_grows(s: Seq<u8>, i: int)
    requires
        0 <= i <= s.len(),
        is_numeral(s),
    ensures
        0 <= numeral_value(s.take(i)) <= numeral_value(s),
    decreases s.len() - i,
{
    assert forall|k: int| 0 <= k < s.take(i).len() implies is_digit(#[trigger] s.take(i)[k]) by {
        assert(s.take(i)[k] == s[k]);
    }
    lemma_numeral_is_not_negative(s.take(i));
    if i == s.len() {
        assert(s.take(i) =~= s);
    } else {
        lemma_numeral_grows(s, i + 1);
        assert(s.take(i + 1).drop_last() =~= s.take(i));
        assert(s.take(i + 1).last() == s[i]);
        assert(is_digit(s[i]));
        assert(numeral_value(s.take(i + 1)) == numeral_value(s.take(i)) * 10 + (s[i] - 48));
    }
}

/// The length that a `Content-Length` value tells.
pub fn parse_content_length(value: &[u8]) -> (res: Option<u64>)
    ensures
        res == told_length(value@),
{
    let ghost body = unsigned(value@);
    let start: usize = if value.len() > 0 && value[0] == 43 {
        1
    } else {
        0
    };
    assert(body =~= value@.skip(start as int));
    if start == value.len() {
        return None;
    }
    let mut total: u64 = 0;
    let mut i: usize = start;
    assert(body.take(0).len() == 0);
    while i < value.len()
        invariant
            start <= i <= value.len(),
            start < value.len(),
            body == unsigned(value@),
            body == value@.skip(start as int),
            forall|k: int| 0 <= k < i - start ==> is_digit(#[trigger] body[k]),
            total == numeral_value(body.take(i - start)),
        decreases value.len() - i,
    {
        let b: u8 = value[i];
        let ghost done: int = i - start;
        assert(b == body[done]);
        if b < 48 || b > 57 {
            assert(!is_digit(body[done]));
            return None;
        }
        assert(body.take(done + 1).drop_last() =~= body.take(done));
        assert(numeral_value(body.take(done + 1)) == total * 10 + (b - 48));
        proof {
            if is_numeral(body) {
                lemma_numeral_grows(body, done + 1);
            }
        }
        let digit: u64 = (b - 48) as u64;
        total = match total.checked_mul(10) {
            Some(shifted) => match shifted.checked_add(digit) {
                Some(sum) => sum,
                None => return None,
            },
            None => return None,
        };
        i = i + 1;
    }
    assert(body.take(i - start) =~= body);
    Some(total)
}

/// The size that the response to a size request tells.
pub open spec fn update_size(code: u16, headers: Map<Seq<char>, Seq<Seq<u8>>>) -> Result<
    Option<u64>,
    ErrorView,
> {
    if !is_success(code) {
        Err(Failure::DownloadStatus { status: status_line(code) })
    } else if headers.contains_key("content-length"@) {
        Ok(told_length(headers["content-length"@][0]))
    } else {
        Ok(None)
    }
}

/// The size of an update's package, from the response to a `HEAD` request: the
/// first `Content-Length`, where it tells a length.
pub fn get_update_size(code: u16, headers: &http::HeaderMap<http::HeaderValue>) -> (res: Result<
    Option<u64>,
    UpdateError,
>)
    requires
        100 <= code <= 999,
    ensures
        match (res, update_size(code, header_values(*headers))) {
            (Ok(size), Ok(told)) => size == told,
            (Err(error), Err(failure)) => error@ == failure,
            _ => false,
        },
{
    match check_download_status(code) {
        Ok(_) => {},
        Err(error) => return Err(error),
    }
    proof {
        reveal_strlit("content-length");
    }
    match first_header(headers, "content-length") {
        Some(value) => Ok(parse_content_length(value.as_slice())),
        None => Ok(None),
    }
}

/// A download request always carries an `Accept` header, keeps every header of
/// the update, and gains nothing more from a second pass.
pub proof fn law_accept_header(headers: Map<Seq<char>, Seq<Seq<u8>>>)
    ensures
        with_accept(headers).contains_key("accept"@),
        forall|name: Seq<char>|
            headers.contains_key(name) ==> with_accept(headers).contains_key(name) && with_accept(
                headers,
            )[name] == #[trigger] headers[name],
        forall|name: Seq<char>|
            #[trigger] with_accept(headers).contains_key(name) && name != "accept"@
                ==> headers.contains_key(name),
        with_accept(with_accept(headers)) == with_accept(headers),
{
}

/// The length that is told by a number's decimal numeral is that number, with or
/// without a plus sign before it.
pub proof fn law_length_round_trip(n: u64)
    ensures
        told_length(ascii_bytes(decimal(n as nat))) == Some(n),
        told_length(seq![43u8] + ascii_bytes(decimal(n as nat))) == Some(n),
{
    let numeral = ascii_bytes(decimal(n as nat));
    lemma_decimal_numeral(n as nat);
    assert(is_digit(numeral[0]));
    assert(unsigned(numeral) =~= numeral);
    assert(unsigned(seq![43u8] + numeral) =~= numeral);
}

proof fn lemma_decimal_numeral(n: nat)
    ensures
        is_numeral(ascii_bytes(decimal(n))),
        numeral_value(ascii_bytes(decimal(n))) == n,
    decreases n,
{
    let numeral = ascii_bytes(decimal(n));
    if n < 10 {
        assert(numeral =~= seq![(48 + n) as u8]);
        assert(numeral.drop_last().len() == 0);
        assert(numeral_value(numeral.drop_last()) == 0);
    } else {
        lemma_decimal_numeral(n / 10);
        assert(numeral.drop_last() =~= ascii_bytes(decimal(n / 10)));
        assert(numeral.last() == digit_char(n % 10) as u8);
        assert forall|i: int| 0 <= i < numeral.len() implies is_digit(#[trigger] numeral[i]) by {
            if i < numeral.len() - 1 {
                assert(numeral[i] == ascii_bytes(decimal(n / 10))[i]);
            }
        }
    }
}

/// A response is a success exactly where its status code lies in the two hundreds:
/// the catalog and a package are then read, and else the refusal tells the status.
pub proof fn law_only_success_is_read(code: u16)
    ensures
        code / 100 == 2 ==> catalog_granted(code) is Ok && download_granted(code) is Ok,
        code / 100 != 2 ==> catalog_granted(code) == Err::<(), _>(
            Failure::CatalogStatus { status: status_line(code) },
        ),
        code / 100 != 2 ==> download_granted(code) == Err::<(), _>(
            Failure::DownloadStatus { status: status_line(code) },
        ),
{
}

/// Where the update has no `Accept` header, the download request has exactly one
/// value under it, and that value spells arbitrary bytes.
pub proof fn law_default_accept(headers: Map<Seq<char>, Seq<Seq<u8>>>)
    requires
        !headers.contains_key("accept"@),
    ensures
        ({
            let values = with_accept(headers)["accept"@];
            &&& values.len() == 1
            &&& spells(values[0], "application/octet-stream"@)
        }),
{
    reveal_strlit("application/octet-stream");
}

/// The bytes are the characters of the text, one for one.
pub open spec fn spells(bytes: Seq<u8>, text: Seq<char>) -> bool {
    &&& bytes.len() == text.len()
    &&& forall|i: int| 0 <= i < bytes.len() ==> #[trigger] bytes[i] as int == text[i] as int
}

/// A successful response whose first `Content-Length` spells the decimal numeral of
/// a number that fits tells that number as the size, whatever other values and
/// headers it has.
pub proof fn law_size_round_trip(code: u16, headers: Map<Seq<char>, Seq<Seq<u8>>>, n: u64)
    requires
        code / 100 == 2,
        headers.contains_key("content-length"@),
        headers["content-length"@].len() > 0,
        spells(headers["content-length"@][0], decimal(n as nat)),
    ensures
        update_size(code, headers) == Ok::<_, ErrorView>(Some(n)),
{
    law_decimal_digits(n as nat);
    assert(headers["content-length"@][0] =~= ascii_bytes(decimal(n as nat)));
    law_length_round_trip(n);
}

/// A response of no success tells its status in place of a size. A successful one
/// without a `Content-Length` tells no size, and with one just what its first value
/// tells.
pub proof fn law_size_comes_from_the_first_length(
    code: u16,
    headers: Map<Seq<char>, Seq<Seq<u8>>>,
)
    ensures
        code / 100 != 2 ==> update_size(code, headers) == Err::<Option<u64>, _>(
            Failure::DownloadStatus { status: status_line(code) },
        ),
        code / 100 == 2 && !headers.contains_key("content-length"@) ==> update_size(code, headers)
            == Ok::<Option<u64>, ErrorView>(None),
        code / 100 == 2 && headers.contains_key("content-length"@) ==> update_size(code, headers)
            == Ok::<_, ErrorView>(told_length(headers["content-length"@][0])),
{
}

/// One digit tells its own value. A digit more tells ten times the number before and
/// the digit, where that fits, and else nothing; no further digit makes a number
/// that does not fit fit again.
pub proof fn law_length_digit_by_digit(value: Seq<u8>, d: u8)
    requires
        d < 10,
    ensures
        told_length(seq![(48 + d) as u8]) == Some(d as u64),
        told_length(value) matches Some(n) ==> told_length(value.push((48 + d) as u8)) == (if 10 * n
            + d <= u64::MAX {
            Some((10 * n + d) as u64)
        } else {
            None
        }),
        told_length(value) is None && value.len() > 0 && (forall|i: int|
            0 <= i < value.len() ==> 48 <= #[trigger] value[i] <= 57) ==> told_length(
            value.push((48 + d) as u8),
        ) is None,
{
    let digit = (48 + d) as u8;
    let single = seq![digit];
    assert(unsigned(single) =~= single);
    assert(single.drop_last().len() == 0);
    assert(numeral_value(single.drop_last()) == 0);
    assert(is_digit(single[0]));
    assert(numeral_value(single) == d);

    let more = value.push(digit);
    let body = unsigned(value);
    if is_numeral(body) {
        assert(value.len() > 0);
        assert(unsigned(more) =~= body.push(digit));
        assert(body.push(digit).drop_last() =~= body);
        assert(numeral_value(unsigned(more)) == numeral_value(body) * 10 + d);
        lemma_numeral_is_not_negative(body);
        assert forall|i: int| 0 <= i < body.push(digit).len() implies is_digit(
            #[trigger] body.push(digit)[i],
        ) by {
            if i < body.len() {
                assert(body.push(digit)[i] == body[i]);
            }
        }
    } else if value.len() > 0 && (forall|i: int|
        0 <= i < value.len() ==> 48 <= #[trigger] value[i] <= 57) {
        assert(value[0] != 43);
        assert(body == value);
        assert forall|i: int| 0 <= i < body.len() implies is_digit(#[trigger] body[i]) by {
            assert(48 <= value[i] <= 57);
        }
    }
}

/// A value tells a length only where it is digits, at least one of them, with at most
/// a plus sign before them; and that sign makes no difference.
pub proof fn law_length_is_digits(value: Seq<u8>)
    ensures
        told_length(value) is Some ==> value.len() > 0 && 48 <= value.last() <= 57,
        told_length(value) is Some ==> forall|i: int|
            0 <= i < value.len() ==> 48 <= #[trigger] value[i] <= 57 || (i == 0 && value[i] == 43),
        value.len() > 0 && value[0] != 43 ==> told_length(seq![43u8] + value) == told_length(value),
{
    let body = unsigned(value);
    if told_length(value) is Some {
        assert(is_digit(body[body.len() - 1]));
        assert forall|i: int| 0 <= i < value.len() implies 48 <= #[trigger] value[i] <= 57 || (i
            == 0 && value[i] == 43) by {
            if value[0] == 43 {
                if i > 0 {
                    assert(is_digit(body[i - 1]));
                }
            } else {
                assert(is_digit(body[i]));
            }
        }
    }
    assert(unsigned(seq![43u8] + value) =~= value);
}

} // verus!

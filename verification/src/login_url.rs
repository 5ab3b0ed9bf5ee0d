//! The address of the login page, with the client's callback in its query.
use reqwest::Url;
use vstd::prelude::*;
use vstd::utf8::{decode_utf8, encode_utf8, encode_utf8_decode_utf8, is_ascii_chars_encode_utf8};

use crate::error::{result_view, AppError, AppErrorView};
use crate::text::{
    join, law_trimming_ignores_trailing_slashes, law_trimming_takes_only_slashes, slashes,
    trim_end_slashes, trimmed,
};

verus! {

/// Whether a byte stands for itself in a form-encoded text: `*`, `-`, `.`, `_`, a
/// digit or an ASCII letter.
pub open spec fn is_unreserved(b: u8) -> bool {
    ||| b == 0x2a
    ||| b == 0x2d
    ||| b == 0x2e
    ||| b == 0x5f
    ||| 0x30 <= b <= 0x39
    ||| 0x41 <= b <= 0x5a
    ||| 0x61 <= b <= 0x7a
}

/// The capital hexadecimal digit for `n`, which is below sixteen.
pub open spec fn hex_digit(n: u8) -> char {
    if n < 10 {
        (0x30 + n) as u8 as char
    } else {
        (0x37 + n) as u8 as char
    }
}

/// One byte, form-encoded.
pub open spec fn form_byte(b: u8) -> Seq<char> {
    if is_unreserved(b) {
        seq![b as char]
    } else if b == 0x20 {
        seq!['+']
    } else {
        seq!['%', hex_digit(b / 16), hex_digit(b % 16)]
    }
}

/// Bytes in the `application/x-www-form-urlencoded` syntax.
pub open spec fn form_bytes(bytes: Seq<u8>) -> Seq<char>
    decreases bytes.len(),
{
    if bytes.len() == 0 {
        seq![]
    } else {
        form_byte(bytes[0]) + form_bytes(bytes.skip(1))
    }
}

/// A text in the `application/x-www-form-urlencoded` syntax.
pub open spec fn form_encoded(s: Seq<char>) -> Seq<char> {
    form_bytes(encode_utf8(s))
}

/// A name and its value as a pair of a query.
pub open spec fn query_pair(name: Seq<char>, value: Seq<char>) -> Seq<char> {
    form_encoded(name) + seq!['='] + form_encoded(value)
}

/// Where the fragment of a URL starts; the length of the URL where it has none.
pub open spec fn fragment_start(url: Seq<char>) -> int {
    if url.contains('#') {
        url.index_of_first('#')->0
    } else {
        url.len() as int
    }
}

/// What stands between a URL without a fragment and a pair added to its query.
pub open spec fn query_separator(url: Seq<char>) -> Seq<char> {
    if !url.contains('?') {
        seq!['?']
    } else if url.index_of_first('?')->0 == url.len() - 1 {
        seq![]
    } else {
        seq!['&']
    }
}

/// A URL with one more pair at the end of its query.
pub open spec fn with_query_pair(url: Seq<char>, name: Seq<char>, value: Seq<char>) -> Seq<char> {
    let head = url.take(fragment_start(url));
    let fragment = url.skip(fragment_start(url));
    head + query_separator(head) + query_pair(name, value) + fragment
}

/// Whether the positions that adding a pair to the query of a URL sets can be held in 32
/// bits: where the query starts, if the pair starts it, and where the fragment starts, if
/// there is one.
pub open spec fn url_fits(url: Seq<char>, name: Seq<char>, value: Seq<char>) -> bool {
    let head = url.take(fragment_start(url));
    &&& !head.contains('?') ==> encode_utf8(head).len() <= u32::MAX
    &&& url.contains('#') ==> encode_utf8(head).len() + query_separator(head).len() + query_pair(
        name,
        value,
    ).len() <= u32::MAX
}

/// What parsing a text as an absolute URL gives: the URL in its normal form, or why
/// the text is not one.
pub uninterp spec fn parsed_url(text: Seq<char>) -> Result<Seq<char>, Seq<char>>;

/// `reqwest::Url::parse`, with the URL or the error as text.
#[verifier::external_body]
fn parse_url(text: &str) -> (r: Result<String, String>)
    ensures
        result_view(r) == parsed_url(text@),
{
    match Url::parse(text) {
        Ok(url) => Ok(url.to_string()),
        Err(error) => Err(error.to_string()),
    }
}

/// `reqwest::Url::query_pairs_mut` and `append_pair` on the URL that a text parses to.
/// The pair goes behind the query the URL has, or starts one, and in front of the
/// fragment; name and value are form-encoded. The crate keeps positions in a URL in 32
/// bits, and panics where one does not fit.
#[verifier::external_body]
fn append_query_pair(text: &str, name: &str, value: &str) -> (r: Result<String, String>)
    requires
        parsed_url(text@) matches Ok(url) ==> url_fits(url, name@, value@),
    ensures
        result_view(r) == (match parsed_url(text@) {
            Ok(url) => Ok(with_query_pair(url, name@, value@)),
            Err(error) => Err(error),
        }),
{
    let mut url = Url::parse(text).map_err(|error| error.to_string())?;
    url.query_pairs_mut().append_pair(name, value);
    Ok(url.to_string())
}

/// The query of a request for the login page's address.
#[derive(Debug, PartialEq, Eq)]
pub struct LoginUrlQuery {
    /// Where the browser is to be sent with the token.
    pub callback_url: String,
}

/// The login page of the authentication service at `next_auth_url`.
pub open spec fn login_page(next_auth_url: Seq<char>) -> Seq<char> {
    trimmed(next_auth_url) + "/auth/login"@
}

/// The answer to a request for the login page's address, given what became of the
/// address.
pub open spec fn login_url_reply(address: Result<Seq<char>, Seq<char>>) -> Result<
    Seq<char>,
    AppErrorView,
> {
    match address {
        Ok(url) => Ok(url),
        Err(error) => Err(
            AppErrorView::Internal(
                "Failed to construct login URL from NEXT_AUTH_URL: "@ + error,
            ),
        ),
    }
}

/// The answer to a request for the login page's address, given what the login page
/// parses to.
pub open spec fn login_url_for(page: Result<Seq<char>, Seq<char>>, callback_url: Seq<char>) -> Result<
    Seq<char>,
    AppErrorView,
> {
    login_url_reply(
        match page {
            Ok(url) => Ok(with_query_pair(url, "callback_url"@, callback_url)),
            Err(error) => Err(error),
        },
    )
}

/// The answer where no authentication service is configured.
pub open spec fn next_auth_missing() -> AppErrorView {
    AppErrorView::BadRequest("Next auth is not configured"@)
}

/// Answers with the address, or reports why it could not be built.
pub fn reply_with_login_url(address: Result<String, String>) -> (r: Result<String, AppError>)
    ensures
        result_view(r) == login_url_reply(result_view(address)),
        match address {
            Ok(url) => r matches Ok(replied) && replied@ == url@,
            Err(error) => r matches Err(AppError::Internal(msg)) && msg@
                == "Failed to construct login URL from NEXT_AUTH_URL: "@ + error@,
        },
{
    match address {
        Ok(url) => Ok(url),
        Err(error) => Err(
            AppError::Internal(
                join("Failed to construct login URL from NEXT_AUTH_URL: ", error.as_str()),
            ),
        ),
    }
}

/// The address of the authentication service's login page for browser-based
/// authentication. The positions in it must fit the 32 bits that the URL library has for
/// them; [`checked_login_url`] tests that.
pub fn login_url(next_auth_url: Option<&str>, query: &LoginUrlQuery) -> (r: Result<
    String,
    AppError,
>)
    requires
        next_auth_url matches Some(base) ==> (parsed_url(login_page(base@)) matches Ok(url)
            ==> url_fits(url, "callback_url"@, query.callback_url@)),
    ensures
        result_view(r) == (match next_auth_url {
            Some(base) => login_url_for(parsed_url(login_page(base@)), query.callback_url@),
            None => Err(next_auth_missing()),
        }),
        next_auth_url is None ==> (r matches Err(AppError::BadRequest(msg)) && msg@
            == "Next auth is not configured"@),
        next_auth_url matches Some(base) ==> (parsed_url(
            trimmed(base@) + "/auth/login"@,
        ) matches Ok(url) ==> (r matches Ok(address) && address@ == with_query_pair(
            url,
            "callback_url"@,
            query.callback_url@,
        ))),
        next_auth_url matches Some(base) ==> (parsed_url(
            trimmed(base@) + "/auth/login"@,
        ) matches Err(error) ==> (r matches Err(AppError::Internal(msg)) && msg@
            == "Failed to construct login URL from NEXT_AUTH_URL: "@ + error)),
{
    match next_auth_url {
        Some(base) => {
            let page = join(trim_end_slashes(base), "/auth/login");
            reply_with_login_url(
                append_query_pair(page.as_str(), "callback_url", query.callback_url.as_str()),
            )
        },
        None => Err(AppError::BadRequest("Next auth is not configured".to_owned())),
    }
}

/// How many characters a text has once it is form-encoded.
fn form_encoded_len(s: &str) -> (r: u128)
    ensures
        r == form_encoded(s@).len(),
        r <= 3 * usize::MAX,
{
    let bytes = s.as_bytes();
    let mut i: usize = bytes.len();
    let mut n: u128 = 0;
    assert(bytes@.skip(i as int) == Seq::<u8>::empty());
    while i > 0
        invariant
            i <= bytes@.len(),
            bytes@.len() <= usize::MAX,
            n == form_bytes(bytes@.skip(i as int)).len(),
            n <= 3 * (bytes@.len() - i),
        decreases i,
    {
        i = i - 1;
        assert(bytes@.skip(i as int)[0] == bytes@[i as int]);
        assert(bytes@.skip(i as int).skip(1) == bytes@.skip(i + 1));
        let b: u8 = bytes[i];
        let stays = b == 0x2a || b == 0x2d || b == 0x2e || b == 0x5f || b == 0x20 || (0x30 <= b
            && b <= 0x39) || (0x41 <= b && b <= 0x5a) || (0x61 <= b && b <= 0x7a);
        n = n + if stays {
            1
        } else {
            3
        };
    }
    assert(bytes@.skip(0) == bytes@);
    n
}

/// Where a character stands first in a text.
fn find_char(s: &str, c: char) -> (r: Option<usize>)
    ensures
        r is Some <==> s@.contains(c),
        r matches Some(i) ==> i < s@.len() && s@.index_of_first(c) == Some(i as int),
{
    let len = s.unicode_len();
    let mut i: usize = 0;
    for x in it: s.chars()
        invariant
            it.seq() == s@,
            i == it.index(),
            len == s@.len(),
            forall|j: int| 0 <= j < i ==> s@[j] != c,
    {
        if x == c {
            proof {
                s@.index_of_first_ensures(c);
            }
            return Some(i);
        }
        i = i + 1;
    }
    None
}

/// Whether a pair can be added to the query of a URL within the 32 bits that the URL
/// library has for a position.
fn pair_fits(url: &str, name: &str, value: &str) -> (r: bool)
    ensures
        r == url_fits(url@, name@, value@),
{
    let limit: u128 = u32::MAX as u128;
    let fragment = find_char(url, '#');
    let cut: usize = match fragment {
        Some(i) => i,
        None => url.unicode_len(),
    };
    let head = url.substring_char(0, cut);
    assert(head@ == url@.take(fragment_start(url@)));
    let size: u128 = head.as_bytes().len() as u128;
    let separator: u128 = match find_char(head, '?') {
        Some(i) => if i + 1 == cut {
            0
        } else {
            1
        },
        None => {
            if size > limit {
                return false;
            }
            1
        },
    };
    if fragment.is_none() {
        return true;
    }
    size + separator + form_encoded_len(name) + 1 + form_encoded_len(value) <= limit
}

/// [`login_url`] where the positions in the address fit the 32 bits that the URL library
/// has for them, and `None` where they do not.
pub fn checked_login_url(next_auth_url: Option<&str>, query: &LoginUrlQuery) -> (r: Option<
    Result<String, AppError>,
>)
    ensures
        r is None <==> (next_auth_url matches Some(base) && parsed_url(login_page(base@)) matches Ok(
            url,
        ) && !url_fits(url, "callback_url"@, query.callback_url@)),
        r matches Some(reply) ==> result_view(reply) == (match next_auth_url {
            Some(base) => login_url_for(parsed_url(login_page(base@)), query.callback_url@),
            None => Err(next_auth_missing()),
        }),
        next_auth_url is None ==> (r matches Some(Err(AppError::BadRequest(msg))) && msg@
            == "Next auth is not configured"@),
        next_auth_url matches Some(base) ==> (parsed_url(
            trimmed(base@) + "/auth/login"@,
        ) matches Ok(url) ==> (r matches Some(reply) ==> (reply matches Ok(address) && address@
            == with_query_pair(url, "callback_url"@, query.callback_url@)))),
        next_auth_url matches Some(base) ==> (parsed_url(
            trimmed(base@) + "/auth/login"@,
        ) matches Err(error) ==> (r matches Some(Err(AppError::Internal(msg))) && msg@
            == "Failed to construct login URL from NEXT_AUTH_URL: "@ + error)),
{
    match next_auth_url {
        Some(base) => {
            let page = join(trim_end_slashes(base), "/auth/login");
            match parse_url(page.as_str()) {
                Ok(url) => {
                    if !pair_fits(url.as_str(), "callback_url", query.callback_url.as_str()) {
                        return None;
                    }
                },
                Err(_) => {},
            }
        },
        None => {},
    }
    Some(login_url(next_auth_url, query))
}

/// The number a capital hexadecimal digit stands for.
pub open spec fn hex_value(c: char) -> u8 {
    if c <= '9' {
        (c as u8 - 0x30) as u8
    } else {
        (c as u8 - 0x37) as u8
    }
}

/// The bytes that a text in the `application/x-www-form-urlencoded` syntax stands for.
pub open spec fn form_decoded_bytes(s: Seq<char>) -> Seq<u8>
    decreases s.len(),
{
    if s.len() == 0 {
        seq![]
    } else if s[0] == '%' && s.len() >= 3 {
        seq![(16 * hex_value(s[1]) + hex_value(s[2])) as u8] + form_decoded_bytes(s.skip(3))
    } else if s[0] == '+' {
        seq![0x20u8] + form_decoded_bytes(s.skip(1))
    } else {
        seq![s[0] as u8] + form_decoded_bytes(s.skip(1))
    }
}

/// The text that a text in the `application/x-www-form-urlencoded` syntax stands for.
pub open spec fn form_decoded(s: Seq<char>) -> Seq<char> {
    decode_utf8(form_decoded_bytes(s))
}

proof fn lemma_form_bytes_read_back(bytes: Seq<u8>)
    ensures
        form_decoded_bytes(form_bytes(bytes)) == bytes,
    decreases bytes.len(),
{
    if bytes.len() > 0 {
        let b = bytes[0];
        let rest = form_bytes(bytes.skip(1));
        let all = form_bytes(bytes);
        lemma_form_bytes_read_back(bytes.skip(1));
        assert(all.skip(form_byte(b).len() as int) == rest);
        assert(all[0] == form_byte(b)[0]);
        if !is_unreserved(b) && b != 0x20 {
            assert(all[1] == hex_digit(b / 16) && all[2] == hex_digit(b % 16));
            assert(hex_value(hex_digit(b / 16)) == b / 16);
            assert(hex_value(hex_digit(b % 16)) == b % 16);
        }
        assert(seq![b] + bytes.skip(1) == bytes);
    }
}

/// Decoding a form-encoded text gives the text back.
pub proof fn law_form_encoding_reads_back(s: Seq<char>)
    ensures
        form_decoded(form_encoded(s)) == s,
{
    lemma_form_bytes_read_back(encode_utf8(s));
    encode_utf8_decode_utf8(s);
}

proof fn lemma_form_bytes_have_no_delimiter(bytes: Seq<u8>, i: int)
    requires
        0 <= i < form_bytes(bytes).len(),
    ensures
        form_bytes(bytes)[i] != '&',
        form_bytes(bytes)[i] != '=',
        form_bytes(bytes)[i] != '#',
        form_bytes(bytes)[i] != '?',
    decreases bytes.len(),
{
    let first = form_byte(bytes[0]).len();
    if i >= first {
        lemma_form_bytes_have_no_delimiter(bytes.skip(1), i - first);
    }
}

/// A form-encoded text holds no character that ends or splits a pair of a query.
pub proof fn law_form_encoding_has_no_delimiter(s: Seq<char>)
    ensures
        !form_encoded(s).contains('&'),
        !form_encoded(s).contains('='),
        !form_encoded(s).contains('#'),
        !form_encoded(s).contains('?'),
{
    assert forall|i: int| 0 <= i < form_encoded(s).len() implies {
        &&& form_encoded(s)[i] != '&'
        &&& form_encoded(s)[i] != '='
        &&& form_encoded(s)[i] != '#'
        &&& form_encoded(s)[i] != '?'
    } by {
        lemma_form_bytes_have_no_delimiter(encode_utf8(s), i);
    }
}

proof fn lemma_unreserved_bytes_stay(bytes: Seq<u8>)
    requires
        forall|i: int| 0 <= i < bytes.len() ==> is_unreserved(#[trigger] bytes[i]),
    ensures
        form_bytes(bytes) == bytes.map_values(|b: u8| b as char),
    decreases bytes.len(),
{
    if bytes.len() > 0 {
        assert forall|i: int| 0 <= i < bytes.skip(1).len() implies is_unreserved(
            #[trigger] bytes.skip(1)[i],
        ) by {
            assert(bytes.skip(1)[i] == bytes[i + 1]);
        }
        lemma_unreserved_bytes_stay(bytes.skip(1));
    }
}

proof fn lemma_callback_name_stays()
    ensures
        form_encoded("callback_url"@) == "callback_url"@,
{
    reveal_strlit("callback_url");
    is_ascii_chars_encode_utf8("callback_url"@);
    let bytes = encode_utf8("callback_url"@);
    assert forall|i: int| 0 <= i < bytes.len() implies is_unreserved(#[trigger] bytes[i]) by {
        assert(bytes[i] == "callback_url"@[i] as u8);
    }
    lemma_unreserved_bytes_stay(bytes);
    assert(bytes.map_values(|b: u8| b as char) == "callback_url"@);
}

/// The address of a login page that has no query and no fragment is the page followed
/// by `?callback_url=` and the form-encoded callback, and decoding what stands behind
/// the equals sign gives the callback back.
pub proof fn law_login_url_carries_the_callback(page: Seq<char>, callback_url: Seq<char>)
    requires
        !page.contains('?'),
        !page.contains('#'),
    ensures
        login_url_for(Ok(page), callback_url) == Ok::<Seq<char>, AppErrorView>(
            page + "?callback_url="@ + form_encoded(callback_url),
        ),
        form_decoded(
            (page + "?callback_url="@ + form_encoded(callback_url)).skip(
                (page + "?callback_url="@).len() as int,
            ),
        ) == callback_url,
{
    lemma_callback_name_stays();
    law_form_encoding_reads_back(callback_url);
    reveal_strlit("?callback_url=");
    reveal_strlit("callback_url");
    assert(page.take(page.len() as int) == page);
    assert(page.skip(page.len() as int) == Seq::<char>::empty());
    assert(seq!['?'] + "callback_url"@ + seq!['='] == "?callback_url="@);
    assert(with_query_pair(page, "callback_url"@, callback_url) == page + "?callback_url="@
        + form_encoded(callback_url));
    assert((page + "?callback_url="@ + form_encoded(callback_url)).skip(
        (page + "?callback_url="@).len() as int,
    ) == form_encoded(callback_url));
}

/// Two callbacks never share an address.
pub proof fn law_login_url_tells_callbacks_apart(page: Seq<char>, a: Seq<char>, b: Seq<char>)
    requires
        with_query_pair(page, "callback_url"@, a) == with_query_pair(page, "callback_url"@, b),
    ensures
        a == b,
{
    let head = page.take(fragment_start(page));
    let fragment = page.skip(fragment_start(page));
    let before = head + query_separator(head) + form_encoded("callback_url"@) + seq!['='];
    let whole = with_query_pair(page, "callback_url"@, a);
    assert(whole == before + form_encoded(a) + fragment);
    assert(whole == before + form_encoded(b) + fragment);
    let start = before.len() as int;
    let end = whole.len() - fragment.len();
    assert(whole.subrange(start, end) == form_encoded(a));
    assert(whole.subrange(start, end) == form_encoded(b));
    law_form_encoding_reads_back(a);
    law_form_encoding_reads_back(b);
}

/// Slashes at the end of the configured address make no difference to the login page.
pub proof fn law_login_page_ignores_trailing_slashes(next_auth_url: Seq<char>, n: nat)
    ensures
        login_page(next_auth_url + slashes(n)) == login_page(next_auth_url),
{
    law_trimming_ignores_trailing_slashes(next_auth_url, n);
}

/// For a configured address that does not end in a slash, the login page is this very
/// address, followed by `/auth/login` and nothing else.
pub proof fn law_login_page_is_at_the_configured_address(next_auth_url: Seq<char>)
    requires
        next_auth_url.len() == 0 || next_auth_url.last() != '/',
    ensures
        ({
            let page = login_page(next_auth_url);
            let len = next_auth_url.len() as int;
            &&& page.len() >= len
            &&& page.take(len) == next_auth_url
            &&& page.skip(len) == "/auth/login"@
        }),
{
    law_trimming_takes_only_slashes(next_auth_url);
    let page = login_page(next_auth_url);
    let len = next_auth_url.len() as int;
    assert(page.take(len) == next_auth_url);
    assert(page.skip(len) == "/auth/login"@);
}

/// Two addresses that do not end in a slash never share a login page.
pub proof fn law_login_pages_tell_addresses_apart(a: Seq<char>, b: Seq<char>)
    requires
        a.len() == 0 || a.last() != '/',
        b.len() == 0 || b.last() != '/',
        login_page(a) == login_page(b),
    ensures
        a == b,
{
    law_login_page_is_at_the_configured_address(a);
    law_login_page_is_at_the_configured_address(b);
    reveal_strlit("/auth/login");
    let page = login_page(a);
    assert(page.skip(a.len() as int).len() == 11);
    assert(page.skip(b.len() as int).len() == 11);
}

/// The answer is the address where there is one, unchanged, and otherwise a report that ends
/// with the reason, unchanged.
pub proof fn law_login_url_reply_by_cases(url: Seq<char>, error: Seq<char>)
    ensures
        login_url_reply(Ok(url)) == Ok::<Seq<char>, AppErrorView>(url),
        login_url_reply(Err(error)) == Err::<Seq<char>, AppErrorView>(
            AppErrorView::Internal("Failed to construct login URL from NEXT_AUTH_URL: "@ + error),
        ),
        next_auth_missing() == AppErrorView::BadRequest("Next auth is not configured"@),
{
}

proof fn lemma_fragment_starts_behind(head: Seq<char>, fragment: Seq<char>)
    requires
        !head.contains('#'),
        fragment.len() > 0 ==> fragment[0] == '#',
    ensures
        (head + fragment).contains('#') == (fragment.len() > 0),
        fragment_start(head + fragment) == head.len(),
        (head + fragment).take(head.len() as int) == head,
        (head + fragment).skip(head.len() as int) == fragment,
{
    let url = head + fragment;
    if fragment.len() > 0 {
        assert(url[head.len() as int] == '#');
        url.index_of_first_ensures('#');
        let first = url.index_of_first('#')->0;
        if first < head.len() {
            assert(head[first] == '#');
        }
    }
    assert(url.take(head.len() as int) == head);
    assert(url.skip(head.len() as int) == fragment);
}

/// A pair goes in front of the fragment of a URL and behind everything else. It starts the
/// query with a question mark where there is none, follows directly on a question mark that
/// ends the URL, and is otherwise set off by an ampersand. Nothing else changes.
pub proof fn law_query_pair_is_put_in_place(
    path: Seq<char>,
    query: Seq<char>,
    fragment: Seq<char>,
    name: Seq<char>,
    value: Seq<char>,
)
    requires
        !path.contains('#'),
        !path.contains('?'),
        !query.contains('#'),
        query.len() > 0,
        fragment.len() > 0 ==> fragment[0] == '#',
    ensures
        ({
            let pair = form_encoded(name) + seq!['='] + form_encoded(value);
            &&& with_query_pair(path + fragment, name, value) == path + seq!['?'] + pair + fragment
            &&& with_query_pair(path + seq!['?'] + fragment, name, value) == path + seq!['?'] + pair
                + fragment
            &&& with_query_pair(path + seq!['?'] + query + fragment, name, value) == path + seq!['?']
                + query + seq!['&'] + pair + fragment
        }),
{
    let pair = form_encoded(name) + seq!['='] + form_encoded(value);
    lemma_fragment_starts_behind(path, fragment);
    assert(with_query_pair(path + fragment, name, value) == path + seq!['?'] + pair + fragment);
    let bare = path + seq!['?'];
    lemma_question_mark_is_first(path, seq![]);
    assert(bare + Seq::<char>::empty() == bare);
    lemma_fragment_starts_behind(bare, fragment);
    assert(with_query_pair(bare + fragment, name, value) == bare + pair + fragment);
    let full = path + seq!['?'] + query;
    lemma_question_mark_is_first(path, query);
    lemma_fragment_starts_behind(full, fragment);
    assert(with_query_pair(full + fragment, name, value) == full + seq!['&'] + pair + fragment);
}

proof fn lemma_question_mark_is_first(path: Seq<char>, query: Seq<char>)
    requires
        !path.contains('?'),
    ensures
        (path + seq!['?'] + query).contains('?'),
        (path + seq!['?'] + query).index_of_first('?') == Some(path.len() as int),
{
    let whole = path + seq!['?'] + query;
    assert(whole[path.len() as int] == '?');
    whole.index_of_first_ensures('?');
    let first = whole.index_of_first('?')->0;
    if first < path.len() {
        assert(path[first] == '?');
    }
}

/// A pair fits a URL unless a position leaves the 32 bits: that of a query which the pair
/// starts, or that of a fragment which the pair moves. In particular it fits every URL that
/// has a query and no fragment.
pub proof fn law_pairs_fit_in_32_bits(
    head: Seq<char>,
    fragment: Seq<char>,
    name: Seq<char>,
    value: Seq<char>,
)
    requires
        !head.contains('#'),
        fragment.len() > 0 ==> fragment[0] == '#',
    ensures
        ({
            let added = with_query_pair(head, name, value).len() - head.len();
            url_fits(head + fragment, name, value) <==> {
                &&& head.contains('?') || encode_utf8(head).len() <= 0xffff_ffff
                &&& fragment.len() == 0 || encode_utf8(head).len() + added <= 0xffff_ffff
            }
        }),
{
    lemma_fragment_starts_behind(head, fragment);
    lemma_fragment_starts_behind(head, seq![]);
    assert(head + Seq::<char>::empty() == head);
}

} // verus!

use registry_auth::header::AuthHeader;

fn read(values: &[&[u8]]) -> Option<AuthHeader> {
    let values: Vec<Vec<u8>> = values.iter().map(|v| v.to_vec()).collect();
    AuthHeader::from_header_values(&values)
}

fn bearer(token: &str) -> Option<AuthHeader> {
    Some(AuthHeader::Bearer { token: token.to_string() })
}

fn basic(username: &str, password: &str) -> Option<AuthHeader> {
    Some(AuthHeader::Basic {
        username: username.to_string(),
        password: password.to_string(),
    })
}

#[test]
fn bearer_tokens_are_read() {
    assert_eq!(read(&[b"Bearer abc.def"]), bearer("abc.def"));
    assert_eq!(read(&[b"bEARER  \tabc "]), bearer("abc "));
    assert_eq!(read(&[b"Bearer "]), bearer(""));
}

#[test]
fn bearer_needs_the_scheme_a_space_and_visible_text() {
    assert_eq!(read(&[b"Bearer"]), None);
    assert_eq!(read(&[b"Bearer\tabc"]), None);
    assert_eq!(read(&[b"Bearerabc"]), None);
    assert_eq!(read(&[b" Bearer abc"]), None);
    assert_eq!(read(&[b"Bearer \xc3\xa9"]), None);
    assert_eq!(read(&[b"Bearer a\nb"]), None);
}

#[test]
fn basic_credentials_are_read() {
    assert_eq!(
        read(&[b"Basic QWxhZGRpbjpvcGVuIHNlc2FtZQ=="]),
        basic("Aladdin", "open sesame")
    );
    assert_eq!(read(&[b"basic QWxhZGRpbjo="]), basic("Aladdin", ""));
    // "a:b:c" splits at its first colon.
    assert_eq!(read(&[b"Basic YTpiOmM="]), basic("a", "b:c"));
}

#[test]
fn basic_needs_base64_of_a_pair() {
    assert_eq!(read(&[b"Basic !!!"]), None);
    // "Aladdin" has no colon.
    assert_eq!(read(&[b"Basic QWxhZGRpbg=="]), None);
    assert_eq!(read(&[b"Basic "]), None);
}

#[test]
fn other_headers_count_as_none() {
    assert_eq!(read(&[]), None);
    assert_eq!(read(&[b""]), None);
    assert_eq!(read(&[b"Digest abc"]), None);
}

#[test]
fn only_the_first_value_counts() {
    assert_eq!(read(&[b"Bearer one", b"Bearer two"]), bearer("one"));
    assert_eq!(read(&[b"Digest abc", b"Bearer two"]), None);
}

#[test]
fn the_bearer_reading_wins() {
    let pair = Some(("u".to_string(), "p".to_string()));
    assert_eq!(
        AuthHeader::prefer_bearer(Some("t".to_string()), pair.clone()),
        bearer("t")
    );
    assert_eq!(AuthHeader::prefer_bearer(None, pair), basic("u", "p"));
    assert_eq!(AuthHeader::prefer_bearer(None, None), None);
}

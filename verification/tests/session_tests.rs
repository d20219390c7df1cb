use estacio_completer::api_client::{classify_response, dec_u64, ApiClient, ApiError};
use estacio_completer::estacio_client::EstacioClient;
use estacio_completer::paths::{conclusion_path, course_detail_path, me_path, theme_detail_path};
use estacio_completer::types::Data;

#[test]
fn non_ascii_token_is_rejected_before_any_header_changes() {
    let mut client = ApiClient::new("https://apis.estudante.estacio.br").expect("the base URL is valid");
    let result = client.set_authorization("abc\u{e9}");
    match result {
        Err(ApiError::NonAsciiToken { offenders }) => {
            assert_eq!(offenders, vec![(3, '\u{e9}')]);
        }
        _ => panic!("a non-ASCII token must be rejected"),
    }
    assert_eq!(client.headers.len(), 0);
    assert!(client.token.is_none());
}

#[test]
fn every_non_ascii_character_is_reported_in_order() {
    let mut client = ApiClient::new("https://apis.estudante.estacio.br").expect("the base URL is valid");
    let result = client.set_authorization("\u{e1}b\u{7f}\u{e7}");
    match result {
        Err(ApiError::NonAsciiToken { offenders }) => {
            assert_eq!(offenders, vec![(0, '\u{e1}'), (3, '\u{e7}')]);
        }
        _ => panic!("a non-ASCII token must be rejected"),
    }
}

#[test]
fn ascii_token_is_installed_as_authorization_header() {
    let mut client = ApiClient::new("https://apis.estudante.estacio.br").expect("the base URL is valid");
    let result = client.set_authorization("Bearer abc123");
    assert!(result.is_ok());
    assert_eq!(client.headers.len(), 1);
    assert_eq!(client.headers[0].0, "authorization");
    assert_eq!(client.headers[0].1, "Bearer abc123");
    assert_eq!(client.token.as_deref(), Some("Bearer abc123"));
}

#[test]
fn empty_token_is_ascii_and_accepted() {
    let mut client = ApiClient::new("https://apis.estudante.estacio.br").expect("the base URL is valid");
    assert!(client.set_authorization("").is_ok());
    assert_eq!(client.headers.len(), 1);
    assert_eq!(client.headers[0].1, "");
}

#[test]
fn new_header_values_win_on_collision() {
    let mut client = ApiClient::new("https://apis.estudante.estacio.br").expect("the base URL is valid");
    client.update_headers(&vec![
        ("a".to_string(), "1".to_string()),
        ("b".to_string(), "2".to_string()),
    ]);
    client.update_headers(&vec![("a".to_string(), "3".to_string())]);
    let headers: Vec<(String, String)> = client.headers.clone();
    assert_eq!(
        headers,
        vec![("a".to_string(), "3".to_string()), ("b".to_string(), "2".to_string())]
    );
}

#[test]
fn session_carries_the_platform_headers_and_the_token() {
    let client = EstacioClient::new("tok").expect("the base URL is valid");
    assert_eq!(client.api.base_url, "https://apis.estudante.estacio.br");
    let headers: Vec<(String, String)> = client.api.headers.clone();
    assert_eq!(
        headers,
        vec![
            ("host".to_string(), "apis.estudante.estacio.br".to_string()),
            ("origin".to_string(), "https://estudante.estacio.br".to_string()),
            ("referer".to_string(), "https://estudante.estacio.br/".to_string()),
            ("authorization".to_string(), "tok".to_string()),
        ]
    );
    assert_eq!(client.api.token.as_deref(), Some("tok"));
}

#[test]
fn two_hundreds_are_success_and_the_rest_are_not() {
    assert!(classify_response(200, String::new()).is_ok());
    assert!(classify_response(204, String::new()).is_ok());
    assert!(classify_response(299, String::new()).is_ok());
    assert!(classify_response(199, String::new()).is_err());
    assert!(classify_response(302, String::new()).is_err());
    assert!(classify_response(404, String::new()).is_err());
    assert!(classify_response(500, String::new()).is_err());
}

#[test]
fn http_error_message_carries_status_and_body() {
    let err = match classify_response(404, "not here".to_string()) {
        Err(e) => e,
        Ok(()) => panic!("a 404 must classify as an error"),
    };
    assert_eq!(
        err.message(),
        "Request failed with status: 404 - Body: not here"
    );
}

#[test]
fn decimal_rendering_is_exact() {
    assert_eq!(dec_u64(0), "0");
    assert_eq!(dec_u64(7), "7");
    assert_eq!(dec_u64(42), "42");
    assert_eq!(dec_u64(500), "500");
    assert_eq!(dec_u64(65535), "65535");
    assert_eq!(dec_u64(18446744073709551615), "18446744073709551615");
}

#[test]
fn request_paths_splice_identifiers_verbatim() {
    assert_eq!(me_path(), "/rest/me");
    assert_eq!(
        course_detail_path("T1", "M1"),
        "/rest/turmas/T1/detalhes?matricula=M1"
    );
    assert_eq!(
        theme_detail_path("T1", "TH1", "M1"),
        "/rest/turmas/T1/temas/TH1?matricula=M1"
    );
    let data = Data::new("M1", "T1", "TH1", "C1");
    assert_eq!(
        conclusion_path(&data),
        "/rest/turmas/T1/temas/TH1/conteudos/C1/conclusoes?matricula=M1"
    );
}

#[test]
fn invalid_base_url_is_rejected_before_anything_else() {
    let result = ApiClient::new("not a url");
    match result {
        Err(ApiError::InvalidBaseUrl { base_url }) => {
            assert_eq!(base_url, "not a url");
        }
        _ => panic!("a relative or malformed base URL must be rejected"),
    }
    let err = ApiClient::new("/rest/me").expect_err("a relative URL is not absolute");
    assert_eq!(err.message(), "Invalid base URL: /rest/me");
    assert!(ApiClient::new("https://example.com").is_ok());
}

#[test]
fn header_names_compare_case_insensitively() {
    let mut client =
        ApiClient::new("https://apis.estudante.estacio.br").expect("the base URL is valid");
    client.update_headers(&vec![("X-Custom".to_string(), "1".to_string())]);
    client.update_headers(&vec![("x-CUSTOM".to_string(), "2".to_string())]);
    let headers: Vec<(String, String)> = client.headers.clone();
    assert_eq!(headers, vec![("x-custom".to_string(), "2".to_string())]);
}

#[test]
fn non_ascii_token_message_enumerates_each_offender() {
    let mut client =
        ApiClient::new("https://apis.estudante.estacio.br").expect("the base URL is valid");
    let err = client
        .set_authorization("abc\u{e9}")
        .expect_err("a non-ASCII token must be rejected");
    assert_eq!(
        err.message(),
        "Token contains non-ASCII characters; obtain a valid, complete bearer token\
         \n  position 3: '\u{e9}' (U+00E9)"
    );
    let err = client
        .set_authorization("a\u{1f600}")
        .expect_err("a non-ASCII token must be rejected");
    assert_eq!(
        err.message(),
        "Token contains non-ASCII characters; obtain a valid, complete bearer token\
         \n  position 1: '\u{1f600}' (U+1F600)"
    );
}

#[test]
fn pending_item_keeps_the_four_identifiers_unchanged() {
    let data = Data::new("enroll-9", "course-x", "theme-y", "content-z");
    assert_eq!(data.matricula_id, "enroll-9");
    assert_eq!(data.course_id, "course-x");
    assert_eq!(data.theme_id, "theme-y");
    assert_eq!(data.content_id, "content-z");
    assert_eq!(
        conclusion_path(&data),
        "/rest/turmas/course-x/temas/theme-y/conteudos/content-z/conclusoes?matricula=enroll-9"
    );
}

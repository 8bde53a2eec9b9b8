use card::client::{
    accept, receive_card, receive_cards, ApiClient, ApiError, Method, Response, BASE_URL,
};
use card::json::Json;
use card::model::CardCreationPayload;
use card::text::decimal_text;

fn text(value: &str) -> Json {
    Json::Text(value.to_string())
}

fn member(name: &str, value: Json) -> (String, Json) {
    (name.to_string(), value)
}

fn funding() -> Json {
    Json::Object(vec![
        member("created", text("2022-01-01T00:00:00Z")),
        member("token", text("fund-1")),
        member("type", text("DEPOSITORY_CHECKING")),
        member("state", text("ENABLED")),
        member("account_name", text("Checking")),
        member("last_four", text("9876")),
    ])
}

fn card(memo: &str, with_token: bool) -> Json {
    let mut members = vec![member("created", text("2023-01-01T00:00:00Z"))];
    if with_token {
        members.push(member("token", text("tok-1")));
    }
    members.extend(vec![
        member("last_four", text("1234")),
        member("hostname", text("")),
        member("memo", text(memo)),
        member("type", text("SINGLE_USE")),
        member("spend_limit", Json::Integer(5000)),
        member("spend_limit_duration", text("TRANSACTION")),
        member("state", text("OPEN")),
        member("funding", funding()),
        member("auth_rule_tokens", Json::List(Vec::new())),
        member("pan", text("4111111111111111")),
        member("cvv", text("123")),
        member("exp_month", text("01")),
        member("exp_year", text("2030")),
    ]);
    Json::Object(members)
}

fn cards(items: Vec<Json>) -> Json {
    Json::Object(vec![
        member("data", Json::List(items)),
        member("total_pages", Json::Integer(1)),
        member("page", Json::Integer(1)),
    ])
}

fn response(status: u16, body: &str, document: Option<Json>) -> Result<Response, String> {
    Ok(Response { status, body: body.to_string(), document })
}

#[test]
fn every_request_carries_the_key() {
    let client = ApiClient::new("sk_live_abc");
    let payload = CardCreationPayload::single_use("Groceries".to_string(), 5000);
    let requests = vec![
        client.list().unwrap(),
        client.create_card(&payload).unwrap(),
        client.get("cards/tok-1").unwrap(),
        client.post("cards", Json::Null).unwrap(),
        client.request(Method::Get, "funding", None).unwrap(),
        client.request_to(Method::Post, "https://example.net/".to_string(), None),
    ];
    for request in requests {
        assert_eq!(request.authorization.expose(), "api-key sk_live_abc");
    }
}

#[test]
fn the_key_is_sent_as_it_is() {
    for key in ["", " ", "sk live\n", "cl\u{e9}\t"] {
        let request = ApiClient::new(key).list().unwrap();
        assert_eq!(request.authorization.expose(), format!("api-key {}", key));
    }
}

#[test]
fn a_listing_reads_the_collection() {
    let request = ApiClient::new("k").list().unwrap();
    assert_eq!(request.method, Method::Get);
    assert_eq!(request.url, "https://api.privacy.com/v1/cards");
    assert_eq!(request.content_type, None);
    assert_eq!(request.body, None);
}

#[test]
fn a_creation_posts_the_payload() {
    let payload = CardCreationPayload::single_use("Groceries".to_string(), 5000);
    let request = ApiClient::new("k").create_card(&payload).unwrap();
    assert_eq!(request.method, Method::Post);
    assert_eq!(request.url, "https://api.privacy.com/v1/cards");
    assert_eq!(request.content_type, Some("application/json".to_string()));
    assert_eq!(request.body, Some(payload.to_json()));
}

#[test]
fn an_endpoint_is_taken_relative_to_the_base() {
    let client = ApiClient::new("k");
    assert_eq!(BASE_URL, "https://api.privacy.com/v1/");
    assert_eq!(client.get("cards").unwrap().url, "https://api.privacy.com/v1/cards");
    assert_eq!(client.get("cards/tok-1").unwrap().url, "https://api.privacy.com/v1/cards/tok-1");
    assert_eq!(client.get("").unwrap().url, "https://api.privacy.com/v1/");
    assert_eq!(client.get("../v2/cards").unwrap().url, "https://api.privacy.com/v2/cards");
    assert_eq!(client.get("cards?page=2").unwrap().url, "https://api.privacy.com/v1/cards?page=2");
}

#[test]
fn an_endpoint_that_gives_no_address_is_refused() {
    let client = ApiClient::new("k");
    assert_eq!(client.get("https://").err(), Some(ApiError::Url));
    assert_eq!(client.post("//[", Json::Null).err(), Some(ApiError::Url));
}

#[test]
fn a_request_is_put_together_as_given() {
    let client = ApiClient::new("k");
    let bare = client.request_to(Method::Get, "https://example.net/a".to_string(), None);
    assert_eq!(bare.method, Method::Get);
    assert_eq!(bare.url, "https://example.net/a");
    assert_eq!(bare.content_type, None);
    assert_eq!(bare.body, None);
    let full = client.request_to(Method::Post, "x".to_string(), Some(Json::Bool(true)));
    assert_eq!(full.method, Method::Post);
    assert_eq!(full.url, "x");
    assert_eq!(full.content_type, Some("application/json".to_string()));
    assert_eq!(full.body, Some(Json::Bool(true)));
}

#[test]
fn a_status_of_success_is_accepted() {
    for status in [200, 201, 204, 299] {
        let accepted = accept(response(status, "body", None)).unwrap();
        assert_eq!(accepted.status, status);
        assert_eq!(accepted.body, "body");
    }
}

#[test]
fn any_other_status_is_an_error_with_the_body() {
    for status in [0, 100, 199, 300, 301, 400, 401, 404, 500, 65535] {
        assert_eq!(
            accept(response(status, "why", Some(Json::Null))).err(),
            Some(ApiError::HttpStatus { status, body: "why".to_string() })
        );
    }
}

#[test]
fn a_failed_transport_is_passed_on() {
    assert_eq!(
        accept(Err("connection refused".to_string())).err(),
        Some(ApiError::Transport { reason: "connection refused".to_string() })
    );
    assert_eq!(
        receive_cards(Err("timed out".to_string())).err(),
        Some(ApiError::Transport { reason: "timed out".to_string() })
    );
    assert_eq!(
        receive_card(Err("tls".to_string())).err(),
        Some(ApiError::Transport { reason: "tls".to_string() })
    );
}

#[test]
fn a_listing_delivers_the_page() {
    let document = cards(vec![card("One", true), card("Two", true)]);
    let page = receive_cards(response(200, "", Some(document))).unwrap();
    assert_eq!(page.data.len(), 2);
    assert_eq!(page.data[0].memo, "One");
    assert_eq!(page.data[1].memo, "Two");
    assert_eq!(page.total_pages, 1);
    assert_eq!(page.page, 1);
}

#[test]
fn a_page_with_a_card_without_token_is_a_decode_error() {
    let document = cards(vec![card("One", true), card("Two", false)]);
    assert_eq!(receive_cards(response(200, "", Some(document))).err(), Some(ApiError::Decode));
}

#[test]
fn a_body_that_is_no_document_is_a_decode_error() {
    assert_eq!(receive_cards(response(200, "<html>", None)).err(), Some(ApiError::Decode));
    assert_eq!(receive_card(response(200, "", None)).err(), Some(ApiError::Decode));
    assert_eq!(receive_cards(response(200, "[]", Some(Json::List(Vec::new())))).err(), Some(ApiError::Decode));
    assert_eq!(receive_card(response(200, "{}", Some(Json::Object(Vec::new())))).err(), Some(ApiError::Decode));
}

#[test]
fn the_status_is_judged_before_the_body() {
    let document = cards(vec![card("One", true)]);
    assert_eq!(
        receive_cards(response(500, "down", Some(document))).err(),
        Some(ApiError::HttpStatus { status: 500, body: "down".to_string() })
    );
    assert_eq!(
        receive_card(response(403, "no", Some(card("One", true)))).err(),
        Some(ApiError::HttpStatus { status: 403, body: "no".to_string() })
    );
}

#[test]
fn a_creation_delivers_the_card() {
    let created = receive_card(response(201, "", Some(card("New", true)))).unwrap();
    assert_eq!(created.memo, "New");
    assert_eq!(created.pan.unwrap().expose(), "4111111111111111");
    assert_eq!(
        receive_card(response(200, "", Some(card("New", false)))).err(),
        Some(ApiError::Decode)
    );
}

#[test]
fn errors_are_put_in_words() {
    assert_eq!(ApiError::Url.message(), "cannot form the address of the request");
    assert_eq!(
        ApiError::Transport { reason: "connection refused".to_string() }.message(),
        "request failed: connection refused"
    );
    assert_eq!(
        ApiError::HttpStatus { status: 404, body: "secret body".to_string() }.message(),
        "the service answered with status 404"
    );
    assert_eq!(
        ApiError::HttpStatus { status: 65535, body: String::new() }.message(),
        "the service answered with status 65535"
    );
    assert_eq!(ApiError::Decode.message(), "the service's answer has an unexpected shape");
}

#[test]
fn numbers_are_written_in_decimal() {
    assert_eq!(decimal_text(0), "0");
    assert_eq!(decimal_text(7), "7");
    assert_eq!(decimal_text(10), "10");
    assert_eq!(decimal_text(404), "404");
    assert_eq!(decimal_text(1234567890), "1234567890");
    assert_eq!(decimal_text(u32::MAX), "4294967295");
}

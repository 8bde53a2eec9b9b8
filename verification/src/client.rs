//! The gateway to the card service: which request stands for which operation,
//! and what an answer means. Sending is left to the caller.

use crate::json::{Json, JsonView};
use crate::model::{Card, CardCreationPayload, CardView, Cards, CardsView, Secret};
use crate::text::{decimal, decimal_text};
use crate::wire::{card_of, cards_of, decode_card, decode_cards, payload_json};
use vstd::prelude::*;

verus! {

/// The address that every endpoint is taken relative to.
pub const BASE_URL: &'static str = "https://api.privacy.com/v1/";

/// The endpoint of the collection of cards.
pub const CARDS_ENDPOINT: &'static str = "cards";

/// The content type that goes with a JSON body.
pub const JSON_CONTENT_TYPE: &'static str = "application/json";

#[verifier::external_type_specification]
#[verifier::external_body]
pub struct ExParseError(url::ParseError);

/// The address that `reqwest::Url` gives for `endpoint` taken relative to
/// `base`, written out; `None` where it refuses `base` or the pair.
pub uninterp spec fn joined_url(base: Seq<char>, endpoint: Seq<char>) -> Option<Seq<char>>;

/// `reqwest::Url::parse` on `base`, then `Url::join` with `endpoint`, and the
/// result turned into its text. The contract only gives that text its name,
/// [`joined_url`], and says that an error comes exactly where there is none.
#[verifier::external_body]
fn join_url(base: &str, endpoint: &str) -> (joined: Result<String, url::ParseError>)
    ensures
        match joined {
            Ok(url) => joined_url(base@, endpoint@) == Some(url@),
            Err(_) => joined_url(base@, endpoint@) is None,
        },
{
    let base = reqwest::Url::parse(base)?;
    let url = base.join(endpoint)?;
    Ok(String::from(url))
}

#[derive(Clone, Copy, Debug, PartialEq, Eq, Structural)]
pub enum Method {
    Get,
    Post,
}

/// A request, ready to be sent. It carries the API key, so it has no `Debug`.
pub struct Request {
    pub method: Method,
    pub url: String,
    /// The value of the `Authorization` header.
    pub authorization: Secret,
    /// The value of the `Content-Type` header, where there is a body.
    pub content_type: Option<String>,
    pub body: Option<Json>,
}

pub struct RequestView {
    pub method: Method,
    pub url: Seq<char>,
    pub authorization: Seq<char>,
    pub content_type: Option<Seq<char>>,
    pub body: Option<JsonView>,
}

/// The view of an optional document.
pub open spec fn optional_json_view(document: Option<Json>) -> Option<JsonView> {
    match document {
        Some(document) => Some(document@),
        None => None,
    }
}

impl View for Request {
    type V = RequestView;

    open spec fn view(&self) -> RequestView {
        RequestView {
            method: self.method,
            url: self.url@,
            authorization: self.authorization@,
            content_type: match self.content_type {
                Some(content_type) => Some(content_type@),
                None => None,
            },
            body: optional_json_view(self.body),
        }
    }
}

/// What came back from the service.
pub struct Response {
    pub status: u16,
    /// The body as it was received.
    pub body: String,
    /// The body as a document, where it is JSON.
    pub document: Option<Json>,
}

pub struct ResponseView {
    pub status: int,
    pub body: Seq<char>,
    pub document: Option<JsonView>,
}

impl View for Response {
    type V = ResponseView;

    open spec fn view(&self) -> ResponseView {
        ResponseView {
            status: self.status as int,
            body: self.body@,
            document: optional_json_view(self.document),
        }
    }
}

/// Why an operation on the service failed.
#[derive(Debug, PartialEq, Eq)]
pub enum ApiError {
    /// The address of the request could not be formed.
    Url,
    /// The request did not get through; `reason` is the transport's message.
    Transport { reason: String },
    /// The service answered with a status outside 200 to 299.
    HttpStatus { status: u16, body: String },
    /// The answer is not the JSON that the operation returns.
    Decode,
}

pub enum ApiErrorView {
    Url,
    Transport { reason: Seq<char> },
    HttpStatus { status: int, body: Seq<char> },
    Decode,
}

impl View for ApiError {
    type V = ApiErrorView;

    open spec fn view(&self) -> ApiErrorView {
        match self {
            ApiError::Url => ApiErrorView::Url,
            ApiError::Transport { reason } => ApiErrorView::Transport { reason: reason@ },
            ApiError::HttpStatus { status, body } => ApiErrorView::HttpStatus {
                status: *status as int,
                body: body@,
            },
            ApiError::Decode => ApiErrorView::Decode,
        }
    }
}

impl ApiErrorView {
    /// The error in words. The body of a refused request is left out: it is
    /// kept in the error for the caller, and never printed.
    pub open spec fn message(self) -> Seq<char> {
        match self {
            ApiErrorView::Url => "cannot form the address of the request"@,
            ApiErrorView::Transport { reason } => "request failed: "@ + reason,
            ApiErrorView::HttpStatus { status, body } => "the service answered with status "@
                + decimal(status as nat),
            ApiErrorView::Decode => "the service's answer has an unexpected shape"@,
        }
    }
}

impl ApiError {
    /// The error in words.
    pub fn message(&self) -> (text: String)
        ensures
            text@ == self@.message(),
    {
        match self {
            ApiError::Url => "cannot form the address of the request".to_owned(),
            ApiError::Transport { reason } => {
                let mut text = "request failed: ".to_owned();
                text.append(reason.as_str());
                text
            },
            ApiError::HttpStatus { status, body } => {
                let mut text = "the service answered with status ".to_owned();
                let code = decimal_text(*status as u32);
                text.append(code.as_str());
                text
            },
            ApiError::Decode => "the service's answer has an unexpected shape".to_owned(),
        }
    }
}

/// The value of the `Authorization` header for the key `key`.
pub open spec fn authorization_for(key: Seq<char>) -> Seq<char> {
    "api-key "@ + key
}

/// The request that `key` sends to `url`: the key in the authorization
/// header, and the JSON content type exactly when there is a body.
pub open spec fn request_for(
    key: Seq<char>,
    method: Method,
    url: Seq<char>,
    body: Option<JsonView>,
) -> RequestView {
    RequestView {
        method,
        url,
        authorization: authorization_for(key),
        content_type: if body is Some {
            Some(JSON_CONTENT_TYPE@)
        } else {
            None
        },
        body,
    }
}

/// The request that `key` sends to `endpoint`, or the error where the
/// endpoint gives no address.
pub open spec fn requested(
    key: Seq<char>,
    method: Method,
    endpoint: Seq<char>,
    body: Option<JsonView>,
) -> Result<RequestView, ApiErrorView> {
    match joined_url(BASE_URL@, endpoint) {
        Some(url) => Ok(request_for(key, method, url, body)),
        None => Err(ApiErrorView::Url),
    }
}

/// Whatever the method, the endpoint and the body: a request that forms
/// carries `api-key`, a space and the key, unchanged, as its authorization.
pub proof fn lemma_request_carries_key(
    key: Seq<char>,
    method: Method,
    endpoint: Seq<char>,
    body: Option<JsonView>,
)
    ensures
        requested(key, method, endpoint, body) matches Ok(request) ==> request.authorization
            == "api-key "@ + key,
{
}

/// Whether `status` reports success.
pub open spec fn is_success(status: int) -> bool {
    200 <= status <= 299
}

/// The view of what sending a request came to: the response, or the
/// transport's reason for having none.
pub open spec fn exchange_view(exchange: Result<Response, String>) -> Result<
    ResponseView,
    Seq<char>,
> {
    match exchange {
        Ok(response) => Ok(response@),
        Err(reason) => Err(reason@),
    }
}

/// The response of an exchange that got through with a status of success, and
/// else the error that says which of the two failed.
pub open spec fn accepted(exchange: Result<ResponseView, Seq<char>>) -> Result<
    ResponseView,
    ApiErrorView,
> {
    match exchange {
        Err(reason) => Err(ApiErrorView::Transport { reason }),
        Ok(response) => if is_success(response.status) {
            Ok(response)
        } else {
            Err(ApiErrorView::HttpStatus { status: response.status, body: response.body })
        },
    }
}

/// The page of cards that an exchange delivered.
pub open spec fn cards_received(exchange: Result<ResponseView, Seq<char>>) -> Result<
    CardsView,
    ApiErrorView,
> {
    match accepted(exchange) {
        Err(error) => Err(error),
        Ok(response) => match response.document {
            Some(document) => match cards_of(document) {
                Some(cards) => Ok(cards),
                None => Err(ApiErrorView::Decode),
            },
            None => Err(ApiErrorView::Decode),
        },
    }
}

/// The card that an exchange delivered.
pub open spec fn card_received(exchange: Result<ResponseView, Seq<char>>) -> Result<
    CardView,
    ApiErrorView,
> {
    match accepted(exchange) {
        Err(error) => Err(error),
        Ok(response) => match response.document {
            Some(document) => match card_of(document) {
                Some(card) => Ok(card),
                None => Err(ApiErrorView::Decode),
            },
            None => Err(ApiErrorView::Decode),
        },
    }
}

/// The view of a request that may have failed to form.
pub open spec fn request_result_view(result: Result<Request, ApiError>) -> Result<
    RequestView,
    ApiErrorView,
> {
    match result {
        Ok(request) => Ok(request@),
        Err(error) => Err(error@),
    }
}

/// The view of a response that may have been refused.
pub open spec fn response_result_view(result: Result<Response, ApiError>) -> Result<
    ResponseView,
    ApiErrorView,
> {
    match result {
        Ok(response) => Ok(response@),
        Err(error) => Err(error@),
    }
}

/// The view of a page of cards that may have failed to arrive.
pub open spec fn cards_result_view(result: Result<Cards, ApiError>) -> Result<
    CardsView,
    ApiErrorView,
> {
    match result {
        Ok(cards) => Ok(cards@),
        Err(error) => Err(error@),
    }
}

/// The view of a card that may have failed to arrive.
pub open spec fn card_result_view(result: Result<Card, ApiError>) -> Result<
    CardView,
    ApiErrorView,
> {
    match result {
        Ok(card) => Ok(card@),
        Err(error) => Err(error@),
    }
}

/// Tells an exchange that got through with a status of success from one that
/// did not.
pub fn accept(exchange: Result<Response, String>) -> (result: Result<Response, ApiError>)
    ensures
        response_result_view(result) == accepted(exchange_view(exchange)),
{
    match exchange {
        Err(reason) => Err(ApiError::Transport { reason }),
        Ok(response) => {
            if 200 <= response.status && response.status <= 299 {
                Ok(response)
            } else {
                Err(ApiError::HttpStatus { status: response.status, body: response.body })
            }
        },
    }
}

/// Reads the page of cards out of the answer to a listing request.
pub fn receive_cards(exchange: Result<Response, String>) -> (result: Result<Cards, ApiError>)
    ensures
        cards_result_view(result) == cards_received(exchange_view(exchange)),
{
    match accept(exchange) {
        Err(error) => Err(error),
        Ok(response) => match &response.document {
            Some(document) => match decode_cards(document) {
                Some(cards) => Ok(cards),
                None => Err(ApiError::Decode),
            },
            None => Err(ApiError::Decode),
        },
    }
}

/// Reads the new card out of the answer to a creation request.
pub fn receive_card(exchange: Result<Response, String>) -> (result: Result<Card, ApiError>)
    ensures
        card_result_view(result) == card_received(exchange_view(exchange)),
{
    match accept(exchange) {
        Err(error) => Err(error),
        Ok(response) => match &response.document {
            Some(document) => match decode_card(document) {
                Some(card) => Ok(card),
                None => Err(ApiError::Decode),
            },
            None => Err(ApiError::Decode),
        },
    }
}

/// A client for one API key. It forms the requests; the caller sends them.
pub struct ApiClient {
    api_key: Secret,
}

impl ApiClient {
    /// The key that this client authenticates with.
    pub closed spec fn key(&self) -> Seq<char> {
        self.api_key@
    }

    /// A client for `api_key`, which is kept exactly as given.
    pub fn new(api_key: &str) -> (client: ApiClient)
        ensures
            client.key() == api_key@,
    {
        ApiClient { api_key: Secret::new(api_key.to_owned()) }
    }

    /// The request that sends `body` to the address `url` with this client's
    /// key.
    pub fn request_to(&self, method: Method, url: String, body: Option<Json>) -> (request: Request)
        ensures
            request@ == request_for(self.key(), method, url@, optional_json_view(body)),
    {
        let mut authorization = "api-key ".to_owned();
        authorization.append(self.api_key.expose());
        let content_type = match &body {
            Some(_) => Some(JSON_CONTENT_TYPE.to_owned()),
            None => None,
        };
        Request { method, url, authorization: Secret::new(authorization), content_type, body }
    }

    /// The request for `endpoint`, which is taken relative to [`BASE_URL`].
    pub fn request(&self, method: Method, endpoint: &str, body: Option<Json>) -> (result: Result<
        Request,
        ApiError,
    >)
        ensures
            request_result_view(result) == requested(
                self.key(),
                method,
                endpoint@,
                optional_json_view(body),
            ),
    {
        match join_url(BASE_URL, endpoint) {
            Ok(url) => Ok(self.request_to(method, url, body)),
            Err(_) => Err(ApiError::Url),
        }
    }

    /// The request that reads `endpoint`.
    pub fn get(&self, endpoint: &str) -> (result: Result<Request, ApiError>)
        ensures
            request_result_view(result) == requested(self.key(), Method::Get, endpoint@, None),
    {
        self.request(Method::Get, endpoint, None)
    }

    /// The request that sends `body` to `endpoint`.
    pub fn post(&self, endpoint: &str, body: Json) -> (result: Result<Request, ApiError>)
        ensures
            request_result_view(result) == requested(
                self.key(),
                Method::Post,
                endpoint@,
                Some(body@),
            ),
    {
        self.request(Method::Post, endpoint, Some(body))
    }

    /// The request that lists the cards.
    pub fn list(&self) -> (result: Result<Request, ApiError>)
        ensures
            request_result_view(result) == requested(
                self.key(),
                Method::Get,
                CARDS_ENDPOINT@,
                None,
            ),
    {
        self.get(CARDS_ENDPOINT)
    }

    /// The request that creates the card that `payload` describes.
    pub fn create_card(&self, payload: &CardCreationPayload) -> (result: Result<Request, ApiError>)
        ensures
            request_result_view(result) == requested(
                self.key(),
                Method::Post,
                CARDS_ENDPOINT@,
                Some(payload_json(payload@)),
            ),
    {
        self.post(CARDS_ENDPOINT, payload.to_json())
    }
}

} // verus!

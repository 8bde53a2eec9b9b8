//! How the records look as JSON: which members a document must have to be
//! read as a card or a page of cards, and what a creation payload is written as.

use crate::json::{value_of, Json, JsonView};
use crate::model::{
    cards_view, optional_secret_view, optional_text_view, texts_view, Card, CardCreationPayload,
    CardCreationPayloadView, CardView, Cards, CardsView, Funding, FundingView, Secret,
};
use vstd::prelude::*;

verus! {

/// The text of the member `key`, where `object` has it and it is a string.
pub open spec fn text_member(object: JsonView, key: Seq<char>) -> Option<Seq<char>> {
    match object.member(key) {
        Some(JsonView::Text(text)) => Some(text),
        _ => None,
    }
}

/// The member `key` read as an optional string: absent and `null` both mean
/// that there is none; anything but a string is a mismatch (the outer `None`).
pub open spec fn optional_text_member(object: JsonView, key: Seq<char>) -> Option<
    Option<Seq<char>>,
> {
    match object.member(key) {
        None => Some(None),
        Some(JsonView::Null) => Some(None),
        Some(JsonView::Text(text)) => Some(Some(text)),
        Some(_) => None,
    }
}

/// The member `key`, where it is a whole number between `low` and `high`.
pub open spec fn integer_member(object: JsonView, key: Seq<char>, low: int, high: int) -> Option<
    int,
> {
    match object.member(key) {
        Some(JsonView::Integer(n)) => if low <= n <= high {
            Some(n)
        } else {
            None
        },
        _ => None,
    }
}

/// Whether every item is a string.
pub open spec fn all_text(items: Seq<JsonView>) -> bool {
    forall|i: int| 0 <= i < items.len() ==> (#[trigger] items[i]) is Text
}

/// The member `key`, where it is an array of strings.
pub open spec fn texts_member(object: JsonView, key: Seq<char>) -> Option<Seq<Seq<char>>> {
    match object.member(key) {
        Some(JsonView::List(items)) => if all_text(items) {
            Some(Seq::new(items.len(), |i: int| items[i]->Text_0))
        } else {
            None
        },
        _ => None,
    }
}

/// Whether `document` has every member that a funding source must have.
pub open spec fn funding_complete(document: JsonView) -> bool {
    &&& text_member(document, "created"@) is Some
    &&& text_member(document, "token"@) is Some
    &&& text_member(document, "type"@) is Some
    &&& text_member(document, "state"@) is Some
    &&& optional_text_member(document, "nickname"@) is Some
    &&& text_member(document, "account_name"@) is Some
    &&& text_member(document, "last_four"@) is Some
}

/// The funding source that `document` describes: `None` unless it is an
/// object with all the required members, each of the right kind.
pub open spec fn funding_of(document: JsonView) -> Option<FundingView> {
    if funding_complete(document) {
        Some(
            FundingView {
                created: text_member(document, "created"@)->Some_0,
                token: text_member(document, "token"@)->Some_0,
                funding_type: text_member(document, "type"@)->Some_0,
                state: text_member(document, "state"@)->Some_0,
                nickname: optional_text_member(document, "nickname"@)->Some_0,
                account_name: text_member(document, "account_name"@)->Some_0,
                last_four: text_member(document, "last_four"@)->Some_0,
            },
        )
    } else {
        None
    }
}

/// The funding source that the member `funding` of `document` describes.
pub open spec fn funding_member(document: JsonView) -> Option<FundingView> {
    match document.member("funding"@) {
        Some(funding) => funding_of(funding),
        None => None,
    }
}

/// Whether `document` has every member that a card must have.
pub open spec fn card_complete(document: JsonView) -> bool {
    &&& text_member(document, "created"@) is Some
    &&& text_member(document, "token"@) is Some
    &&& text_member(document, "last_four"@) is Some
    &&& text_member(document, "hostname"@) is Some
    &&& text_member(document, "memo"@) is Some
    &&& text_member(document, "type"@) is Some
    &&& integer_member(document, "spend_limit"@, 0, u32::MAX as int) is Some
    &&& text_member(document, "spend_limit_duration"@) is Some
    &&& text_member(document, "state"@) is Some
    &&& funding_member(document) is Some
    &&& texts_member(document, "auth_rule_tokens"@) is Some
    &&& optional_text_member(document, "pan"@) is Some
    &&& optional_text_member(document, "cvv"@) is Some
    &&& text_member(document, "exp_month"@) is Some
    &&& text_member(document, "exp_year"@) is Some
}

/// The card that `document` describes: `None` unless it is an object with all
/// the required members, each of the right kind. The card type travels under
/// the name `type`; `pan` and `cvv` may be missing. Members that a card does
/// not have are passed over.
pub open spec fn card_of(document: JsonView) -> Option<CardView> {
    if card_complete(document) {
        Some(
            CardView {
                created: text_member(document, "created"@)->Some_0,
                token: text_member(document, "token"@)->Some_0,
                last_four: text_member(document, "last_four"@)->Some_0,
                hostname: text_member(document, "hostname"@)->Some_0,
                memo: text_member(document, "memo"@)->Some_0,
                card_type: text_member(document, "type"@)->Some_0,
                spend_limit: integer_member(document, "spend_limit"@, 0, u32::MAX as int)->Some_0,
                spend_limit_duration: text_member(document, "spend_limit_duration"@)->Some_0,
                state: text_member(document, "state"@)->Some_0,
                funding: funding_member(document)->Some_0,
                auth_rule_tokens: texts_member(document, "auth_rule_tokens"@)->Some_0,
                pan: optional_text_member(document, "pan"@)->Some_0,
                cvv: optional_text_member(document, "cvv"@)->Some_0,
                exp_month: text_member(document, "exp_month"@)->Some_0,
                exp_year: text_member(document, "exp_year"@)->Some_0,
            },
        )
    } else {
        None
    }
}

/// Whether every item describes a card.
pub open spec fn all_cards(items: Seq<JsonView>) -> bool {
    forall|i: int| 0 <= i < items.len() ==> card_of(#[trigger] items[i]) is Some
}

/// The cards under the member `data`, where it is an array whose every item
/// describes a card.
pub open spec fn data_member(document: JsonView) -> Option<Seq<CardView>> {
    match document.member("data"@) {
        Some(JsonView::List(items)) => if all_cards(items) {
            Some(Seq::new(items.len(), |i: int| card_of(items[i])->Some_0))
        } else {
            None
        },
        _ => None,
    }
}

/// The page of cards that `document` describes: `None` unless it is an object
/// with an array `data` of cards and the page counters `total_pages` and
/// `page`. One item that is no card makes the whole page unreadable.
pub open spec fn cards_of(document: JsonView) -> Option<CardsView> {
    if data_member(document) is Some && integer_member(
        document,
        "total_pages"@,
        i32::MIN as int,
        i32::MAX as int,
    ) is Some && integer_member(document, "page"@, i32::MIN as int, i32::MAX as int) is Some {
        Some(
            CardsView {
                data: data_member(document)->Some_0,
                total_pages: integer_member(
                    document,
                    "total_pages"@,
                    i32::MIN as int,
                    i32::MAX as int,
                )->Some_0,
                page: integer_member(document, "page"@, i32::MIN as int, i32::MAX as int)->Some_0,
            },
        )
    } else {
        None
    }
}

/// The JSON object that a creation payload is written as: five members, in
/// this order, the card type under the name `type`.
pub open spec fn payload_json(payload: CardCreationPayloadView) -> JsonView {
    JsonView::Object(
        seq![
            ("type"@, JsonView::Text(payload.card_type)),
            ("memo"@, JsonView::Text(payload.memo)),
            ("spend_limit"@, JsonView::Integer(payload.spend_limit)),
            ("spend_limit_duration"@, JsonView::Text(payload.spend_limit_duration)),
            ("state"@, JsonView::Text(payload.state)),
        ],
    )
}

/// A document without a member `token` is no card, whatever else it holds.
pub proof fn lemma_card_needs_token(document: JsonView)
    requires
        document.member("token"@) is None,
    ensures
        card_of(document) is None,
{
}

/// A page is read whole or not at all: one item under `data` that is no card
/// leaves no page.
pub proof fn lemma_page_needs_every_card(document: JsonView, items: Seq<JsonView>, i: int)
    requires
        document.member("data"@) == Some(JsonView::List(items)),
        0 <= i < items.len(),
        card_of(items[i]) is None,
    ensures
        cards_of(document) is None,
{
}

/// The cards of a page that was read are the items under `data`, one for one
/// and in their order.
pub proof fn lemma_page_keeps_every_card(document: JsonView)
    requires
        cards_of(document) is Some,
    ensures
        document.member("data"@) matches Some(JsonView::List(items)) && items.len() == cards_of(
            document,
        )->Some_0.data.len() && forall|i: int|
            0 <= i < items.len() ==> card_of(#[trigger] items[i]) == Some(
                cards_of(document)->Some_0.data[i],
            ),
{
}

fn read_text(object: &Json, key: &str) -> (found: Option<String>)
    ensures
        optional_text_view(found) == text_member(object@, key@),
{
    match object.member(key) {
        Some(value) => match value.text() {
            Some(text) => Some(text.clone()),
            None => None,
        },
        None => None,
    }
}

fn read_optional_text(object: &Json, key: &str) -> (found: Option<Option<String>>)
    ensures
        match found {
            Some(text) => optional_text_member(object@, key@) == Some(optional_text_view(text)),
            None => optional_text_member(object@, key@) is None,
        },
{
    match object.member(key) {
        None => Some(None),
        Some(value) => match value {
            Json::Null => Some(None),
            Json::Text(text) => Some(Some(text.clone())),
            _ => None,
        },
    }
}

fn read_optional_secret(object: &Json, key: &str) -> (found: Option<Option<Secret>>)
    ensures
        match found {
            Some(secret) => optional_text_member(object@, key@) == Some(
                optional_secret_view(secret),
            ),
            None => optional_text_member(object@, key@) is None,
        },
{
    match read_optional_text(object, key) {
        Some(Some(text)) => Some(Some(Secret::new(text))),
        Some(None) => Some(None),
        None => None,
    }
}

fn read_integer(object: &Json, key: &str, low: i128, high: i128) -> (found: Option<i128>)
    ensures
        match found {
            Some(n) => integer_member(object@, key@, low as int, high as int) == Some(n as int),
            None => integer_member(object@, key@, low as int, high as int) is None,
        },
{
    match object.member(key) {
        Some(value) => match value.integer() {
            Some(n) => if low <= n && n <= high {
                Some(n)
            } else {
                None
            },
            None => None,
        },
        None => None,
    }
}

fn read_texts(object: &Json, key: &str) -> (found: Option<Vec<String>>)
    ensures
        match found {
            Some(texts) => texts_member(object@, key@) == Some(texts_view(texts@)),
            None => texts_member(object@, key@) is None,
        },
{
    let list = match object.member(key) {
        Some(value) => match value.items() {
            Some(list) => list,
            None => { return None; },
        },
        None => { return None; },
    };
    let ghost items = list@.map_values(|item: Json| item@);
    let mut texts: Vec<String> = Vec::new();
    let mut i: usize = 0;
    while i < list.len()
        invariant
            0 <= i <= list.len(),
            items == list@.map_values(|item: Json| item@),
            object@.member(key@) == Some(JsonView::List(items)),
            texts@.len() == i,
            forall|k: int| 0 <= k < i ==> (#[trigger] items[k]) == JsonView::Text(texts@[k]@),
        decreases list.len() - i,
    {
        match list[i].text() {
            Some(text) => {
                texts.push(text.clone());
            },
            None => {
                assert(!(items[i as int] is Text));
                return None;
            },
        }
        i += 1;
    }
    assert(all_text(items));
    assert(texts_view(texts@) =~= Seq::new(items.len(), |i: int| items[i]->Text_0));
    Some(texts)
}

/// Reads `document` as a funding source.
pub fn decode_funding(document: &Json) -> (decoded: Option<Funding>)
    ensures
        match decoded {
            Some(funding) => funding_of(document@) == Some(funding@),
            None => funding_of(document@) is None,
        },
{
    let created = match read_text(document, "created") {
        Some(text) => text,
        None => { return None; },
    };
    let token = match read_text(document, "token") {
        Some(text) => text,
        None => { return None; },
    };
    let funding_type = match read_text(document, "type") {
        Some(text) => text,
        None => { return None; },
    };
    let state = match read_text(document, "state") {
        Some(text) => text,
        None => { return None; },
    };
    let nickname = match read_optional_text(document, "nickname") {
        Some(text) => text,
        None => { return None; },
    };
    let account_name = match read_text(document, "account_name") {
        Some(text) => text,
        None => { return None; },
    };
    let last_four = match read_text(document, "last_four") {
        Some(text) => text,
        None => { return None; },
    };
    Some(Funding { created, token, funding_type, state, nickname, account_name, last_four })
}

/// Reads `document` as a card. A document that lacks a required member, or
/// holds one of the wrong kind, gives no card at all.
pub fn decode_card(document: &Json) -> (decoded: Option<Card>)
    ensures
        match decoded {
            Some(card) => card_of(document@) == Some(card@),
            None => card_of(document@) is None,
        },
{
    let created = match read_text(document, "created") {
        Some(text) => text,
        None => { return None; },
    };
    let token = match read_text(document, "token") {
        Some(text) => text,
        None => { return None; },
    };
    let last_four = match read_text(document, "last_four") {
        Some(text) => text,
        None => { return None; },
    };
    let hostname = match read_text(document, "hostname") {
        Some(text) => text,
        None => { return None; },
    };
    let memo = match read_text(document, "memo") {
        Some(text) => text,
        None => { return None; },
    };
    let card_type = match read_text(document, "type") {
        Some(text) => text,
        None => { return None; },
    };
    let spend_limit: u32 = match read_integer(document, "spend_limit", 0, 0xffff_ffff) {
        Some(n) => n as u32,
        None => { return None; },
    };
    let spend_limit_duration = match read_text(document, "spend_limit_duration") {
        Some(text) => text,
        None => { return None; },
    };
    let state = match read_text(document, "state") {
        Some(text) => text,
        None => { return None; },
    };
    let funding = match document.member("funding") {
        Some(value) => match decode_funding(value) {
            Some(funding) => funding,
            None => { return None; },
        },
        None => { return None; },
    };
    let auth_rule_tokens = match read_texts(document, "auth_rule_tokens") {
        Some(texts) => texts,
        None => { return None; },
    };
    let pan = match read_optional_secret(document, "pan") {
        Some(secret) => secret,
        None => { return None; },
    };
    let cvv = match read_optional_secret(document, "cvv") {
        Some(secret) => secret,
        None => { return None; },
    };
    let exp_month = match read_text(document, "exp_month") {
        Some(text) => text,
        None => { return None; },
    };
    let exp_year = match read_text(document, "exp_year") {
        Some(text) => text,
        None => { return None; },
    };
    Some(
        Card {
            created,
            token,
            last_four,
            hostname,
            memo,
            card_type,
            spend_limit,
            spend_limit_duration,
            state,
            funding,
            auth_rule_tokens,
            pan,
            cvv,
            exp_month,
            exp_year,
        },
    )
}

fn read_data(document: &Json) -> (found: Option<Vec<Card>>)
    ensures
        match found {
            Some(cards) => data_member(document@) == Some(cards_view(cards@)),
            None => data_member(document@) is None,
        },
{
    let list = match document.member("data") {
        Some(value) => match value.items() {
            Some(list) => list,
            None => { return None; },
        },
        None => { return None; },
    };
    let ghost items = list@.map_values(|item: Json| item@);
    let mut cards: Vec<Card> = Vec::new();
    let mut i: usize = 0;
    while i < list.len()
        invariant
            0 <= i <= list.len(),
            items == list@.map_values(|item: Json| item@),
            document@.member("data"@) == Some(JsonView::List(items)),
            cards@.len() == i,
            forall|k: int| 0 <= k < i ==> card_of(#[trigger] items[k]) == Some(cards@[k]@),
        decreases list.len() - i,
    {
        match decode_card(&list[i]) {
            Some(card) => {
                cards.push(card);
            },
            None => {
                assert(card_of(items[i as int]) is None);
                return None;
            },
        }
        i += 1;
    }
    assert(all_cards(items));
    assert(cards_view(cards@) =~= Seq::new(items.len(), |i: int| card_of(items[i])->Some_0));
    Some(cards)
}

/// Reads `document` as one page of cards.
pub fn decode_cards(document: &Json) -> (decoded: Option<Cards>)
    ensures
        match decoded {
            Some(cards) => cards_of(document@) == Some(cards@),
            None => cards_of(document@) is None,
        },
{
    let data = match read_data(document) {
        Some(cards) => cards,
        None => { return None; },
    };
    let total_pages: i32 = match read_integer(document, "total_pages", -0x8000_0000, 0x7fff_ffff) {
        Some(n) => n as i32,
        None => { return None; },
    };
    let page: i32 = match read_integer(document, "page", -0x8000_0000, 0x7fff_ffff) {
        Some(n) => n as i32,
        None => { return None; },
    };
    Some(Cards { data, total_pages, page })
}

impl CardCreationPayload {
    /// The JSON object that this payload is sent as.
    pub fn to_json(&self) -> (document: Json)
        ensures
            document@ == payload_json(self@),
    {
        let mut members: Vec<(String, Json)> = Vec::new();
        members.push(("type".to_owned(), Json::Text(self.card_type.clone())));
        members.push(("memo".to_owned(), Json::Text(self.memo.clone())));
        members.push(("spend_limit".to_owned(), Json::Integer(self.spend_limit as i128)));
        members.push(
            ("spend_limit_duration".to_owned(), Json::Text(self.spend_limit_duration.clone())),
        );
        members.push(("state".to_owned(), Json::Text(self.state.clone())));
        let document = Json::Object(members);
        proof {
            reveal_with_fuel(value_of, 2);
            assert(document@->Object_0 =~= payload_json(self@)->Object_0);
        }
        document
    }
}

} // verus!

use card::client::{ApiClient, ApiError, Method, Request, Response};
use card::credentials::{CredentialError, CredentialLocation, Environment};
use card::flow::{
    after_browser, after_load, after_save, after_secret, after_send, dispatch, start, Action,
    Awaiting, Command, ExitStatus, Line, Pending, Step, Stream,
};
use card::json::Json;
use card::model::CardCreationPayload;

fn out(text: &str) -> Line {
    Line { stream: Stream::Stdout, text: text.to_string() }
}

fn err(text: &str) -> Line {
    Line { stream: Stream::Stderr, text: text.to_string() }
}

fn nowhere() -> Environment {
    Environment { xdg_data_home: None, home: None }
}

fn at_home() -> Environment {
    Environment { xdg_data_home: None, home: Some("/home/u".to_string()) }
}

fn place() -> CredentialLocation {
    CredentialLocation { directory: "/d".to_string(), file: "/d/key".to_string() }
}

fn create(name: &str, amount: u32) -> Command {
    Command::Create { name: name.to_string(), amount }
}

fn ends(step: &Step, status: ExitStatus) -> bool {
    matches!(&step.action, Action::Exit { status: s } if *s == status)
}

fn sent(step: Step) -> (Request, Awaiting) {
    assert!(step.lines.is_empty());
    match step.action {
        Action::Send { request, then } => (request, then),
        _ => panic!("nothing was sent"),
    }
}

fn text(value: &str) -> Json {
    Json::Text(value.to_string())
}

fn member(name: &str, value: Json) -> (String, Json) {
    (name.to_string(), value)
}

fn card(memo: &str, state: &str) -> Json {
    Json::Object(vec![
        member("created", text("2023-01-01T00:00:00Z")),
        member("token", text("tok-1")),
        member("last_four", text("1234")),
        member("hostname", text("")),
        member("memo", text(memo)),
        member("type", text("SINGLE_USE")),
        member("spend_limit", Json::Integer(5000)),
        member("spend_limit_duration", text("TRANSACTION")),
        member("state", text(state)),
        member(
            "funding",
            Json::Object(vec![
                member("created", text("2022-01-01T00:00:00Z")),
                member("token", text("fund-1")),
                member("type", text("DEPOSITORY_CHECKING")),
                member("state", text("ENABLED")),
                member("nickname", Json::Null),
                member("account_name", text("Checking")),
                member("last_four", text("9876")),
            ]),
        ),
        member("auth_rule_tokens", Json::List(vec![text("rule")])),
        member("pan", text("4111111111111111")),
        member("cvv", text("987")),
        member("exp_month", text("01")),
        member("exp_year", text("2030")),
    ])
}

fn page(items: Vec<Json>) -> Json {
    Json::Object(vec![
        member("data", Json::List(items)),
        member("total_pages", Json::Integer(1)),
        member("page", Json::Integer(1)),
    ])
}

fn answer(status: u16, document: Option<Json>) -> Result<Response, String> {
    Ok(Response { status, body: "raw body 4111111111111111".to_string(), document })
}

#[test]
fn without_a_place_the_listing_says_so_and_stops() {
    let step = start(Command::List, &nowhere());
    assert_eq!(step.lines, vec![out("Cannot determine XDG data directory.")]);
    assert!(ends(&step, ExitStatus::Success));
}

#[test]
fn without_a_place_the_creation_says_so_and_stops() {
    let step = start(create("Groceries", 5000), &nowhere());
    assert_eq!(step.lines, vec![out("Cannot determine XDG data directory.")]);
    assert!(ends(&step, ExitStatus::Success));
}

#[test]
fn a_listing_first_asks_for_the_key_file() {
    let step = start(Command::List, &at_home());
    assert!(step.lines.is_empty());
    match step.action {
        Action::LoadCredential { file, then } => {
            assert_eq!(file, "/home/u/.local/share/card/key");
            assert!(matches!(then, Pending::List));
        }
        _ => panic!("the key file was not asked for"),
    }
}

#[test]
fn a_creation_first_asks_for_the_key_file() {
    let environment =
        Environment { xdg_data_home: Some("/data".to_string()), home: Some("/home/u".to_string()) };
    let step = start(create("Groceries", 5000), &environment);
    assert!(step.lines.is_empty());
    match step.action {
        Action::LoadCredential { file, then } => {
            assert_eq!(file, "/data/card/key");
            match then {
                Pending::Create { name, amount } => {
                    assert_eq!(name, "Groceries");
                    assert_eq!(amount, 5000);
                }
                _ => panic!("the creation was forgotten"),
            }
        }
        _ => panic!("the key file was not asked for"),
    }
}

#[test]
fn without_a_key_file_the_listing_gives_guidance() {
    let step = after_load(Pending::List, Err(CredentialError::NotFound));
    assert_eq!(step.lines, vec![out("Please run 'card auth' to login to privacy.com")]);
    assert!(ends(&step, ExitStatus::Success));
}

#[test]
fn without_a_key_file_the_creation_gives_guidance() {
    let then = Pending::Create { name: "Groceries".to_string(), amount: 5000 };
    let step = after_load(then, Err(CredentialError::NotFound));
    assert_eq!(step.lines, vec![out("Please run 'card auth' to login to privacy.com")]);
    assert!(ends(&step, ExitStatus::Success));
}

#[test]
fn an_unreadable_key_file_is_a_failure() {
    let failure = CredentialError::Io { reason: "Permission denied (os error 13)".to_string() };
    let step = after_load(Pending::List, Err(failure));
    assert_eq!(step.lines, vec![err("Error reading key file: Permission denied (os error 13)")]);
    assert!(ends(&step, ExitStatus::Failure));
}

#[test]
fn the_listing_sends_the_key_it_read() {
    let (request, then) = sent(after_load(Pending::List, Ok("sk_live_abc".to_string())));
    assert_eq!(request.authorization.expose(), "api-key sk_live_abc");
    assert_eq!(request.method, Method::Get);
    assert_eq!(request.url, "https://api.privacy.com/v1/cards");
    assert_eq!(request.content_type, None);
    assert_eq!(request.body, None);
    assert_eq!(then, Awaiting::Cards);
}

#[test]
fn the_creation_sends_the_key_it_read() {
    let pending = Pending::Create { name: "Groceries".to_string(), amount: 5000 };
    let (request, then) = sent(after_load(pending, Ok("sk_live_abc".to_string())));
    assert_eq!(request.authorization.expose(), "api-key sk_live_abc");
    assert_eq!(request.method, Method::Post);
    assert_eq!(request.url, "https://api.privacy.com/v1/cards");
    assert_eq!(request.content_type, Some("application/json".to_string()));
    let payload = CardCreationPayload::single_use("Groceries".to_string(), 5000);
    assert_eq!(request.body, Some(payload.to_json()));
    assert_eq!(then, Awaiting::Created);
}

#[test]
fn the_contents_of_the_key_file_are_not_trimmed() {
    let (request, _) = sent(after_load(Pending::List, Ok(" sk_live_abc\r\n".to_string())));
    assert_eq!(request.authorization.expose(), "api-key  sk_live_abc\r\n");
}

#[test]
fn a_key_that_was_saved_is_sent_as_it_was_typed() {
    for secret in ["sk_live_abc", "", "tr\u{e4}iling \n", "\u{0}\u{1f511}"] {
        let step = after_secret(Some(place()), Ok(secret.to_string()));
        assert!(step.lines.is_empty());
        let written = match step.action {
            Action::SaveCredential { location, secret } => {
                assert_eq!(location.directory, "/d");
                assert_eq!(location.file, "/d/key");
                secret.expose().to_string()
            }
            _ => panic!("the key was not saved"),
        };
        assert_eq!(written, secret);
        let (request, _) = sent(after_load(Pending::List, Ok(written)));
        assert_eq!(request.authorization.expose(), format!("api-key {}", secret));
    }
}

#[test]
fn the_memos_of_the_open_cards_are_listed() {
    let document = page(vec![
        card("first", "OPEN"),
        card("second", "CLOSED"),
        card("third", "OPEN"),
        card("fourth", "open"),
    ]);
    let step = after_send(Awaiting::Cards, answer(200, Some(document)));
    assert_eq!(step.lines, vec![out("first"), out("third")]);
    assert!(ends(&step, ExitStatus::Success));
}

#[test]
fn an_empty_page_lists_nothing() {
    let step = after_send(Awaiting::Cards, answer(200, Some(page(Vec::new()))));
    assert!(step.lines.is_empty());
    assert!(ends(&step, ExitStatus::Success));
}

#[test]
fn a_listing_that_fails_says_why() {
    let refused = after_send(Awaiting::Cards, answer(401, Some(page(Vec::new()))));
    assert_eq!(refused.lines, vec![err("Error: the service answered with status 401")]);
    assert!(ends(&refused, ExitStatus::Failure));
    let lost = after_send(Awaiting::Cards, Err("connection reset".to_string()));
    assert_eq!(lost.lines, vec![err("Error: request failed: connection reset")]);
    assert!(ends(&lost, ExitStatus::Failure));
    let garbled = after_send(Awaiting::Cards, answer(200, None));
    assert_eq!(garbled.lines, vec![err("Error: the service's answer has an unexpected shape")]);
    assert!(ends(&garbled, ExitStatus::Failure));
}

#[test]
fn a_page_with_a_broken_card_lists_nothing() {
    let broken = Json::Object(vec![member("memo", text("half a card")), member("state", text("OPEN"))]);
    let document = page(vec![card("first", "OPEN"), broken]);
    let step = after_send(Awaiting::Cards, answer(200, Some(document)));
    assert_eq!(step.lines, vec![err("Error: the service's answer has an unexpected shape")]);
    assert!(ends(&step, ExitStatus::Failure));
}

#[test]
fn a_new_card_is_confirmed_without_its_numbers() {
    let step = after_send(Awaiting::Created, answer(200, Some(card("Groceries", "OPEN"))));
    assert_eq!(step.lines, vec![out("Card created")]);
    assert!(ends(&step, ExitStatus::Success));
}

#[test]
fn a_creation_that_fails_says_why() {
    let refused = after_send(Awaiting::Created, answer(422, None));
    assert_eq!(refused.lines, vec![err("Error: the service answered with status 422")]);
    assert!(ends(&refused, ExitStatus::Failure));
    let lost = after_send(Awaiting::Created, Err("timed out".to_string()));
    assert_eq!(lost.lines, vec![err("Error: request failed: timed out")]);
    assert!(ends(&lost, ExitStatus::Failure));
    let garbled = after_send(Awaiting::Created, answer(200, Some(Json::Null)));
    assert_eq!(garbled.lines, vec![err("Error: the service's answer has an unexpected shape")]);
    assert!(ends(&garbled, ExitStatus::Failure));
}

#[test]
fn no_line_holds_a_card_number_or_the_body() {
    let steps = vec![
        after_send(Awaiting::Cards, answer(200, Some(page(vec![card("memo", "OPEN")])))),
        after_send(Awaiting::Created, answer(200, Some(card("memo", "OPEN")))),
        after_send(Awaiting::Cards, answer(500, None)),
        after_send(Awaiting::Created, answer(500, None)),
    ];
    for step in steps {
        for line in step.lines {
            assert!(!line.text.contains("4111111111111111"));
            assert!(!line.text.contains("987"));
            assert!(!line.text.contains("raw body"));
        }
    }
}

#[test]
fn the_authentication_opens_the_account_page() {
    let step = start(Command::Auth, &at_home());
    assert_eq!(step.lines, vec![out("Opening 'https://app.privacy.com/account' in your browser...")]);
    match step.action {
        Action::OpenBrowser { url, then } => {
            assert_eq!(url, "https://app.privacy.com/account");
            let location = then.unwrap();
            assert_eq!(location.directory, "/home/u/.local/share/card");
            assert_eq!(location.file, "/home/u/.local/share/card/key");
        }
        _ => panic!("the browser was not asked for"),
    }
}

#[test]
fn the_authentication_starts_even_without_a_place() {
    let step = start(Command::Auth, &nowhere());
    assert_eq!(step.lines.len(), 1);
    assert!(matches!(step.action, Action::OpenBrowser { then: None, .. }));
}

#[test]
fn a_browser_that_opened_leads_to_the_prompt() {
    let step = after_browser(Some(place()), true);
    assert!(step.lines.is_empty());
    match step.action {
        Action::PromptSecret { prompt, then } => {
            assert_eq!(prompt, "Enter your secret key: ");
            assert_eq!(then.unwrap().file, "/d/key");
        }
        _ => panic!("the key was not asked for"),
    }
}

#[test]
fn a_browser_that_did_not_open_is_no_end() {
    let step = after_browser(None, false);
    assert_eq!(step.lines, vec![err("Failed to open the authentication URL.")]);
    assert!(matches!(step.action, Action::PromptSecret { then: None, .. }));
}

#[test]
fn a_key_without_a_place_is_not_saved() {
    let step = after_secret(None, Ok("sk_live_abc".to_string()));
    assert_eq!(step.lines, vec![out("Cannot determine XDG data directory.")]);
    assert!(ends(&step, ExitStatus::Success));
}

#[test]
fn a_key_that_could_not_be_read_is_a_failure() {
    let step = after_secret(Some(place()), Err("not a terminal".to_string()));
    assert_eq!(step.lines, vec![err("Failed to read the secret key: not a terminal")]);
    assert!(ends(&step, ExitStatus::Failure));
}

#[test]
fn a_saved_key_is_confirmed() {
    let step = after_save(Ok(()));
    assert_eq!(step.lines, vec![out("Key saved successfully.")]);
    assert!(ends(&step, ExitStatus::Success));
}

#[test]
fn a_key_that_could_not_be_saved_is_a_failure() {
    let step = after_save(Err("Read-only file system (os error 30)".to_string()));
    assert_eq!(step.lines, vec![err("Failed to save key: Read-only file system (os error 30)")]);
    assert!(ends(&step, ExitStatus::Failure));
}

#[test]
fn the_whole_listing_without_any_variable_is_one_line() {
    let mut printed = Vec::new();
    let mut step = start(Command::List, &nowhere());
    let mut actions = 0;
    loop {
        printed.extend(step.lines);
        step = match step.action {
            Action::Exit { status } => {
                assert_eq!(status, ExitStatus::Success);
                break;
            }
            Action::LoadCredential { then, .. } => {
                actions += 1;
                after_load(then, Err(CredentialError::NotFound))
            }
            _ => panic!("something was done beyond the message"),
        };
    }
    assert_eq!(actions, 0);
    assert_eq!(printed, vec![out("Cannot determine XDG data directory.")]);
}

#[test]
fn the_whole_listing_without_a_key_file_sends_nothing() {
    for command in [Command::List, create("Groceries", 5000)] {
        let mut printed = Vec::new();
        let mut step = start(command, &at_home());
        loop {
            printed.extend(step.lines);
            step = match step.action {
                Action::Exit { status } => {
                    assert_eq!(status, ExitStatus::Success);
                    break;
                }
                Action::LoadCredential { file, then } => {
                    assert_eq!(file, "/home/u/.local/share/card/key");
                    after_load(then, Err(CredentialError::NotFound))
                }
                Action::Send { .. } => panic!("a request was sent"),
                _ => panic!("something else was done"),
            };
        }
        assert_eq!(printed, vec![out("Please run 'card auth' to login to privacy.com")]);
    }
}

#[test]
fn a_request_that_formed_is_handed_over() {
    let request = ApiClient::new("k").get("cards");
    let (request, then) = sent(dispatch(request, Awaiting::Created));
    assert_eq!(request.url, "https://api.privacy.com/v1/cards");
    assert_eq!(then, Awaiting::Created);
}

#[test]
fn a_request_that_did_not_form_ends_the_command() {
    let step = dispatch(Err(ApiError::Url), Awaiting::Cards);
    assert_eq!(step.lines, vec![err("Error: cannot form the address of the request")]);
    assert!(ends(&step, ExitStatus::Failure));
}

//! The three commands as steps. Each function here takes what has just
//! happened and says what to print and what to do next; the caller prints,
//! acts, and comes back with the outcome.

use crate::client::{
    card_received, cards_received, exchange_view, receive_card, receive_cards,
    request_result_view, requested,
    ApiClient, ApiError, ApiErrorView, Method, Request, RequestView, Response, ResponseView,
    CARDS_ENDPOINT,
};
use crate::credentials::{
    resolve_path, resolved, CredentialError, CredentialErrorView, CredentialLocation,
    CredentialLocationView, Environment, EnvironmentView,
};
use crate::model::{
    cards_view, open_among, single_use_payload, Card, CardCreationPayload, CardView, Secret,
};
use crate::wire::payload_json;
use vstd::prelude::*;

verus! {

/// The page on which the user finds the API key.
pub const ACCOUNT_URL: &'static str = "https://app.privacy.com/account";

/// Said where no place for the key can be worked out.
pub const NO_DIRECTORY: &'static str = "Cannot determine XDG data directory.";

/// Said where there is no key yet.
pub const GUIDANCE: &'static str = "Please run 'card auth' to login to privacy.com";

/// Shown before the key is typed; the line is left open.
pub const SECRET_PROMPT: &'static str = "Enter your secret key: ";

/// What the user asked for.
pub enum Command {
    /// List the open cards.
    List,
    /// Store the API key.
    Auth,
    /// Create a single-use card labelled `name` with the spend limit `amount`.
    Create { name: String, amount: u32 },
}

pub enum CommandView {
    List,
    Auth,
    Create { name: Seq<char>, amount: int },
}

impl View for Command {
    type V = CommandView;

    open spec fn view(&self) -> CommandView {
        match self {
            Command::List => CommandView::List,
            Command::Auth => CommandView::Auth,
            Command::Create { name, amount } => CommandView::Create {
                name: name@,
                amount: *amount as int,
            },
        }
    }
}

/// Where a line of output goes.
#[derive(Clone, Copy, Debug, PartialEq, Eq, Structural)]
pub enum Stream {
    /// Ordinary output.
    Stdout,
    /// Diagnostics.
    Stderr,
}

/// One line to print.
#[derive(Debug, PartialEq, Eq)]
pub struct Line {
    pub stream: Stream,
    pub text: String,
}

pub struct LineView {
    pub stream: Stream,
    pub text: Seq<char>,
}

impl View for Line {
    type V = LineView;

    open spec fn view(&self) -> LineView {
        LineView { stream: self.stream, text: self.text@ }
    }
}

/// How the command ends.
#[derive(Clone, Copy, Debug, PartialEq, Eq, Structural)]
pub enum ExitStatus {
    Success,
    Failure,
}

/// What a command that needs the key does once it has it.
pub enum Pending {
    List,
    Create { name: String, amount: u32 },
}

pub enum PendingView {
    List,
    Create { name: Seq<char>, amount: int },
}

impl View for Pending {
    type V = PendingView;

    open spec fn view(&self) -> PendingView {
        match self {
            Pending::List => PendingView::List,
            Pending::Create { name, amount } => PendingView::Create {
                name: name@,
                amount: *amount as int,
            },
        }
    }
}

/// What the answer to a request is read as.
#[derive(Clone, Copy, Debug, PartialEq, Eq, Structural)]
pub enum Awaiting {
    /// A page of cards.
    Cards,
    /// The card that was created.
    Created,
}

/// What the caller does next. An action that brings an outcome back names, in
/// `then`, what the step after it needs to know.
pub enum Action {
    /// Stop.
    Exit { status: ExitStatus },
    /// Read the key file.
    LoadCredential { file: String, then: Pending },
    /// Send the request.
    Send { request: Request, then: Awaiting },
    /// Show the page `url` in the user's browser.
    OpenBrowser { url: String, then: Option<CredentialLocation> },
    /// Ask for the key without showing what is typed.
    PromptSecret { prompt: String, then: Option<CredentialLocation> },
    /// Make the directory if it is missing, then write the key as the whole
    /// file.
    SaveCredential { location: CredentialLocation, secret: Secret },
}

pub enum ActionView {
    Exit { status: ExitStatus },
    LoadCredential { file: Seq<char>, then: PendingView },
    Send { request: RequestView, then: Awaiting },
    OpenBrowser { url: Seq<char>, then: Option<CredentialLocationView> },
    PromptSecret { prompt: Seq<char>, then: Option<CredentialLocationView> },
    SaveCredential { location: CredentialLocationView, secret: Seq<char> },
}

/// The view of a place that may be unknown.
pub open spec fn optional_location_view(location: Option<CredentialLocation>) -> Option<
    CredentialLocationView,
> {
    match location {
        Some(location) => Some(location@),
        None => None,
    }
}

impl View for Action {
    type V = ActionView;

    open spec fn view(&self) -> ActionView {
        match self {
            Action::Exit { status } => ActionView::Exit { status: *status },
            Action::LoadCredential { file, then } => ActionView::LoadCredential {
                file: file@,
                then: then@,
            },
            Action::Send { request, then } => ActionView::Send { request: request@, then: *then },
            Action::OpenBrowser { url, then } => ActionView::OpenBrowser {
                url: url@,
                then: optional_location_view(*then),
            },
            Action::PromptSecret { prompt, then } => ActionView::PromptSecret {
                prompt: prompt@,
                then: optional_location_view(*then),
            },
            Action::SaveCredential { location, secret } => ActionView::SaveCredential {
                location: location@,
                secret: secret@,
            },
        }
    }
}

/// What to print now, and what to do after that.
pub struct Step {
    pub lines: Vec<Line>,
    pub action: Action,
}

pub struct StepView {
    pub lines: Seq<LineView>,
    pub action: ActionView,
}

/// The views of some lines, in order.
pub open spec fn lines_view(lines: Seq<Line>) -> Seq<LineView> {
    lines.map_values(|line: Line| line@)
}

impl View for Step {
    type V = StepView;

    open spec fn view(&self) -> StepView {
        StepView { lines: lines_view(self.lines@), action: self.action@ }
    }
}

/// A line of ordinary output.
pub open spec fn said(text: Seq<char>) -> LineView {
    LineView { stream: Stream::Stdout, text }
}

/// A line of diagnostics.
pub open spec fn complained(text: Seq<char>) -> LineView {
    LineView { stream: Stream::Stderr, text }
}

/// The last step of a command: these lines, then the end.
pub open spec fn ending(lines: Seq<LineView>, status: ExitStatus) -> StepView {
    StepView { lines, action: ActionView::Exit { status } }
}

/// A step that prints nothing.
pub open spec fn silently(action: ActionView) -> StepView {
    StepView { lines: Seq::empty(), action }
}

/// The end of a command that the service failed: the error in words, and a
/// failing exit.
pub open spec fn failing(error: ApiErrorView) -> StepView {
    ending(seq![complained("Error: "@ + error.message())], ExitStatus::Failure)
}

/// The announcement that opens the authentication.
pub open spec fn opening_notice() -> Seq<char> {
    "Opening '"@ + ACCOUNT_URL@ + "' in your browser..."@
}

/// What a listing or a creation does first: it asks for the key file, or says
/// that there is no place for one.
pub open spec fn asking_for_key(then: PendingView, environment: EnvironmentView) -> StepView {
    match resolved(environment) {
        Some(location) => silently(ActionView::LoadCredential { file: location.file, then }),
        None => ending(seq![said(NO_DIRECTORY@)], ExitStatus::Success),
    }
}

/// The first step of `command` in `environment`.
pub open spec fn started(command: CommandView, environment: EnvironmentView) -> StepView {
    match command {
        CommandView::List => asking_for_key(PendingView::List, environment),
        CommandView::Create { name, amount } => asking_for_key(
            PendingView::Create { name, amount },
            environment,
        ),
        CommandView::Auth => StepView {
            lines: seq![said(opening_notice())],
            action: ActionView::OpenBrowser { url: ACCOUNT_URL@, then: resolved(environment) },
        },
    }
}

/// The request that `then` stands for, sent with the key `key`.
pub open spec fn request_after(then: PendingView, key: Seq<char>) -> Result<
    RequestView,
    ApiErrorView,
> {
    match then {
        PendingView::List => requested(key, Method::Get, CARDS_ENDPOINT@, None),
        PendingView::Create { name, amount } => requested(
            key,
            Method::Post,
            CARDS_ENDPOINT@,
            Some(payload_json(single_use_payload(name, amount))),
        ),
    }
}

/// What the answer to the request of `then` is read as.
pub open spec fn awaited(then: PendingView) -> Awaiting {
    match then {
        PendingView::List => Awaiting::Cards,
        PendingView::Create { .. } => Awaiting::Created,
    }
}

/// The step that sends a request that formed, and the failing end for one
/// that did not.
pub open spec fn dispatched(request: Result<RequestView, ApiErrorView>, then: Awaiting) -> StepView {
    match request {
        Ok(request) => silently(ActionView::Send { request, then }),
        Err(error) => failing(error),
    }
}

/// The view of what reading the key file came to.
pub open spec fn load_view(outcome: Result<String, CredentialError>) -> Result<
    Seq<char>,
    CredentialErrorView,
> {
    match outcome {
        Ok(contents) => Ok(contents@),
        Err(error) => Err(error@),
    }
}

/// The step after the key file was read. Without a file the user is told how
/// to get one, and that is no failure; a file that cannot be read is one. The
/// contents of the file are the key, character for character.
pub open spec fn loaded(then: PendingView, outcome: Result<Seq<char>, CredentialErrorView>) -> StepView {
    match outcome {
        Err(CredentialErrorView::NotFound) => ending(seq![said(GUIDANCE@)], ExitStatus::Success),
        Err(CredentialErrorView::Io { reason }) => ending(
            seq![complained("Error reading key file: "@ + reason)],
            ExitStatus::Failure,
        ),
        Ok(key) => dispatched(request_after(then, key), awaited(then)),
    }
}

/// One line of ordinary output for each card: its memo.
pub open spec fn memo_lines(cards: Seq<CardView>) -> Seq<LineView> {
    cards.map_values(|card: CardView| said(card.memo))
}

/// The step after the service answered, or failed to. A page of cards is
/// shown as the memos of its open cards, in the page's order; of a new card
/// nothing is shown but that it exists.
pub open spec fn answered(then: Awaiting, exchange: Result<ResponseView, Seq<char>>) -> StepView {
    match then {
        Awaiting::Cards => match cards_received(exchange) {
            Ok(cards) => ending(memo_lines(open_among(cards.data)), ExitStatus::Success),
            Err(error) => failing(error),
        },
        Awaiting::Created => match card_received(exchange) {
            Ok(_) => ending(seq![said("Card created"@)], ExitStatus::Success),
            Err(error) => failing(error),
        },
    }
}

/// The step after the browser was asked to show the account page. That it
/// could not is said, and the authentication goes on.
pub open spec fn browsed(then: Option<CredentialLocationView>, opened: bool) -> StepView {
    StepView {
        lines: if opened {
            Seq::empty()
        } else {
            seq![complained("Failed to open the authentication URL."@)]
        },
        action: ActionView::PromptSecret { prompt: SECRET_PROMPT@, then },
    }
}

/// The view of what asking for the key came to: the key, or the terminal's
/// reason for having none.
pub open spec fn entry_view(entered: Result<String, String>) -> Result<Seq<char>, Seq<char>> {
    match entered {
        Ok(secret) => Ok(secret@),
        Err(reason) => Err(reason@),
    }
}

/// The step after the user was asked for the key. What was typed is saved as
/// it is.
pub open spec fn entered_key(
    then: Option<CredentialLocationView>,
    entered: Result<Seq<char>, Seq<char>>,
) -> StepView {
    match entered {
        Err(reason) => ending(
            seq![complained("Failed to read the secret key: "@ + reason)],
            ExitStatus::Failure,
        ),
        Ok(secret) => match then {
            Some(location) => silently(ActionView::SaveCredential { location, secret }),
            None => ending(seq![said(NO_DIRECTORY@)], ExitStatus::Success),
        },
    }
}

/// The view of what saving the key came to.
pub open spec fn save_view(outcome: Result<(), String>) -> Result<(), Seq<char>> {
    match outcome {
        Ok(_) => Ok(()),
        Err(reason) => Err(reason@),
    }
}

/// The step after the key was saved, or was not.
pub open spec fn saved(outcome: Result<(), Seq<char>>) -> StepView {
    match outcome {
        Ok(_) => ending(seq![said("Key saved successfully."@)], ExitStatus::Success),
        Err(reason) => ending(
            seq![complained("Failed to save key: "@ + reason)],
            ExitStatus::Failure,
        ),
    }
}

/// Only the step after the key file was read ever sends anything, and then
/// only where the file was read: the request then carries `api-key`, a space
/// and the file's contents, unchanged, as its authorization.
pub proof fn lemma_only_a_loaded_key_sends(
    command: CommandView,
    environment: EnvironmentView,
    then: PendingView,
    outcome: Result<Seq<char>, CredentialErrorView>,
    awaiting: Awaiting,
    exchange: Result<ResponseView, Seq<char>>,
    target: Option<CredentialLocationView>,
    opened: bool,
    entered: Result<Seq<char>, Seq<char>>,
    save: Result<(), Seq<char>>,
)
    ensures
        !(started(command, environment).action is Send),
        !(answered(awaiting, exchange).action is Send),
        !(browsed(target, opened).action is Send),
        !(entered_key(target, entered).action is Send),
        !(saved(save).action is Send),
        loaded(then, outcome).action matches ActionView::Send { request, .. } ==> outcome is Ok
            && request.authorization == "api-key "@ + outcome->Ok_0,
{
}

/// Without a key file a listing or a creation prints the guidance, sends
/// nothing and ends without failure.
pub proof fn lemma_missing_key_gives_guidance(then: PendingView)
    ensures
        loaded(then, Err(CredentialErrorView::NotFound)) == ending(
            seq![said(GUIDANCE@)],
            ExitStatus::Success,
        ),
        !(loaded(then, Err(CredentialErrorView::NotFound)).action is Send),
{
}

/// With neither variable set, every command comes to the same end without
/// reading, writing or sending: a listing and a creation at once, the
/// authentication once the key was typed.
pub proof fn lemma_nowhere_to_keep_the_key(command: CommandView, secret: Seq<char>)
    ensures
        !(command is Auth) ==> started(
            command,
            EnvironmentView { xdg_data_home: None, home: None },
        ) == ending(seq![said(NO_DIRECTORY@)], ExitStatus::Success),
        entered_key(None, Ok(secret)) == ending(seq![said(NO_DIRECTORY@)], ExitStatus::Success),
{
}

/// The key is kept as it was typed: the authentication hands exactly
/// `secret` over to be written, and a later command that reads exactly that
/// back sends it unchanged.
pub proof fn lemma_key_is_kept_verbatim(
    location: CredentialLocationView,
    secret: Seq<char>,
    then: PendingView,
)
    ensures
        entered_key(Some(location), Ok(secret)).action == (ActionView::SaveCredential {
            location,
            secret,
        }),
        loaded(then, Ok(secret)).action matches ActionView::Send { request, .. }
            ==> request.authorization == "api-key "@ + secret,
{
}

/// Nothing that is printed depends on the key: two keys give the same lines.
pub proof fn lemma_output_hides_the_key(then: PendingView, key: Seq<char>, other: Seq<char>)
    ensures
        loaded(then, Ok(key)).lines == loaded(then, Ok(other)).lines,
{
}

fn say(text: String) -> (line: Line)
    ensures
        line@ == said(text@),
{
    Line { stream: Stream::Stdout, text }
}

fn complain(text: String) -> (line: Line)
    ensures
        line@ == complained(text@),
{
    Line { stream: Stream::Stderr, text }
}

fn end_with(line: Line, status: ExitStatus) -> (step: Step)
    ensures
        step@ == ending(seq![line@], status),
{
    let mut lines: Vec<Line> = Vec::new();
    lines.push(line);
    assert(lines_view(lines@) =~= seq![line@]);
    Step { lines, action: Action::Exit { status } }
}

fn proceed(action: Action) -> (step: Step)
    ensures
        step@ == silently(action@),
{
    let lines: Vec<Line> = Vec::new();
    assert(lines_view(lines@) =~= Seq::<LineView>::empty());
    Step { lines, action }
}

fn fail(error: &ApiError) -> (step: Step)
    ensures
        step@ == failing(error@),
{
    let mut text = "Error: ".to_owned();
    let message = error.message();
    text.append(message.as_str());
    end_with(complain(text), ExitStatus::Failure)
}

fn ask_for_key(then: Pending, environment: &Environment) -> (step: Step)
    ensures
        step@ == asking_for_key(then@, environment@),
{
    match resolve_path(environment) {
        Some(location) => proceed(Action::LoadCredential { file: location.file, then }),
        None => end_with(say(NO_DIRECTORY.to_owned()), ExitStatus::Success),
    }
}

/// Begins `command`. Nothing has been read or sent yet; `environment` is what
/// the caller found in the process environment.
pub fn start(command: Command, environment: &Environment) -> (step: Step)
    ensures
        step@ == started(command@, environment@),
{
    match command {
        Command::List => ask_for_key(Pending::List, environment),
        Command::Create { name, amount } => ask_for_key(
            Pending::Create { name, amount },
            environment,
        ),
        Command::Auth => {
            let mut notice = "Opening '".to_owned();
            notice.append(ACCOUNT_URL);
            notice.append("' in your browser...");
            let mut lines: Vec<Line> = Vec::new();
            let line = say(notice);
            lines.push(line);
            assert(lines_view(lines@) =~= seq![said(opening_notice())]);
            Step {
                lines,
                action: Action::OpenBrowser {
                    url: ACCOUNT_URL.to_owned(),
                    then: resolve_path(environment),
                },
            }
        },
    }
}

/// Hands `request` over to be sent, to be answered as `then` says; a request
/// that did not form ends the command instead.
pub fn dispatch(request: Result<Request, ApiError>, then: Awaiting) -> (step: Step)
    ensures
        step@ == dispatched(request_result_view(request), then),
{
    match request {
        Ok(request) => proceed(Action::Send { request, then }),
        Err(error) => fail(&error),
    }
}

/// Goes on after the key file was read: `outcome` holds its contents, or why
/// there are none.
pub fn after_load(then: Pending, outcome: Result<String, CredentialError>) -> (step: Step)
    ensures
        step@ == loaded(then@, load_view(outcome)),
{
    match outcome {
        Err(CredentialError::NotFound) => end_with(say(GUIDANCE.to_owned()), ExitStatus::Success),
        Err(CredentialError::Io { reason }) => {
            let mut text = "Error reading key file: ".to_owned();
            text.append(reason.as_str());
            end_with(complain(text), ExitStatus::Failure)
        },
        Ok(contents) => {
            let client = ApiClient::new(contents.as_str());
            let (request, awaiting) = match then {
                Pending::List => (client.list(), Awaiting::Cards),
                Pending::Create { name, amount } => {
                    let payload = CardCreationPayload::single_use(name, amount);
                    (client.create_card(&payload), Awaiting::Created)
                },
            };
            dispatch(request, awaiting)
        },
    }
}

fn show_memos(cards: &Vec<Card>) -> (lines: Vec<Line>)
    ensures
        lines_view(lines@) == memo_lines(cards_view(cards@)),
{
    let mut lines: Vec<Line> = Vec::new();
    let mut i: usize = 0;
    while i < cards.len()
        invariant
            0 <= i <= cards.len(),
            lines@.len() == i,
            forall|k: int| 0 <= k < i ==> (#[trigger] lines@[k])@ == said(cards@[k]@.memo),
        decreases cards.len() - i,
    {
        lines.push(say(cards[i].memo.clone()));
        i += 1;
    }
    assert(lines_view(lines@) =~= memo_lines(cards_view(cards@)));
    lines
}

/// Goes on after the request was sent: `exchange` holds the response, or the
/// transport's reason for having none.
pub fn after_send(then: Awaiting, exchange: Result<Response, String>) -> (step: Step)
    ensures
        step@ == answered(then, exchange_view(exchange)),
{
    match then {
        Awaiting::Cards => match receive_cards(exchange) {
            Ok(cards) => {
                let open = cards.open_cards();
                Step { lines: show_memos(&open), action: Action::Exit { status: ExitStatus::Success } }
            },
            Err(error) => fail(&error),
        },
        Awaiting::Created => match receive_card(exchange) {
            Ok(_) => end_with(say("Card created".to_owned()), ExitStatus::Success),
            Err(error) => fail(&error),
        },
    }
}

/// Goes on after the browser was asked to show the account page.
pub fn after_browser(then: Option<CredentialLocation>, opened: bool) -> (step: Step)
    ensures
        step@ == browsed(optional_location_view(then), opened),
{
    let mut lines: Vec<Line> = Vec::new();
    if !opened {
        let line = complain("Failed to open the authentication URL.".to_owned());
        lines.push(line);
        assert(lines_view(lines@) =~= seq![line@]);
    } else {
        assert(lines_view(lines@) =~= Seq::<LineView>::empty());
    }
    Step { lines, action: Action::PromptSecret { prompt: SECRET_PROMPT.to_owned(), then } }
}

/// Goes on after the user was asked for the key: `entered` holds what was
/// typed, or the terminal's reason for having nothing.
pub fn after_secret(then: Option<CredentialLocation>, entered: Result<String, String>) -> (step:
    Step)
    ensures
        step@ == entered_key(optional_location_view(then), entry_view(entered)),
{
    match entered {
        Err(reason) => {
            let mut text = "Failed to read the secret key: ".to_owned();
            text.append(reason.as_str());
            end_with(complain(text), ExitStatus::Failure)
        },
        Ok(secret) => match then {
            Some(location) => proceed(
                Action::SaveCredential { location, secret: Secret::new(secret) },
            ),
            None => end_with(say(NO_DIRECTORY.to_owned()), ExitStatus::Success),
        },
    }
}

/// Goes on after the key was saved: `outcome` holds the file system's reason
/// where it was not.
pub fn after_save(outcome: Result<(), String>) -> (step: Step)
    ensures
        step@ == saved(save_view(outcome)),
{
    match outcome {
        Ok(_) => end_with(say("Key saved successfully.".to_owned()), ExitStatus::Success),
        Err(reason) => {
            let mut text = "Failed to save key: ".to_owned();
            text.append(reason.as_str());
            end_with(complain(text), ExitStatus::Failure)
        },
    }
}

} // verus!

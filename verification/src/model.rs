//! The records exchanged with the card service, each with its mathematical view.

use vstd::prelude::*;

verus! {

/// A string that must not reach any output: the API key, a card number, a
/// security code. It has no `Debug`, and its text is read only through
/// [`Secret::expose`].
pub struct Secret {
    value: String,
}

impl View for Secret {
    type V = Seq<char>;

    closed spec fn view(&self) -> Seq<char> {
        self.value@
    }
}

impl Secret {
    /// Wraps `value` unchanged.
    pub fn new(value: String) -> (secret: Secret)
        ensures
            secret@ == value@,
    {
        Secret { value }
    }

    /// The wrapped text, exactly as it was given.
    pub fn expose(&self) -> (text: &str)
        ensures
            text@ == self@,
    {
        self.value.as_str()
    }
}

impl Clone for Secret {
    fn clone(&self) -> (copy: Secret)
        ensures
            copy@ == self@,
    {
        Secret { value: self.value.clone() }
    }
}

/// The view of an optional string.
pub open spec fn optional_text_view(text: Option<String>) -> Option<Seq<char>> {
    match text {
        Some(text) => Some(text@),
        None => None,
    }
}

/// The view of an optional secret.
pub open spec fn optional_secret_view(secret: Option<Secret>) -> Option<Seq<char>> {
    match secret {
        Some(secret) => Some(secret@),
        None => None,
    }
}

/// The views of a list of strings, in order.
pub open spec fn texts_view(texts: Seq<String>) -> Seq<Seq<char>> {
    texts.map_values(|text: String| text@)
}

/// The funding source behind a card.
pub struct Funding {
    pub created: String,
    pub token: String,
    pub funding_type: String,
    pub state: String,
    pub nickname: Option<String>,
    pub account_name: String,
    pub last_four: String,
}

pub struct FundingView {
    pub created: Seq<char>,
    pub token: Seq<char>,
    pub funding_type: Seq<char>,
    pub state: Seq<char>,
    pub nickname: Option<Seq<char>>,
    pub account_name: Seq<char>,
    pub last_four: Seq<char>,
}

impl View for Funding {
    type V = FundingView;

    open spec fn view(&self) -> FundingView {
        FundingView {
            created: self.created@,
            token: self.token@,
            funding_type: self.funding_type@,
            state: self.state@,
            nickname: optional_text_view(self.nickname),
            account_name: self.account_name@,
            last_four: self.last_four@,
        }
    }
}

impl Clone for Funding {
    fn clone(&self) -> (copy: Funding)
        ensures
            copy@ == self@,
    {
        Funding {
            created: self.created.clone(),
            token: self.token.clone(),
            funding_type: self.funding_type.clone(),
            state: self.state.clone(),
            nickname: match &self.nickname {
                Some(nickname) => Some(nickname.clone()),
                None => None,
            },
            account_name: self.account_name.clone(),
            last_four: self.last_four.clone(),
        }
    }
}

/// A virtual payment card, as the service described it at one moment.
pub struct Card {
    pub created: String,
    pub token: String,
    pub last_four: String,
    pub hostname: String,
    pub memo: String,
    pub card_type: String,
    /// In minor units of the currency.
    pub spend_limit: u32,
    pub spend_limit_duration: String,
    pub state: String,
    pub funding: Funding,
    pub auth_rule_tokens: Vec<String>,
    pub pan: Option<Secret>,
    pub cvv: Option<Secret>,
    pub exp_month: String,
    pub exp_year: String,
}

pub struct CardView {
    pub created: Seq<char>,
    pub token: Seq<char>,
    pub last_four: Seq<char>,
    pub hostname: Seq<char>,
    pub memo: Seq<char>,
    pub card_type: Seq<char>,
    pub spend_limit: int,
    pub spend_limit_duration: Seq<char>,
    pub state: Seq<char>,
    pub funding: FundingView,
    pub auth_rule_tokens: Seq<Seq<char>>,
    pub pan: Option<Seq<char>>,
    pub cvv: Option<Seq<char>>,
    pub exp_month: Seq<char>,
    pub exp_year: Seq<char>,
}

impl CardView {
    /// A card counts as open when its state is exactly `OPEN`.
    pub open spec fn is_open(self) -> bool {
        self.state == "OPEN"@
    }
}

impl View for Card {
    type V = CardView;

    open spec fn view(&self) -> CardView {
        CardView {
            created: self.created@,
            token: self.token@,
            last_four: self.last_four@,
            hostname: self.hostname@,
            memo: self.memo@,
            card_type: self.card_type@,
            spend_limit: self.spend_limit as int,
            spend_limit_duration: self.spend_limit_duration@,
            state: self.state@,
            funding: self.funding@,
            auth_rule_tokens: texts_view(self.auth_rule_tokens@),
            pan: optional_secret_view(self.pan),
            cvv: optional_secret_view(self.cvv),
            exp_month: self.exp_month@,
            exp_year: self.exp_year@,
        }
    }
}

/// A copy of `texts`, string by string.
pub fn clone_texts(texts: &Vec<String>) -> (copy: Vec<String>)
    ensures
        texts_view(copy@) == texts_view(texts@),
{
    let mut copy: Vec<String> = Vec::new();
    let mut i: usize = 0;
    while i < texts.len()
        invariant
            0 <= i <= texts.len(),
            copy@.len() == i,
            forall|k: int| 0 <= k < i ==> copy@[k]@ == texts@[k]@,
        decreases texts.len() - i,
    {
        copy.push(texts[i].clone());
        i += 1;
    }
    assert(texts_view(copy@) =~= texts_view(texts@));
    copy
}

impl Card {
    /// Whether the card's state is exactly `OPEN`.
    pub fn is_open(&self) -> (open: bool)
        ensures
            open == self@.is_open(),
    {
        let wanted: String = "OPEN".to_owned();
        self.state == wanted
    }
}

impl Clone for Card {
    fn clone(&self) -> (copy: Card)
        ensures
            copy@ == self@,
    {
        Card {
            created: self.created.clone(),
            token: self.token.clone(),
            last_four: self.last_four.clone(),
            hostname: self.hostname.clone(),
            memo: self.memo.clone(),
            card_type: self.card_type.clone(),
            spend_limit: self.spend_limit,
            spend_limit_duration: self.spend_limit_duration.clone(),
            state: self.state.clone(),
            funding: self.funding.clone(),
            auth_rule_tokens: clone_texts(&self.auth_rule_tokens),
            pan: match &self.pan {
                Some(pan) => Some(pan.clone()),
                None => None,
            },
            cvv: match &self.cvv {
                Some(cvv) => Some(cvv.clone()),
                None => None,
            },
            exp_month: self.exp_month.clone(),
            exp_year: self.exp_year.clone(),
        }
    }
}

/// The views of a list of cards, in order.
pub open spec fn cards_view(cards: Seq<Card>) -> Seq<CardView> {
    cards.map_values(|card: Card| card@)
}

/// The cards of `cards` that are open, in their original order.
pub open spec fn open_among(cards: Seq<CardView>) -> Seq<CardView> {
    cards.filter(|card: CardView| card.is_open())
}

/// The positions in `cards` of the cards that are open, in rising order.
pub open spec fn open_positions(cards: Seq<CardView>) -> Seq<int>
    decreases cards.len(),
{
    if cards.len() == 0 {
        Seq::empty()
    } else if cards.last().is_open() {
        open_positions(cards.drop_last()).push(cards.len() - 1)
    } else {
        open_positions(cards.drop_last())
    }
}

/// Keeping the open cards neither reorders nor invents nor loses a card: the
/// cards kept are the cards at the positions `open_positions(cards)`, one for
/// one; those positions rise strictly; and a position is among them exactly
/// when the card there is open.
pub proof fn lemma_open_cards_keep_order(cards: Seq<CardView>)
    ensures
        open_positions(cards).len() == open_among(cards).len(),
        forall|k: int|
            0 <= k < open_positions(cards).len() ==> 0 <= (#[trigger] open_positions(cards)[k])
                < cards.len() && open_among(cards)[k] == cards[open_positions(cards)[k]],
        forall|k: int, l: int|
            0 <= k < l < open_positions(cards).len() ==> open_positions(cards)[k]
                < open_positions(cards)[l],
        forall|j: int|
            0 <= j < cards.len() ==> (cards[j].is_open() <==> open_positions(cards).contains(j)),
    decreases cards.len(),
{
    reveal(Seq::filter);
    if cards.len() > 0 {
        let rest = cards.drop_last();
        let last = cards.len() - 1;
        lemma_open_cards_keep_order(rest);
        let at = open_positions(cards);
        let before = open_positions(rest);
        assert forall|j: int| 0 <= j < cards.len() implies (cards[j].is_open() <==> at.contains(
            j,
        )) by {
            if j < last {
                assert(cards[j] == rest[j]);
                assert(rest[j].is_open() <==> before.contains(j));
                if before.contains(j) {
                    let k = choose|k: int| 0 <= k < before.len() && before[k] == j;
                    assert(at[k] == j);
                }
                if at.contains(j) {
                    let k = choose|k: int| 0 <= k < at.len() && at[k] == j;
                    assert(k < before.len());
                    assert(before[k] == j);
                }
            } else {
                if cards[j].is_open() {
                    assert(at[at.len() - 1] == j);
                }
                if at.contains(j) {
                    let k = choose|k: int| 0 <= k < at.len() && at[k] == j;
                    if k < before.len() {
                        assert(before[k] < rest.len());
                    }
                }
            }
        }
    }
}

/// Whether no two of `cards` share a token, as the service promises of the
/// cards of one page.
pub open spec fn tokens_distinct(cards: Seq<CardView>) -> bool {
    forall|i: int, j: int|
        #![trigger cards[i], cards[j]]
        0 <= i < j < cards.len() ==> cards[i].token != cards[j].token
}

/// Among cards with distinct tokens the open ones have distinct tokens too.
pub proof fn lemma_open_cards_keep_tokens_distinct(cards: Seq<CardView>)
    requires
        tokens_distinct(cards),
    ensures
        tokens_distinct(open_among(cards)),
{
    lemma_open_cards_keep_order(cards);
    let open = open_among(cards);
    let at = open_positions(cards);
    assert forall|k: int, l: int| 0 <= k < l < open.len() implies open[k].token
        != open[l].token by {
        assert(at[k] < at[l]);
        assert(open[k] == cards[at[k]]);
        assert(open[l] == cards[at[l]]);
    }
}

/// One page of cards.
pub struct Cards {
    pub data: Vec<Card>,
    pub total_pages: i32,
    pub page: i32,
}

pub struct CardsView {
    pub data: Seq<CardView>,
    pub total_pages: int,
    pub page: int,
}

impl View for Cards {
    type V = CardsView;

    open spec fn view(&self) -> CardsView {
        CardsView {
            data: cards_view(self.data@),
            total_pages: self.total_pages as int,
            page: self.page as int,
        }
    }
}

impl Cards {
    /// Whether no two cards of this page share a token.
    pub fn has_distinct_tokens(&self) -> (distinct: bool)
        ensures
            distinct == tokens_distinct(self@.data),
    {
        let ghost all = self@.data;
        let mut j: usize = 0;
        while j < self.data.len()
            invariant
                0 <= j <= self.data.len(),
                all == cards_view(self.data@),
                forall|a: int, b: int|
                    #![trigger all[a], all[b]]
                    0 <= a < b < j ==> all[a].token != all[b].token,
            decreases self.data.len() - j,
        {
            let mut i: usize = 0;
            while i < j
                invariant
                    0 <= i <= j < self.data.len(),
                    all == cards_view(self.data@),
                    forall|a: int| 0 <= a < i ==> (#[trigger] all[a]).token != all[j as int].token,
                decreases j - i,
            {
                if self.data[i].token == self.data[j].token {
                    assert(all[i as int].token == all[j as int].token);
                    return false;
                }
                i += 1;
            }
            j += 1;
        }
        true
    }

    /// The open cards of this page, in the order in which the page lists them.
    pub fn open_cards(&self) -> (open: Vec<Card>)
        ensures
            cards_view(open@) == open_among(self@.data),
    {
        let ghost all = self@.data;
        let ghost keep = |card: CardView| card.is_open();
        let mut open: Vec<Card> = Vec::new();
        let mut i: usize = 0;
        proof {
            reveal(Seq::filter);
            assert(all.take(0).filter(keep) =~= Seq::<CardView>::empty());
            assert(cards_view(open@) =~= Seq::<CardView>::empty());
        }
        while i < self.data.len()
            invariant
                0 <= i <= self.data.len(),
                all == cards_view(self.data@),
                keep == |card: CardView| card.is_open(),
                cards_view(open@) == all.take(i as int).filter(keep),
            decreases self.data.len() - i,
        {
            let ghost before = cards_view(open@);
            proof {
                reveal(Seq::filter);
                assert(all.take(i as int + 1).drop_last() =~= all.take(i as int));
                assert(all.take(i as int + 1).last() == self.data@[i as int]@);
            }
            if self.data[i].is_open() {
                open.push(self.data[i].clone());
                assert(cards_view(open@) =~= before.push(self.data@[i as int]@));
            }
            i += 1;
        }
        assert(all.take(i as int) =~= all);
        open
    }
}

/// What is sent to have a card created.
pub struct CardCreationPayload {
    pub card_type: String,
    pub memo: String,
    pub spend_limit: u32,
    pub spend_limit_duration: String,
    pub state: String,
}

pub struct CardCreationPayloadView {
    pub card_type: Seq<char>,
    pub memo: Seq<char>,
    pub spend_limit: int,
    pub spend_limit_duration: Seq<char>,
    pub state: Seq<char>,
}

impl View for CardCreationPayload {
    type V = CardCreationPayloadView;

    open spec fn view(&self) -> CardCreationPayloadView {
        CardCreationPayloadView {
            card_type: self.card_type@,
            memo: self.memo@,
            spend_limit: self.spend_limit as int,
            spend_limit_duration: self.spend_limit_duration@,
            state: self.state@,
        }
    }
}

/// The payload for a single-use card: one transaction, open from the start.
pub open spec fn single_use_payload(memo: Seq<char>, spend_limit: int) -> CardCreationPayloadView {
    CardCreationPayloadView {
        card_type: "SINGLE_USE"@,
        memo,
        spend_limit,
        spend_limit_duration: "TRANSACTION"@,
        state: "OPEN"@,
    }
}

impl CardCreationPayload {
    /// The payload for a single-use card labelled `memo` that may spend up to
    /// `spend_limit`.
    pub fn single_use(memo: String, spend_limit: u32) -> (payload: CardCreationPayload)
        ensures
            payload@ == single_use_payload(memo@, spend_limit as int),
    {
        CardCreationPayload {
            card_type: "SINGLE_USE".to_owned(),
            memo,
            spend_limit,
            spend_limit_duration: "TRANSACTION".to_owned(),
            state: "OPEN".to_owned(),
        }
    }
}

} // verus!

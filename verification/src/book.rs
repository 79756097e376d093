use vstd::prelude::*;
use vstd::string::StringExecFns;
use crate::text::same_text;
use crate::json::{json_of, parse_json, Json};
use crate::strmap::StrMap;

verus! {

/// The top of the book of one outcome token. Prices are in millionths of
/// one unit of payout.
#[derive(Clone, Copy, Debug, PartialEq, Eq, Structural)]
pub struct TokenBook {
    pub best_bid: i64,
    pub best_ask: i64,
    pub mid: i64,
    pub timestamp_ms: u64,
}

/// The latest top of book of every token that has been heard of.
pub type BookSnapshot = StrMap<TokenBook>;

/// The midpoint of a bid and an ask, rounded down; zero unless both are
/// positive.
pub open spec fn midpoint(best_bid: int, best_ask: int) -> int {
    if best_bid > 0 && best_ask > 0 {
        (best_bid + best_ask) / 2
    } else {
        0
    }
}

/// The midpoint that the snapshot gives for a token; zero for a token that
/// it does not hold.
pub open spec fn mid_of(books: Map<Seq<char>, TokenBook>, token: Seq<char>) -> int {
    if books.dom().contains(token) {
        books[token].mid as int
    } else {
        0
    }
}

impl TokenBook {
    /// The book has the midpoint of its bid and ask.
    pub open spec fn consistent(self) -> bool {
        self.mid == midpoint(self.best_bid as int, self.best_ask as int)
    }

    /// The top of book with the given bid and ask, seen at `now_ms`.
    pub fn quoted(best_bid: i64, best_ask: i64, now_ms: u64) -> (book: TokenBook)
        ensures
            book.best_bid == best_bid,
            book.best_ask == best_ask,
            book.timestamp_ms == now_ms,
            book.consistent(),
    {
        let mid: i64 = if best_bid > 0 && best_ask > 0 {
            ((best_bid as i128 + best_ask as i128) / 2) as i64
        } else {
            0
        };
        TokenBook { best_bid, best_ask, mid, timestamp_ms: now_ms }
    }
}

/// The midpoint of a token in the snapshot; zero for a token without book.
pub fn token_mid(books: &BookSnapshot, token: &str) -> (mid: i64)
    ensures
        mid == mid_of(books@, token@),
{
    match books.get(token) {
        Some(book) => book.mid,
        None => 0,
    }
}

/// The number of decimal places in which prices and sizes are carried.
pub const PLACES: u32 = 6;

/// The price of one level of a book, where the level counts: its price and
/// its size are strings that write decimal numbers, and the size is above
/// zero. The price may be any number.
pub open spec fn level_price(level: Json) -> Option<i64> {
    match (level.member("price"@), level.member("size"@)) {
        (Some(price), Some(size)) => if size.text_positive() {
            price.text_decimal(PLACES as nat)
        } else {
            None
        },
        _ => None,
    }
}

/// The highest price among the levels that count, and zero where none
/// counts or none has a price above zero.
pub open spec fn best_bid_of(levels: Seq<Json>) -> i64
    decreases levels.len(),
{
    if levels.len() == 0 {
        0
    } else {
        let rest = best_bid_of(levels.drop_last());
        match level_price(levels.last()) {
            Some(p) => if p > rest {
                p
            } else {
                rest
            },
            None => rest,
        }
    }
}

/// The lowest price among the levels that count; nothing where none
/// counts.
pub open spec fn lowest_ask(levels: Seq<Json>) -> Option<i64>
    decreases levels.len(),
{
    if levels.len() == 0 {
        None
    } else {
        let rest = lowest_ask(levels.drop_last());
        match level_price(levels.last()) {
            Some(p) => match rest {
                Some(low) => if p < low {
                    Some(p)
                } else {
                    Some(low)
                },
                None => Some(p),
            },
            None => rest,
        }
    }
}

/// The lowest price among the levels that count; zero where none counts.
pub open spec fn best_ask_of(levels: Seq<Json>) -> i64 {
    match lowest_ask(levels) {
        Some(low) => low,
        None => 0,
    }
}

/// The top of book that a full or partial book message gives: the highest
/// bid and the lowest ask of the levels that it lists. Nothing where the
/// message lacks the list of bids or of asks.
pub open spec fn book_update_of(v: Json, now_ms: u64) -> Option<TokenBook> {
    match (v.member("bids"@), v.member("asks"@)) {
        (Some(bids), Some(asks)) => match (bids.items(), asks.items()) {
            (Some(b), Some(a)) => Some(
                TokenBook {
                    best_bid: best_bid_of(b),
                    best_ask: best_ask_of(a),
                    mid: midpoint(best_bid_of(b) as int, best_ask_of(a) as int) as i64,
                    timestamp_ms: now_ms,
                },
            ),
            _ => None,
        },
        _ => None,
    }
}

/// The bid and the ask that a best-bid-and-ask message names.
pub open spec fn best_bid_ask_of(v: Json) -> Option<(i64, i64)> {
    match (v.member("best_bid"@), v.member("best_ask"@)) {
        (Some(bid), Some(ask)) => match (
            bid.text_decimal(PLACES as nat),
            ask.text_decimal(PLACES as nat),
        ) {
            (Some(b), Some(a)) => Some((b, a)),
            _ => None,
        },
        _ => None,
    }
}

/// The kind of a message: the text of its member `event_type`, or the
/// empty text.
pub open spec fn event_type_of(v: Json) -> Seq<char> {
    match v.text_member("event_type"@) {
        Some(t) => t,
        None => Seq::<char>::empty(),
    }
}

/// The token that a message speaks of, and the top of book that it gives
/// for it at `now_ms`. Nothing for a message without token, of another
/// kind, or without the numbers of its kind.
pub open spec fn message_update(v: Json, now_ms: u64) -> Option<(Seq<char>, TokenBook)> {
    match v.text_member("asset_id"@) {
        Some(token) => {
            if token.len() == 0 {
                None
            } else if event_type_of(v) == "book"@ || event_type_of(v) == "price_change"@ {
                match book_update_of(v, now_ms) {
                    Some(book) => Some((token, book)),
                    None => None,
                }
            } else if event_type_of(v) == "best_bid_ask"@ {
                match best_bid_ask_of(v) {
                    Some((bid, ask)) => Some(
                        (
                            token,
                            TokenBook {
                                best_bid: bid,
                                best_ask: ask,
                                mid: midpoint(bid as int, ask as int) as i64,
                                timestamp_ms: now_ms,
                            },
                        ),
                    ),
                    None => None,
                }
            } else {
                None
            }
        },
        None => None,
    }
}

/// The snapshot after a message: the token of an accepted message has the
/// top of book that the message gives; any other message changes nothing.
pub open spec fn snapshot_after(
    books: Map<Seq<char>, TokenBook>,
    message: Option<Json>,
    now_ms: u64,
) -> Map<Seq<char>, TokenBook> {
    match message {
        Some(v) => match message_update(v, now_ms) {
            Some((token, book)) => books.insert(token, book),
            None => books,
        },
        None => books,
    }
}

/// The price of a level, where it counts.
pub fn parse_level(level: &Json) -> (price: Option<i64>)
    ensures
        price == level_price(*level),
{
    let p: Option<i64> = match level.get("price") {
        Some(v) => v.str_as_decimal(PLACES),
        None => None,
    };
    let q: bool = match level.get("size") {
        Some(v) => v.str_is_positive(),
        None => false,
    };
    match (p, q) {
        (Some(p), true) => Some(p),
        _ => None,
    }
}

/// The highest bid of a list of levels.
pub fn best_bid(levels: &Vec<Json>) -> (best: i64)
    ensures
        best == best_bid_of(levels@),
        best >= 0,
{
    let mut best: i64 = 0;
    let mut i: usize = 0;
    while i < levels.len()
        invariant
            i <= levels@.len(),
            best == best_bid_of(levels@.take(i as int)),
            best >= 0,
        decreases levels@.len() - i,
    {
        proof {
            assert(levels@.take(i + 1).drop_last() == levels@.take(i as int));
        }
        match parse_level(&levels[i]) {
            Some(p) => {
                if p > best {
                    best = p;
                }
            },
            None => {},
        }
        i = i + 1;
    }
    proof {
        assert(levels@.take(levels@.len() as int) == levels@);
    }
    best
}

/// The lowest ask of a list of levels; zero where no level counts.
pub fn best_ask(levels: &Vec<Json>) -> (best: i64)
    ensures
        best == best_ask_of(levels@),
{
    let mut lowest: Option<i64> = None;
    let mut i: usize = 0;
    while i < levels.len()
        invariant
            i <= levels@.len(),
            lowest == lowest_ask(levels@.take(i as int)),
        decreases levels@.len() - i,
    {
        proof {
            assert(levels@.take(i + 1).drop_last() == levels@.take(i as int));
        }
        match parse_level(&levels[i]) {
            Some(p) => {
                lowest = match lowest {
                    Some(low) => if p < low {
                        Some(p)
                    } else {
                        Some(low)
                    },
                    None => Some(p),
                };
            },
            None => {},
        }
        i = i + 1;
    }
    proof {
        assert(levels@.take(levels@.len() as int) == levels@);
    }
    match lowest {
        Some(low) => low,
        None => 0,
    }
}

/// The top of book that a full or partial book message gives.
pub fn parse_book_update(v: &Json, now_ms: u64) -> (book: Option<TokenBook>)
    ensures
        book == book_update_of(*v, now_ms),
        book is Some ==> book->0.consistent(),
{
    let bids: &Vec<Json> = match v.get("bids") {
        Some(b) => match b.as_array() {
            Some(items) => items,
            None => {
                return None;
            },
        },
        None => {
            return None;
        },
    };
    let asks: &Vec<Json> = match v.get("asks") {
        Some(a) => match a.as_array() {
            Some(items) => items,
            None => {
                return None;
            },
        },
        None => {
            return None;
        },
    };
    Some(TokenBook::quoted(best_bid(bids), best_ask(asks), now_ms))
}

/// The bid and the ask that a best-bid-and-ask message names.
pub fn parse_best_bid_ask(v: &Json) -> (pair: Option<(i64, i64)>)
    ensures
        pair == best_bid_ask_of(*v),
{
    let bid: Option<i64> = match v.get("best_bid") {
        Some(b) => b.str_as_decimal(PLACES),
        None => None,
    };
    let ask: Option<i64> = match v.get("best_ask") {
        Some(a) => a.str_as_decimal(PLACES),
        None => None,
    };
    match (bid, ask) {
        (Some(b), Some(a)) => Some((b, a)),
        _ => None,
    }
}

/// The token and the top of book that a parsed message gives.
pub fn update_from_message(v: &Json, now_ms: u64) -> (update: Option<(String, TokenBook)>)
    ensures
        match update {
            Some((token, book)) => message_update(*v, now_ms) == Some((token@, book)),
            None => message_update(*v, now_ms) is None,
        },
{
    let token: &str = match v.get_str("asset_id") {
        Some(t) => t,
        None => {
            return None;
        },
    };
    if token.unicode_len() == 0 {
        return None;
    }
    let kind: &str = match v.get_str("event_type") {
        Some(k) => k,
        None => "",
    };
    proof {
        reveal_strlit("");
        assert(kind@ == event_type_of(*v));
    }
    if same_text(kind, "book") || same_text(kind, "price_change") {
        match parse_book_update(v, now_ms) {
            Some(book) => Some((String::from_str(token), book)),
            None => None,
        }
    } else if same_text(kind, "best_bid_ask") {
        match parse_best_bid_ask(v) {
            Some((bid, ask)) => Some((String::from_str(token), TokenBook::quoted(bid, ask, now_ms))),
            None => None,
        }
    } else {
        None
    }
}

/// Takes one message of the order-book stream into the snapshot. The
/// result says whether the snapshot changed and is to be published.
pub fn process_clob_message(text: &str, books: &mut BookSnapshot, now_ms: u64) -> (changed: bool)
    ensures
        final(books)@ == snapshot_after(old(books)@, json_of(text@), now_ms),
        changed == (json_of(text@) is Some && message_update(json_of(text@)->0, now_ms) is Some),
{
    match parse_json(text) {
        Some(v) => apply_message(&v, books, now_ms),
        None => false,
    }
}

/// Takes one parsed message into the snapshot.
pub fn apply_message(v: &Json, books: &mut BookSnapshot, now_ms: u64) -> (changed: bool)
    ensures
        final(books)@ == snapshot_after(old(books)@, Some(*v), now_ms),
        changed == message_update(*v, now_ms) is Some,
{
    match update_from_message(v, now_ms) {
        Some((token, book)) => {
            books.insert(token, book);
            true
        },
        None => false,
    }
}

/// The state of the order-book hub: the tokens that the upstream has been
/// asked for, and the latest top of book of each token heard of.
pub struct BookHub {
    pub subscribed: StrMap<()>,
    pub books: BookSnapshot,
}

/// The tokens of a list that are not known yet, in the order of the list.
pub open spec fn fresh_tokens(tokens: Seq<String>, known: Set<Seq<char>>) -> Seq<String>
    decreases tokens.len(),
{
    if tokens.len() == 0 {
        Seq::<String>::empty()
    } else {
        let rest = fresh_tokens(tokens.drop_last(), known);
        if known.contains(tokens.last()@) {
            rest
        } else {
            rest.push(tokens.last())
        }
    }
}

/// The set of the tokens of a list.
pub open spec fn token_set(tokens: Seq<String>) -> Set<Seq<char>> {
    Set::new(|t: Seq<char>| exists|i: int| 0 <= i < tokens.len() && (#[trigger] tokens[i])@ == t)
}

/// The hub before it has heard of any token: nothing subscribed, no book.
pub fn spawn_clob_ws() -> (hub: BookHub)
    ensures
        hub.subscribed@ == Map::<Seq<char>, ()>::empty(),
        hub.books@ == Map::<Seq<char>, TokenBook>::empty(),
{
    BookHub { subscribed: StrMap::new(), books: StrMap::new() }
}

impl BookHub {
    /// The tokens of a request that the upstream has not been asked for
    /// yet. Only these go into a subscribe frame; where there are none, no
    /// frame is sent.
    pub fn new_tokens(&self, tokens: &Vec<String>) -> (fresh: Vec<String>)
        ensures
            fresh@ == fresh_tokens(tokens@, self.subscribed@.dom()),
    {
        let mut fresh: Vec<String> = Vec::new();
        let mut i: usize = 0;
        while i < tokens.len()
            invariant
                i <= tokens@.len(),
                fresh@ == fresh_tokens(tokens@.take(i as int), self.subscribed@.dom()),
            decreases tokens@.len() - i,
        {
            proof {
                assert(tokens@.take(i + 1).drop_last() == tokens@.take(i as int));
            }
            if !self.subscribed.contains_key(tokens[i].as_str()) {
                fresh.push(tokens[i].clone());
            }
            i = i + 1;
        }
        proof {
            assert(tokens@.take(tokens@.len() as int) == tokens@);
        }
        fresh
    }

    /// Records that the upstream has been asked for these tokens.
    pub fn mark_subscribed(&mut self, tokens: &Vec<String>)
        ensures
            final(self).subscribed@.dom() == old(self).subscribed@.dom().union(token_set(tokens@)),
            final(self).books == old(self).books,
    {
        let mut i: usize = 0;
        while i < tokens.len()
            invariant
                i <= tokens@.len(),
                self.books == old(self).books,
                self.subscribed@.dom() == old(self).subscribed@.dom().union(
                    token_set(tokens@.take(i as int)),
                ),
            decreases tokens@.len() - i,
        {
            let ghost before = self.subscribed@.dom();
            self.subscribed.insert(tokens[i].clone(), ());
            proof {
                let head = tokens@.take(i as int);
                let next = tokens@.take(i + 1);
                assert(next[i as int] == tokens@[i as int]);
                assert forall|t: Seq<char>| #[trigger]
                    token_set(next).contains(t) == (token_set(head).contains(t) || t
                        == tokens@[i as int]@) by {
                    if token_set(next).contains(t) {
                        let j = choose|j: int| 0 <= j < next.len() && (#[trigger] next[j])@ == t;
                        if j < i {
                            assert(head[j]@ == t);
                        }
                    }
                    if token_set(head).contains(t) {
                        let j = choose|j: int| 0 <= j < head.len() && (#[trigger] head[j])@ == t;
                        assert(next[j]@ == t);
                    }
                }
                assert(self.subscribed@.dom() =~= old(self).subscribed@.dom().union(
                    token_set(next),
                ));
            }
            i = i + 1;
        }
        proof {
            assert(tokens@.take(tokens@.len() as int) == tokens@);
        }
    }

    /// Every token that the upstream has been asked for, in the order in
    /// which they were first asked for. After a reconnect the subscribe
    /// frame names them all.
    pub fn subscribed_tokens(&self) -> (all: Vec<String>)
        ensures
            all@.len() == self.subscribed.key_seq().len(),
            forall|i: int| 0 <= i < all@.len() ==> (#[trigger] all@[i])@ == self.subscribed.key_seq()[i],
            token_set(all@) == self.subscribed@.dom(),
    {
        let n: usize = self.subscribed.len();
        let mut all: Vec<String> = Vec::new();
        let mut i: usize = 0;
        while i < n
            invariant
                i <= n,
                n == self.subscribed.key_seq().len(),
                all@.len() == i,
                forall|j: int| 0 <= j < i ==> (#[trigger] all@[j])@ == self.subscribed.key_seq()[j],
            decreases n - i,
        {
            all.push(self.subscribed.key_at(i).clone());
            i = i + 1;
        }
        proof {
            assert forall|t: Seq<char>| #[trigger]
                token_set(all@).contains(t) == self.subscribed@.dom().contains(t) by {
                if token_set(all@).contains(t) {
                    let j = choose|j: int| 0 <= j < all@.len() && (#[trigger] all@[j])@ == t;
                    assert(self.subscribed.key_seq()[j] == t);
                    assert(self.subscribed.key_seq().to_set().contains(t));
                }
                if self.subscribed@.dom().contains(t) {
                    assert(self.subscribed.key_seq().to_set().contains(t));
                    let j = choose|j: int|
                        0 <= j < self.subscribed.key_seq().len() && self.subscribed.key_seq()[j]
                            == t;
                    assert(all@[j]@ == t);
                }
            }
            assert(token_set(all@) =~= self.subscribed@.dom());
        }
        all
    }

    /// Takes one message of the upstream into the snapshot.
    pub fn on_message(&mut self, text: &str, now_ms: u64) -> (changed: bool)
        ensures
            final(self).books@ == snapshot_after(old(self).books@, json_of(text@), now_ms),
            final(self).subscribed == old(self).subscribed,
            changed == (json_of(text@) is Some && message_update(json_of(text@)->0, now_ms)
                is Some),
    {
        process_clob_message(text, &mut self.books, now_ms)
    }
}

/// The wait before the hub connects again, in milliseconds.
pub const RECONNECT_DELAY_MS: u64 = 1_000;

/// The pause between two keep-alive pings, in milliseconds.
pub const PING_INTERVAL_MS: u64 = 10_000;

/// The time for which the first requests are gathered into one, in
/// milliseconds.
pub const BATCH_WINDOW_MS: u64 = 500;

/// What happened at the hub.
#[derive(Debug)]
pub enum HubEvent {
    /// The upstream is connected.
    Connected,
    /// The upstream sent a text message.
    Message { text: String },
    /// Reading from the upstream failed, or the upstream closed.
    Disconnected,
    /// A lifecycle asks for the books of these tokens.
    Requested { tokens: Vec<String> },
    /// The subscribe frame for these tokens was sent, or could not be.
    SubscribeSent { tokens: Vec<String>, sent: bool },
    /// Every lifecycle is gone.
    RequestsClosed,
}

/// What the hub is to do.
#[derive(Debug)]
pub enum HubAction {
    /// Send a subscribe frame that names these tokens.
    Subscribe { tokens: Vec<String> },
    /// Publish the snapshot.
    Publish,
    /// Drop the connection, wait, and connect again.
    Reconnect { delay_ms: u64 },
    /// End the hub.
    Stop,
    /// Nothing is to be done.
    Nothing,
}

impl BookHub {
    /// Takes one event in and says what is to be done.
    ///
    /// Once connected, the hub asks again for every token that it had asked
    /// for. A request is cut down to the tokens that are new, and one
    /// without new tokens is answered with nothing. Tokens count as asked
    /// for once their frame was sent; a frame that could not be sent, like
    /// any failure of the upstream, makes the hub connect again.
    pub fn step(&mut self, event: HubEvent, now_ms: u64) -> (action: HubAction)
        ensures
            match event {
                HubEvent::Connected => {
                    &&& *final(self) == *old(self)
                    &&& old(self).subscribed@.dom().len() == 0 ==> action is Nothing
                    &&& old(self).subscribed@.dom().len() > 0 ==> action is Subscribe && token_set(
                        action->Subscribe_tokens@,
                    ) == old(self).subscribed@.dom()
                },
                HubEvent::Message { text } => {
                    &&& final(self).subscribed == old(self).subscribed
                    &&& final(self).books@ == snapshot_after(
                        old(self).books@,
                        json_of(text@),
                        now_ms,
                    )
                    &&& action is Publish || action is Nothing
                    &&& action is Publish <==> (json_of(text@) is Some && message_update(
                        json_of(text@)->0,
                        now_ms,
                    ) is Some)
                },
                HubEvent::Disconnected => *final(self) == *old(self) && action == (
                HubAction::Reconnect { delay_ms: RECONNECT_DELAY_MS }),
                HubEvent::Requested { tokens } => {
                    &&& *final(self) == *old(self)
                    &&& token_set(tokens@).subset_of(old(self).subscribed@.dom()) ==> action
                        is Nothing
                    &&& !token_set(tokens@).subset_of(old(self).subscribed@.dom()) ==> action
                        is Subscribe && action->Subscribe_tokens@ == fresh_tokens(
                        tokens@,
                        old(self).subscribed@.dom(),
                    )
                },
                HubEvent::SubscribeSent { tokens, sent } => {
                    &&& final(self).books == old(self).books
                    &&& sent ==> action is Nothing && final(self).subscribed@.dom() == old(
                        self,
                    ).subscribed@.dom().union(token_set(tokens@))
                    &&& !sent ==> action == (HubAction::Reconnect { delay_ms: RECONNECT_DELAY_MS })
                        && final(self).subscribed == old(self).subscribed
                },
                HubEvent::RequestsClosed => *final(self) == *old(self) && action is Stop,
            },
    {
        match event {
            HubEvent::Connected => {
                if self.subscribed.len() == 0 {
                    HubAction::Nothing
                } else {
                    HubAction::Subscribe { tokens: self.subscribed_tokens() }
                }
            },
            HubEvent::Message { text } => {
                if self.on_message(text.as_str(), now_ms) {
                    HubAction::Publish
                } else {
                    HubAction::Nothing
                }
            },
            HubEvent::Disconnected => HubAction::Reconnect { delay_ms: RECONNECT_DELAY_MS },
            HubEvent::Requested { tokens } => {
                let fresh: Vec<String> = self.new_tokens(&tokens);
                proof {
                    lemma_fresh_tokens(tokens@, self.subscribed@.dom());
                }
                if fresh.len() == 0 {
                    HubAction::Nothing
                } else {
                    HubAction::Subscribe { tokens: fresh }
                }
            },
            HubEvent::SubscribeSent { tokens, sent } => {
                if sent {
                    self.mark_subscribed(&tokens);
                    HubAction::Nothing
                } else {
                    HubAction::Reconnect { delay_ms: RECONNECT_DELAY_MS }
                }
            },
            HubEvent::RequestsClosed => HubAction::Stop,
        }
    }
}

/// The tokens of several requests as one: the requests one after the
/// other.
pub open spec fn merged(requests: Seq<Vec<String>>) -> Seq<String>
    decreases requests.len(),
{
    if requests.len() == 0 {
        Seq::<String>::empty()
    } else {
        merged(requests.drop_last()) + requests.last()@
    }
}

/// Gathers the requests that came in together into one.
pub fn merge_requests(requests: &Vec<Vec<String>>) -> (tokens: Vec<String>)
    ensures
        tokens@ == merged(requests@),
{
    let mut tokens: Vec<String> = Vec::new();
    let mut i: usize = 0;
    while i < requests.len()
        invariant
            i <= requests@.len(),
            tokens@ == merged(requests@.take(i as int)),
        decreases requests@.len() - i,
    {
        let request: &Vec<String> = &requests[i];
        let ghost start = tokens@;
        let mut j: usize = 0;
        while j < request.len()
            invariant
                j <= request@.len(),
                tokens@ == start + request@.take(j as int),
            decreases request@.len() - j,
        {
            tokens.push(request[j].clone());
            assert(tokens@ =~= start + request@.take(j + 1));
            j = j + 1;
        }
        proof {
            assert(request@.take(request@.len() as int) == request@);
            assert(requests@.take(i + 1).drop_last() == requests@.take(i as int));
            assert(requests@.take(i + 1).last() == requests@[i as int]);
        }
        i = i + 1;
    }
    proof {
        assert(requests@.take(requests@.len() as int) == requests@);
    }
    tokens
}

/// None of the tokens picked as new is known, each stands in the request,
/// and a request whose tokens are all known picks none: it is a no-op and
/// no frame is sent for it.
pub proof fn lemma_fresh_tokens(tokens: Seq<String>, known: Set<Seq<char>>)
    ensures
        forall|i: int|
            0 <= i < fresh_tokens(tokens, known).len() ==> !known.contains(
                (#[trigger] fresh_tokens(tokens, known)[i])@,
            ) && token_set(tokens).contains(fresh_tokens(tokens, known)[i]@),
        token_set(tokens).subset_of(known) <==> fresh_tokens(tokens, known).len() == 0,
    decreases tokens.len(),
{
    if tokens.len() > 0 {
        let head = tokens.drop_last();
        lemma_fresh_tokens(head, known);
        let fresh = fresh_tokens(tokens, known);
        assert forall|i: int| 0 <= i < fresh.len() implies !known.contains((#[trigger] fresh[i])@)
            && token_set(tokens).contains(fresh[i]@) by {
            if i < fresh_tokens(head, known).len() {
                let t = fresh_tokens(head, known)[i]@;
                assert(token_set(head).contains(t));
                let j = choose|j: int| 0 <= j < head.len() && (#[trigger] head[j])@ == t;
                assert(tokens[j]@ == t);
            } else {
                assert(tokens[tokens.len() - 1]@ == fresh[i]@);
            }
        }
        if token_set(tokens).subset_of(known) {
            assert forall|t: Seq<char>| token_set(head).contains(t) implies known.contains(t) by {
                let j = choose|j: int| 0 <= j < head.len() && (#[trigger] head[j])@ == t;
                assert(tokens[j]@ == t);
                assert(token_set(tokens).contains(t));
            }
            assert(tokens[tokens.len() - 1]@ == tokens.last()@);
            assert(token_set(tokens).contains(tokens.last()@));
        }
        if fresh.len() == 0 {
            assert forall|t: Seq<char>| token_set(tokens).contains(t) implies known.contains(t) by {
                let j = choose|j: int| 0 <= j < tokens.len() && (#[trigger] tokens[j])@ == t;
                if j < head.len() {
                    assert(head[j]@ == t);
                    assert(token_set(head).contains(t));
                }
            }
        }
    } else {
        assert forall|t: Seq<char>| token_set(tokens).contains(t) implies known.contains(t) by {}
    }
}

} // verus!

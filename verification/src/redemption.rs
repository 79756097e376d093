use vstd::prelude::*;
use vstd::string::StringExecFns;
use crate::data::SharedLiveStats;
use crate::divergence::Signal;
use crate::strmap::StrMap;
use crate::json::{json_of, parse_json, Json};
use crate::text::{
    all_hex, append_hex, chars_of, hex_digits_at, hex_text, hex_value, same_text, texts,
};
use crate::units::{div_trunc, saturate, scaled_quot, within_i64, ONE};

verus! {

/// The pause between two rounds of the redemption loop, in milliseconds.
pub const POLL_INTERVAL_MS: u64 = 30_000;

/// A position whose market is yet to resolve.
#[derive(Clone, Debug)]
pub struct PendingPosition {
    pub condition_id: String,
    pub market_name: String,
    /// The side as it is written in records.
    pub side: String,
    pub entry_price: i64,
    pub size_usd: u64,
}

/// A pending position as plain data.
pub struct PendingData {
    pub condition_id: Seq<char>,
    pub market_name: Seq<char>,
    pub side: Seq<char>,
    pub entry_price: i64,
    pub size_usd: u64,
}

impl View for PendingPosition {
    type V = PendingData;

    open spec fn view(&self) -> PendingData {
        PendingData {
            condition_id: self.condition_id@,
            market_name: self.market_name@,
            side: self.side@,
            entry_price: self.entry_price,
            size_usd: self.size_usd,
        }
    }
}

/// The pending position that the posted order of a signal gives.
pub open spec fn pending_of(signal: Signal) -> PendingData {
    PendingData {
        condition_id: signal.condition_id@,
        market_name: signal.market_name@,
        side: signal.side.label_text(),
        entry_price: signal.price,
        size_usd: signal.size_usd,
    }
}

/// How a market resolved.
#[derive(Clone, Copy, Debug, PartialEq, Eq, Structural)]
pub enum Resolution {
    Up,
    Down,
}

/// A position that was redeemed.
#[derive(Clone, Debug)]
pub struct RedemptionResult {
    pub condition_id: String,
    pub market_name: String,
    pub side: String,
    pub entry_price: i64,
    pub size_usd: u64,
    pub won: bool,
    pub tx_hash: String,
}

/// The positions that wait for their markets to resolve, by condition.
pub struct Redeemer {
    pub pending: StrMap<PendingPosition>,
}

/// How a market resolved, given the payout numerators of its two outcomes:
/// up where the first is positive, down where only the second is, and not
/// yet where neither is.
pub open spec fn resolved(payout_up: u64, payout_down: u64) -> Option<Resolution> {
    if payout_up > 0 {
        Some(Resolution::Up)
    } else if payout_down > 0 {
        Some(Resolution::Down)
    } else {
        None
    }
}

/// Whether a position on `side` won a market that resolved as `resolution`.
pub open spec fn wins(side: Seq<char>, resolution: Resolution) -> bool {
    (side == "BUY_YES"@ && resolution == Resolution::Up) || (side == "BUY_NO"@ && resolution
        == Resolution::Down)
}

/// The result of a settled position: a winner gets one unit per share,
/// that is the amount times one over the entry price less one; a loser
/// loses the amount. In millionths, rounded toward zero and kept within 64
/// bits. A winner without entry price gains nothing.
pub open spec fn settled_pnl(won: bool, entry_price: i64, size_usd: u64) -> i64 {
    if won {
        if entry_price > 0 {
            within_i64(div_trunc((ONE - entry_price) * size_usd, entry_price as int))
        } else {
            0
        }
    } else {
        within_i64(-(size_usd as int))
    }
}

/// How a market resolved.
pub fn resolution_of(payout_up: u64, payout_down: u64) -> (r: Option<Resolution>)
    ensures
        r == resolved(payout_up, payout_down),
{
    if payout_up > 0 {
        Some(Resolution::Up)
    } else if payout_down > 0 {
        Some(Resolution::Down)
    } else {
        None
    }
}

/// Whether a position won.
pub fn is_win(side: &str, resolution: Resolution) -> (won: bool)
    ensures
        won == wins(side@, resolution),
{
    match resolution {
        Resolution::Up => same_text(side, "BUY_YES"),
        Resolution::Down => same_text(side, "BUY_NO"),
    }
}

/// The result of a settled position.
pub fn pnl_of(won: bool, entry_price: i64, size_usd: u64) -> (pnl: i64)
    ensures
        pnl == settled_pnl(won, entry_price, size_usd),
{
    if won {
        if entry_price <= 0 {
            return 0;
        }
        let gain: i128 = ONE as i128 - entry_price as i128;
        scaled_quot(gain, size_usd, entry_price)
    } else {
        saturate(-(size_usd as i128))
    }
}

impl Redeemer {
    /// The redeemer without positions.
    pub fn new() -> (redeemer: Redeemer)
        ensures
            redeemer.pending@ == Map::<Seq<char>, PendingPosition>::empty(),
    {
        Redeemer { pending: StrMap::new() }
    }

    /// Follows a position until its market resolves. A condition has one
    /// position: a new one takes the place of the old.
    pub fn track_position(&mut self, pos: PendingPosition)
        ensures
            final(self).pending@ == old(self).pending@.insert(pos.condition_id@, pos),
    {
        let key: String = pos.condition_id.clone();
        self.pending.insert(key, pos);
    }

    /// The number of positions that wait.
    pub fn pending_count(&self) -> (n: usize)
        ensures
            n == self.pending@.dom().len(),
    {
        self.pending.len()
    }

    /// The conditions whose positions wait, in the order in which they
    /// came in. One round of the redemption loop asks for the resolution
    /// of each.
    pub fn pending_conditions(&self) -> (ids: Vec<String>)
        ensures
            texts(ids@) == self.pending.key_seq(),
    {
        let n: usize = self.pending.len();
        let mut ids: Vec<String> = Vec::new();
        let mut i: usize = 0;
        while i < n
            invariant
                i <= n,
                n == self.pending.key_seq().len(),
                ids@.len() == i,
                forall|j: int| 0 <= j < i ==> (#[trigger] ids@[j])@ == self.pending.key_seq()[j],
            decreases n - i,
        {
            ids.push(self.pending.key_at(i).clone());
            i = i + 1;
        }
        assert(texts(ids@) =~= self.pending.key_seq());
        ids
    }

    /// Settles the position of a condition that resolved and was redeemed
    /// in the transaction `tx_hash`: the position leaves the redeemer, and
    /// the result says whether it won. Nothing for a condition without
    /// position.
    pub fn settle(&mut self, condition_id: &str, resolution: Resolution, tx_hash: String) -> (result:
        Option<RedemptionResult>)
        ensures
            final(self).pending@ == old(self).pending@.remove(condition_id@),
            result is Some == old(self).pending@.dom().contains(condition_id@),
            result is Some ==> {
                let pos = old(self).pending@[condition_id@];
                &&& result->0.condition_id@ == condition_id@
                &&& result->0.market_name == pos.market_name
                &&& result->0.side == pos.side
                &&& result->0.entry_price == pos.entry_price
                &&& result->0.size_usd == pos.size_usd
                &&& result->0.won == wins(pos.side@, resolution)
                &&& result->0.tx_hash == tx_hash
            },
    {
        match self.pending.remove(condition_id) {
            Some(pos) => {
                let won: bool = is_win(pos.side.as_str(), resolution);
                Some(
                    RedemptionResult {
                        condition_id: String::from_str(condition_id),
                        market_name: pos.market_name,
                        side: pos.side,
                        entry_price: pos.entry_price,
                        size_usd: pos.size_usd,
                        won,
                        tx_hash,
                    },
                )
            },
            None => None,
        }
    }
}

/// Books a redeemed position into the totals and gives its result.
pub fn book_result(result: &RedemptionResult, stats: &mut SharedLiveStats) -> (pnl: i64)
    ensures
        pnl == settled_pnl(result.won, result.entry_price, result.size_usd),
        *final(stats) == old(stats).with_settlement(result.won, pnl),
{
    let pnl: i64 = pnl_of(result.won, result.entry_price, result.size_usd);
    stats.note_settlement(result.won, pnl);
    pnl
}

/// The selector of the call that reads a payout numerator of a condition.
pub const PAYOUT_SELECTOR: &'static str = "0xda3550f7";

/// The number of hexadecimal digits of one word of call data.
pub const WORD_DIGITS: usize = 64;

/// The text without the marks `0x` at its start, however many there are.
pub open spec fn strip_hex_marks(s: Seq<char>) -> Seq<char>
    decreases s.len(),
{
    if s.len() >= 2 && s[0] == '0' && s[1] == 'x' {
        strip_hex_marks(s.skip(2))
    } else {
        s
    }
}

/// `n` zeros.
pub open spec fn zeros(n: int) -> Seq<char> {
    Seq::new(
        if n > 0 {
            n as nat
        } else {
            0
        },
        |i: int| '0',
    )
}

/// The digits of a condition identifier as one word: without marks, and
/// with zeros in front up to 64 characters. A longer text stays as it is.
pub open spec fn condition_word(cid: Seq<char>) -> Seq<char> {
    zeros(WORD_DIGITS - strip_hex_marks(cid).len()) + strip_hex_marks(cid)
}

/// A condition identifier in its normal form: one mark and the word.
pub open spec fn normalized_condition(cid: Seq<char>) -> Seq<char> {
    seq!['0', 'x'] + condition_word(cid)
}

/// The place where the marks at the start of a text end.
fn skip_hex_marks(chars: &Vec<char>) -> (at: usize)
    ensures
        at <= chars@.len(),
        strip_hex_marks(chars@) == chars@.skip(at as int),
{
    let mut at: usize = 0;
    assert(chars@.skip(0) == chars@);
    while chars.len() - at >= 2 && chars[at] == '0' && chars[at + 1] == 'x'
        invariant
            at <= chars@.len(),
            strip_hex_marks(chars@) == strip_hex_marks(chars@.skip(at as int)),
        decreases chars@.len() - at,
    {
        proof {
            assert(chars@.skip(at as int).skip(2) == chars@.skip(at + 2));
        }
        at = at + 2;
    }
    at
}

/// Appends the word of a condition identifier to a text.
fn append_condition_word(out: &mut String, cid: &str)
    ensures
        final(out)@ == old(out)@ + condition_word(cid@),
{
    let chars: Vec<char> = chars_of(cid);
    let at: usize = skip_hex_marks(&chars);
    let digits: usize = chars.len() - at;
    let ghost start = out@;
    let mut pad: usize = 0;
    while pad + digits < WORD_DIGITS
        invariant
            digits == chars@.len() - at,
            pad + digits <= WORD_DIGITS || pad == 0,
            out@ == start + zeros(pad as int),
        decreases WORD_DIGITS - pad,
    {
        proof {
            reveal_strlit("0");
        }
        out.append("0");
        pad = pad + 1;
        assert(out@ =~= start + zeros(pad as int));
    }
    assert(zeros(pad as int) =~= zeros(WORD_DIGITS - digits));
    let rest: &str = cid.substring_char(at, chars.len());
    out.append(rest);
    proof {
        assert(cid@.subrange(at as int, chars@.len() as int) == chars@.skip(at as int));
        assert(out@ =~= start + condition_word(cid@));
    }
}

/// A condition identifier in its normal form.
pub fn normalize_condition_id(cid: &str) -> (normal: String)
    ensures
        normal@ == normalized_condition(cid@),
{
    let mut normal: String = String::from_str("0x");
    proof {
        reveal_strlit("0x");
        assert("0x"@ =~= seq!['0', 'x']);
    }
    append_condition_word(&mut normal, cid);
    normal
}

/// The call data that asks for the payout numerator of the outcome `index`
/// of a condition: the selector, the word of the condition, and the index
/// as a word.
pub open spec fn payout_call(cid: Seq<char>, index: u64) -> Seq<char> {
    PAYOUT_SELECTOR@ + condition_word(cid) + hex_text(index as nat, WORD_DIGITS as nat)
}

/// The call data that asks for a payout numerator.
pub fn payout_call_data(condition_id: &str, index: u64) -> (data: String)
    ensures
        data@ == payout_call(condition_id@, index),
{
    let mut data: String = String::from_str(PAYOUT_SELECTOR);
    append_condition_word(&mut data, condition_id);
    append_hex(&mut data, index, WORD_DIGITS);
    data
}

/// The last sixteen characters of a text, or all of a shorter one.
pub open spec fn last_sixteen(s: Seq<char>) -> Seq<char> {
    if s.len() > 16 {
        s.skip(s.len() - 16)
    } else {
        s
    }
}

/// The payout numerator that the answer to such a call writes: the lowest
/// 64 bits of a word in hexadecimal. An answer that is empty, or whose
/// last sixteen characters are not all hexadecimal digits, counts as zero.
pub open spec fn payout_of(answer: Seq<char>) -> u64 {
    let tail = last_sixteen(strip_hex_marks(answer));
    if all_hex(tail) {
        hex_value(tail) as u64
    } else {
        0
    }
}

/// Reads a payout numerator.
pub fn parse_payout(answer: &str) -> (payout: u64)
    ensures
        payout == payout_of(answer@),
{
    let chars: Vec<char> = chars_of(answer);
    let at: usize = skip_hex_marks(&chars);
    let from: usize = if chars.len() - at > 16 {
        chars.len() - 16
    } else {
        at
    };
    proof {
        let clean = chars@.skip(at as int);
        if clean.len() > 16 {
            assert(clean.skip(clean.len() - 16) == chars@.skip(from as int));
        }
        assert(last_sixteen(strip_hex_marks(answer@)) == chars@.skip(from as int));
        crate::text::lemma_hex_value_bounds(Seq::<char>::empty());
    }
    match hex_digits_at(&chars, from) {
        Some(value) => value,
        None => 0,
    }
}

/// The payout numerator in the answer of the node: the member `result`,
/// a string; an answer without it counts as zero.
pub open spec fn answer_payout(v: Json) -> u64 {
    match v.text_member("result"@) {
        Some(t) => payout_of(t),
        None => 0,
    }
}

/// Reads the payout numerator from the parsed answer of the node.
pub fn payout_from_answer(v: &Json) -> (payout: u64)
    ensures
        payout == answer_payout(*v),
{
    match v.get_str("result") {
        Some(t) => parse_payout(t),
        None => 0,
    }
}

/// Reads the payout numerator from the text of the answer of the node. A
/// text that is no JSON counts as zero.
pub fn payout_from_text(answer: &str) -> (payout: u64)
    ensures
        payout == (match json_of(answer@) {
            Some(v) => answer_payout(v),
            None => 0,
        }),
{
    match parse_json(answer) {
        Some(v) => payout_from_answer(&v),
        None => 0,
    }
}

/// The start of the address of the node that a scanner configuration may
/// name.
pub const RPC_MARK: &'static str = "https://polygon-mainnet.g.alchemy.com";

/// The node that is asked where none is configured.
pub const DEFAULT_RPC: &'static str = "https://1rpc.io/matic";

/// White space, as the Unicode property has it.
pub open spec fn is_space(c: char) -> bool {
    ('\u{9}' <= c <= '\u{d}') || c == ' ' || c == '\u{85}' || c == '\u{a0}' || c == '\u{1680}' || (
    '\u{2000}' <= c <= '\u{200a}') || c == '\u{2028}' || c == '\u{2029}' || c == '\u{202f}' || c
        == '\u{205f}' || c == '\u{3000}'
}

/// `needle` stands in `s` at the place `at`.
pub open spec fn match_at(s: Seq<char>, needle: Seq<char>, at: int) -> bool {
    0 <= at && at + needle.len() <= s.len() && s.subrange(at, at + needle.len()) == needle
}

/// The first place of `needle` in `s` from `from` on, or the length of `s`
/// where it stands nowhere.
pub open spec fn first_match(s: Seq<char>, needle: Seq<char>, from: int) -> int
    decreases s.len() - from,
{
    if from < 0 || from >= s.len() {
        s.len() as int
    } else if match_at(s, needle, from) {
        from
    } else {
        first_match(s, needle, from + 1)
    }
}

/// The end of the line that holds the place `from`: the place of the next
/// line feed, or the end of the text.
pub open spec fn line_end(s: Seq<char>, from: int) -> int
    decreases s.len() - from,
{
    if from < 0 || from >= s.len() {
        s.len() as int
    } else if s[from] == '\n' {
        from
    } else {
        line_end(s, from + 1)
    }
}

/// The end of `s` before `to` once the characters that `drop` names are
/// taken off its end, and not below `from`.
pub open spec fn trimmed_end(s: Seq<char>, from: int, to: int, drop: spec_fn(char) -> bool) -> int
    decreases to - from,
{
    if to <= from || to > s.len() || from < 0 {
        from
    } else if drop(s[to - 1]) {
        trimmed_end(s, from, to - 1, drop)
    } else {
        to
    }
}

/// The address that a scanner configuration names: it starts at the first
/// place of the mark and runs to the end of that line, without white space
/// at its end, without double quotes at its end after that, and without
/// single quotes at its end after that. Nothing where the mark stands
/// nowhere.
pub open spec fn rpc_in(contents: Seq<char>) -> Option<Seq<char>> {
    let start = first_match(contents, RPC_MARK@, 0);
    if start >= contents.len() {
        None
    } else {
        let line = line_end(contents, start);
        let a = trimmed_end(contents, start, line, |c: char| is_space(c));
        let b = trimmed_end(contents, start, a, |c: char| c == '"');
        let c = trimmed_end(contents, start, b, |c: char| c == '\'');
        Some(contents.subrange(start, c))
    }
}

/// The node to ask: the one that the environment names, or else the one
/// that the scanner configuration names, or else the default.
pub open spec fn rpc_choice(env: Option<Seq<char>>, contents: Option<Seq<char>>) -> Seq<char> {
    match env {
        Some(url) => url,
        None => match contents {
            Some(text) => match rpc_in(text) {
                Some(url) => url,
                None => DEFAULT_RPC@,
            },
            None => DEFAULT_RPC@,
        },
    }
}

/// Whether a character is white space.
pub fn is_space_char(c: char) -> (r: bool)
    ensures
        r == is_space(c),
{
    ('\u{9}' <= c && c <= '\u{d}') || c == ' ' || c == '\u{85}' || c == '\u{a0}' || c == '\u{1680}'
        || ('\u{2000}' <= c && c <= '\u{200a}') || c == '\u{2028}' || c == '\u{2029}' || c
        == '\u{202f}' || c == '\u{205f}' || c == '\u{3000}'
}

/// Whether `needle` stands in `s` at `at`.
fn matches_at(s: &Vec<char>, needle: &Vec<char>, at: usize) -> (r: bool)
    ensures
        r == match_at(s@, needle@, at as int),
{
    if at > s.len() || needle.len() > s.len() - at {
        return false;
    }
    let mut i: usize = 0;
    while i < needle.len()
        invariant
            i <= needle@.len(),
            at + needle@.len() <= s@.len() <= usize::MAX,
            forall|j: int| 0 <= j < i ==> s@[at + j] == needle@[j],
        decreases needle@.len() - i,
    {
        if s[at + i] != needle[i] {
            proof {
                assert(s@.subrange(at as int, at + needle@.len())[i as int] == s@[at + i]);
            }
            return false;
        }
        i = i + 1;
    }
    proof {
        assert(s@.subrange(at as int, at + needle@.len()) =~= needle@);
    }
    true
}

/// The first place of `needle` in `s`.
fn find_first(s: &Vec<char>, needle: &Vec<char>) -> (at: usize)
    ensures
        at == first_match(s@, needle@, 0),
        at <= s@.len(),
{
    let mut at: usize = 0;
    while at < s.len()
        invariant
            at <= s@.len(),
            first_match(s@, needle@, 0) == first_match(s@, needle@, at as int),
        decreases s@.len() - at,
    {
        if matches_at(s, needle, at) {
            return at;
        }
        at = at + 1;
    }
    at
}

/// The end of the line that holds `from`.
fn find_line_end(s: &Vec<char>, from: usize) -> (at: usize)
    requires
        from <= s@.len(),
    ensures
        at == line_end(s@, from as int),
        from <= at <= s@.len(),
{
    let mut at: usize = from;
    while at < s.len() && s[at] != '\n'
        invariant
            from <= at <= s@.len(),
            line_end(s@, from as int) == line_end(s@, at as int),
        decreases s@.len() - at,
    {
        at = at + 1;
    }
    at
}

/// The address that a scanner configuration names.
pub fn rpc_url_in(contents: &str) -> (url: Option<String>)
    ensures
        match url {
            Some(u) => rpc_in(contents@) == Some(u@),
            None => rpc_in(contents@) is None,
        },
{
    let chars: Vec<char> = chars_of(contents);
    let mark: Vec<char> = chars_of(RPC_MARK);
    let start: usize = find_first(&chars, &mark);
    if start >= chars.len() {
        return None;
    }
    let line: usize = find_line_end(&chars, start);
    let mut a: usize = line;
    while a > start && is_space_char(chars[a - 1])
        invariant
            start <= a <= line <= chars@.len(),
            trimmed_end(chars@, start as int, line as int, |c: char| is_space(c)) == trimmed_end(
                chars@,
                start as int,
                a as int,
                |c: char| is_space(c),
            ),
        decreases a,
    {
        a = a - 1;
    }
    let mut b: usize = a;
    while b > start && chars[b - 1] == '"'
        invariant
            start <= b <= a <= chars@.len(),
            trimmed_end(chars@, start as int, a as int, |c: char| c == '"') == trimmed_end(
                chars@,
                start as int,
                b as int,
                |c: char| c == '"',
            ),
        decreases b,
    {
        b = b - 1;
    }
    let mut c: usize = b;
    while c > start && chars[c - 1] == '\''
        invariant
            start <= c <= b <= chars@.len(),
            trimmed_end(chars@, start as int, b as int, |c: char| c == '\'') == trimmed_end(
                chars@,
                start as int,
                c as int,
                |c: char| c == '\'',
            ),
        decreases c,
    {
        c = c - 1;
    }
    Some(String::from_str(contents.substring_char(start, c)))
}

/// The node to ask, given what the environment names and the text of the
/// scanner configuration, where either is there.
pub fn choose_rpc(env: Option<String>, contents: Option<&str>) -> (url: String)
    ensures
        url@ == rpc_choice(
            match env {
                Some(e) => Some(e@),
                None => None,
            },
            match contents {
                Some(t) => Some(t@),
                None => None,
            },
        ),
{
    match env {
        Some(url) => url,
        None => {
            let scanned: Option<String> = match contents {
                Some(text) => rpc_url_in(text),
                None => None,
            };
            match scanned {
                Some(url) => url,
                None => String::from_str(DEFAULT_RPC),
            }
        },
    }
}

} // verus!

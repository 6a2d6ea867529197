//! Standard WSJT message parsing and the QSO exchange sequencer.
//!
//! A standard message is `DESTINATION SOURCE EXCHANGE`; a call is
//! `CQ [qualifier...] SOURCE [GRID]`. The sequencer answers each accepted
//! message of the worked station with the next step of the exchange:
//! grid, report, roger-report, `RR73`/`73`.
use crate::text;
use crate::text::{
    append_chars, char_is_alnum, char_is_alpha, char_is_digit, chars_eq, chars_of, eq_lit,
    parse_i8_chars, push_char, push_signed_two_digits, split_words, string_of, strip_chars,
    sub_chars, trim_upper, upper_chars, CharClass,
};
use vstd::prelude::*;

verus! {

/// Most transmissions of one exchange step before the sequencer gives up.
pub const MAX_ATTEMPTS_PER_EXCHANGE: u8 = 6;

/// When automatic transmission stops by itself.
#[derive(Debug, Clone, Copy, PartialEq, Eq, Structural)]
pub enum AutoTxStopPolicy {
    Continuous,
    AfterNextTx,
    AfterCurrentQso,
}

impl AutoTxStopPolicy {
    pub const ALL: [Self; 3] = [Self::Continuous, Self::AfterNextTx, Self::AfterCurrentQso];

    pub open spec fn label_text(self) -> Seq<char> {
        match self {
            AutoTxStopPolicy::Continuous => "Keep running"@,
            AutoTxStopPolicy::AfterNextTx => "Stop after next TX"@,
            AutoTxStopPolicy::AfterCurrentQso => "Stop after current QSO"@,
        }
    }

    pub fn label(self) -> (r: &'static str)
        ensures
            r@ == self.label_text(),
    {
        match self {
            AutoTxStopPolicy::Continuous => "Keep running",
            AutoTxStopPolicy::AfterNextTx => "Stop after next TX",
            AutoTxStopPolicy::AfterCurrentQso => "Stop after current QSO",
        }
    }
}

impl Default for AutoTxStopPolicy {
    fn default() -> (r: Self)
        ensures
            r == AutoTxStopPolicy::Continuous,
    {
        AutoTxStopPolicy::Continuous
    }
}

/// Which of several eligible callers the sequencer answers.
#[derive(Debug, Clone, Copy, PartialEq, Eq, Structural)]
pub enum AutoReplyPolicy {
    First,
    Strongest,
    Weakest,
    Closest,
}

impl AutoReplyPolicy {
    pub const ALL: [Self; 4] = [Self::First, Self::Strongest, Self::Weakest, Self::Closest];

    pub open spec fn label_text(self) -> Seq<char> {
        match self {
            AutoReplyPolicy::First => "First decoded"@,
            AutoReplyPolicy::Strongest => "Strongest"@,
            AutoReplyPolicy::Weakest => "Weakest"@,
            AutoReplyPolicy::Closest => "Closest to RX"@,
        }
    }

    pub fn label(self) -> (r: &'static str)
        ensures
            r@ == self.label_text(),
    {
        match self {
            AutoReplyPolicy::First => "First decoded",
            AutoReplyPolicy::Strongest => "Strongest",
            AutoReplyPolicy::Weakest => "Weakest",
            AutoReplyPolicy::Closest => "Closest to RX",
        }
    }
}

impl Default for AutoReplyPolicy {
    fn default() -> (r: Self)
        ensures
            r == AutoReplyPolicy::First,
    {
        AutoReplyPolicy::First
    }
}

/// The exchange part of a standard message.
#[derive(Debug, Clone, PartialEq, Eq)]
pub enum Exchange {
    Grid(String),
    Report(i8),
    RogerReport(i8),
    Roger,
    Roger73,
    SeventyThree,
    Other(String),
    Absent,
}

/// An exchange with its text as characters.
pub enum ExchangeView {
    Grid(Seq<char>),
    Report(i8),
    RogerReport(i8),
    Roger,
    Roger73,
    SeventyThree,
    Other(Seq<char>),
    Absent,
}

impl View for Exchange {
    type V = ExchangeView;

    open spec fn view(&self) -> ExchangeView {
        match self {
            Exchange::Grid(g) => ExchangeView::Grid(g@),
            Exchange::Report(r) => ExchangeView::Report(*r),
            Exchange::RogerReport(r) => ExchangeView::RogerReport(*r),
            Exchange::Roger => ExchangeView::Roger,
            Exchange::Roger73 => ExchangeView::Roger73,
            Exchange::SeventyThree => ExchangeView::SeventyThree,
            Exchange::Other(t) => ExchangeView::Other(t@),
            Exchange::Absent => ExchangeView::Absent,
        }
    }
}

/// A decoded message split into its roles.
#[derive(Debug, Clone, PartialEq, Eq)]
pub struct ParsedMessage {
    pub raw: String,
    pub from: String,
    pub to: Option<String>,
    pub is_cq: bool,
    pub exchange: Exchange,
}

/// A parsed message with its texts as characters.
pub struct ParsedView {
    pub raw: Seq<char>,
    pub from: Seq<char>,
    pub to: Option<Seq<char>>,
    pub is_cq: bool,
    pub exchange: ExchangeView,
}

pub open spec fn opt_chars(o: Option<String>) -> Option<Seq<char>> {
    match o {
        Some(s) => Some(s@),
        None => None,
    }
}

impl View for ParsedMessage {
    type V = ParsedView;

    open spec fn view(&self) -> ParsedView {
        ParsedView {
            raw: self.raw@,
            from: self.from@,
            to: opt_chars(self.to),
            is_cq: self.is_cq,
            exchange: self.exchange@,
        }
    }
}

pub open spec fn opt_parsed(o: Option<ParsedMessage>) -> Option<ParsedView> {
    match o {
        Some(p) => Some(p@),
        None => None,
    }
}

/// A callsign with hash brackets removed, upper-cased.
pub open spec fn callsign_norm(s: Seq<char>) -> Seq<char> {
    text::upper(text::strip(s, CharClass::AngleBracket))
}

/// Two callsigns are the same station.
pub open spec fn same_callsign(left: Seq<char>, right: Seq<char>) -> bool {
    callsign_norm(left) == callsign_norm(right)
}

/// A Maidenhead locator of four or six characters (`FN42`, `FN42AB`).
pub open spec fn is_grid(t: Seq<char>) -> bool {
    &&& t.len() == 4 || t.len() == 6
    &&& 'A' <= t[0] && t[0] <= 'R'
    &&& 'A' <= t[1] && t[1] <= 'R'
    &&& text::is_digit(t[2])
    &&& text::is_digit(t[3])
    &&& t.len() == 4 || ('A' <= t[4] && t[4] <= 'X' && 'A' <= t[5] && t[5] <= 'X')
}

/// Words of a CQ that qualify the call rather than name a station.
pub open spec fn is_qualifier_word(t: Seq<char>) -> bool {
    ||| t == "DX"@
    ||| t == "TEST"@
    ||| t == "POTA"@
    ||| t == "SOTA"@
    ||| t == "NA"@
    ||| t == "EU"@
    ||| t == "AS"@
    ||| t == "AF"@
    ||| t == "SA"@
    ||| t == "OC"@
}

/// The shape of a callsign: at least three characters, letters, digits and
/// `/` only, at least one letter and one digit, and neither a locator nor a
/// CQ qualifier.
pub open spec fn probable_callsign(token: Seq<char>) -> bool {
    let t = callsign_norm(token);
    &&& t.len() >= 3
    &&& !is_grid(t)
    &&& !is_qualifier_word(t)
    &&& forall|i: int| 0 <= i < t.len() ==> text::is_alnum(#[trigger] t[i]) || t[i] == '/'
    &&& exists|i: int| 0 <= i < t.len() && text::is_alpha(#[trigger] t[i])
    &&& exists|i: int| 0 <= i < t.len() && text::is_digit(#[trigger] t[i])
}

/// How an exchange token reads.
pub open spec fn exchange_of(token: Seq<char>) -> ExchangeView {
    let t = text::upper(text::trim(token));
    if t == "RRR"@ {
        ExchangeView::Roger
    } else if t == "RR73"@ {
        ExchangeView::Roger73
    } else if t == "73"@ {
        ExchangeView::SeventyThree
    } else if is_grid(t) {
        ExchangeView::Grid(t)
    } else if t.len() > 0 && t[0] == 'R' {
        match text::parse_i8(t.drop_first()) {
            Some(v) => ExchangeView::RogerReport(v),
            None => ExchangeView::Other(t),
        }
    } else {
        match text::parse_i8(t) {
            Some(v) => ExchangeView::Report(v),
            None => ExchangeView::Other(t),
        }
    }
}

/// The first word at or after position `i` that looks like a callsign.
pub open spec fn first_callsign_from(toks: Seq<Seq<char>>, i: int) -> Option<int>
    decreases toks.len() - i,
{
    if i < 0 || i >= toks.len() {
        None
    } else if probable_callsign(toks[i]) {
        Some(i)
    } else {
        first_callsign_from(toks, i + 1)
    }
}

/// How a decoded message reads.
pub open spec fn message_of(message: Seq<char>) -> Option<ParsedView> {
    let raw = text::upper(text::trim(message));
    let toks = text::words(raw);
    if toks.len() == 0 {
        None
    } else if toks[0] == "CQ"@ || toks[0] == "QRZ"@ {
        match first_callsign_from(toks, 1) {
            None => None,
            Some(k) => {
                let from = toks[k];
                let last = toks.last();
                Some(
                    ParsedView {
                        raw,
                        from,
                        to: None,
                        is_cq: true,
                        exchange: if last != from {
                            exchange_of(last)
                        } else {
                            ExchangeView::Absent
                        },
                    },
                )
            },
        }
    } else if toks.len() < 2 || !probable_callsign(toks[0]) || !probable_callsign(toks[1]) {
        None
    } else {
        Some(
            ParsedView {
                raw,
                from: toks[1],
                to: Some(toks[0]),
                is_cq: false,
                exchange: if toks.len() > 2 {
                    exchange_of(toks[2])
                } else {
                    ExchangeView::Absent
                },
            },
        )
    }
}

impl ParsedView {
    pub open spec fn is_directed_to(self, callsign: Seq<char>) -> bool {
        match self.to {
            Some(to) => same_callsign(to, callsign),
            None => false,
        }
    }

    pub open spec fn is_directed_away_from(self, callsign: Seq<char>) -> bool {
        !self.is_cq && match self.to {
            Some(to) => !same_callsign(to, callsign),
            None => false,
        }
    }
}

impl ParsedMessage {
    /// Whether the message is addressed to `callsign`.
    pub fn directed_to(&self, callsign: &str) -> (r: bool)
        ensures
            r == self@.is_directed_to(callsign@),
    {
        match &self.to {
            Some(to) => callsign_eq(to.as_str(), callsign),
            None => false,
        }
    }

    /// Whether the message is addressed to a station other than `callsign`.
    pub fn directed_away_from(&self, callsign: &str) -> (r: bool)
        ensures
            r == self@.is_directed_away_from(callsign@),
    {
        !self.is_cq && match &self.to {
            Some(to) => !callsign_eq(to.as_str(), callsign),
            None => false,
        }
    }
}

fn normalized_callsign(v: &Vec<char>) -> (r: Vec<char>)
    ensures
        r@ == callsign_norm(v@),
{
    let s = strip_chars(v, CharClass::AngleBracket);
    upper_chars(&s)
}

/// Whether two callsigns name the same station, ignoring case and hash brackets.
pub fn callsign_eq(left: &str, right: &str) -> (r: bool)
    ensures
        r == same_callsign(left@, right@),
{
    let l = normalized_callsign(&chars_of(left));
    let r = normalized_callsign(&chars_of(right));
    chars_eq(&l, &r)
}

fn is_grid_chars(t: &Vec<char>) -> (r: bool)
    ensures
        r == is_grid(t@),
{
    let n = t.len();
    if n != 4 && n != 6 {
        return false;
    }
    let basic = 'A' <= t[0] && t[0] <= 'R' && 'A' <= t[1] && t[1] <= 'R' && char_is_digit(t[2])
        && char_is_digit(t[3]);
    if !basic {
        return false;
    }
    n == 4 || ('A' <= t[4] && t[4] <= 'X' && 'A' <= t[5] && t[5] <= 'X')
}

fn is_qualifier_chars(t: &Vec<char>) -> (r: bool)
    ensures
        r == is_qualifier_word(t@),
{
    eq_lit(t, "DX") || eq_lit(t, "TEST") || eq_lit(t, "POTA") || eq_lit(t, "SOTA") || eq_lit(
        t,
        "NA",
    ) || eq_lit(t, "EU") || eq_lit(t, "AS") || eq_lit(t, "AF") || eq_lit(t, "SA") || eq_lit(
        t,
        "OC",
    )
}

/// Whether a word has the shape of a callsign.
pub fn probable_callsign_chars(token: &Vec<char>) -> (r: bool)
    ensures
        r == probable_callsign(token@),
{
    let t = normalized_callsign(token);
    let n = t.len();
    if n < 3 || is_grid_chars(&t) || is_qualifier_chars(&t) {
        return false;
    }
    let mut i: usize = 0;
    let mut has_alpha = false;
    let mut has_digit = false;
    while i < n
        invariant
            i <= n,
            n == t.len(),
            t@ == callsign_norm(token@),
            forall|j: int| 0 <= j < i ==> text::is_alnum(#[trigger] t@[j]) || t@[j] == '/',
            has_alpha <==> exists|j: int| 0 <= j < i && text::is_alpha(#[trigger] t@[j]),
            has_digit <==> exists|j: int| 0 <= j < i && text::is_digit(#[trigger] t@[j]),
        decreases n - i,
    {
        let c = t[i];
        if !(char_is_alnum(c) || c == '/') {
            proof {
                let k = i as int;
                assert(!(text::is_alnum(t@[k]) || t@[k] == '/'));
                assert(!(forall|j: int|
                    0 <= j < t@.len() ==> text::is_alnum(#[trigger] t@[j]) || t@[j] == '/'));
            }
            return false;
        }
        if char_is_alpha(c) {
            has_alpha = true;
        }
        if char_is_digit(c) {
            has_digit = true;
        }
        i = i + 1;
    }
    has_alpha && has_digit
}

/// Whether a word has the shape of a callsign: three or more characters of
/// letters, digits and `/`, with a letter and a digit, and not a locator or
/// a CQ qualifier.
pub fn is_probable_callsign(token: &str) -> (r: bool)
    ensures
        r == probable_callsign(token@),
{
    probable_callsign_chars(&chars_of(token))
}

/// Reads one exchange token.
pub fn parse_exchange_chars(token: &Vec<char>) -> (r: Exchange)
    ensures
        r@ == exchange_of(token@),
{
    let trimmed = strip_chars(token, CharClass::Whitespace);
    let t = upper_chars(&trimmed);
    if eq_lit(&t, "RRR") {
        Exchange::Roger
    } else if eq_lit(&t, "RR73") {
        Exchange::Roger73
    } else if eq_lit(&t, "73") {
        Exchange::SeventyThree
    } else if is_grid_chars(&t) {
        Exchange::Grid(string_of(&t))
    } else if t.len() > 0 && t[0] == 'R' {
        let rest = sub_chars(&t, 1, t.len());
        assert(rest@ =~= t@.drop_first());
        match parse_i8_chars(&rest) {
            Some(v) => Exchange::RogerReport(v),
            None => Exchange::Other(string_of(&t)),
        }
    } else {
        match parse_i8_chars(&t) {
            Some(v) => Exchange::Report(v),
            None => Exchange::Other(string_of(&t)),
        }
    }
}

/// Reads one exchange token.
fn parse_exchange(token: &str) -> (r: Exchange)
    ensures
        r@ == exchange_of(token@),
{
    parse_exchange_chars(&chars_of(token))
}

/// Splits a decoded message into destination, source and exchange, or finds
/// the calling station of a `CQ`/`QRZ`. Text is trimmed and upper-cased.
pub fn parse_message(message: &str) -> (r: Option<ParsedMessage>)
    ensures
        opt_parsed(r) == message_of(message@),
{
    let raw = trim_upper(message);
    let toks = split_words(&raw);
    let ghost tv = text::views(toks@);
    let n = toks.len();
    if n == 0 {
        return None;
    }
    assert(tv[0] == toks@[0]@);
    if eq_lit(&toks[0], "CQ") || eq_lit(&toks[0], "QRZ") {
        let mut i: usize = 1;
        while i < n && !probable_callsign_chars(&toks[i])
            invariant
                1 <= i <= n,
                n == toks.len(),
                tv == text::views(toks@),
                first_callsign_from(tv, 1) == first_callsign_from(tv, i as int),
            decreases n - i,
        {
            assert(tv[i as int] == toks@[i as int]@);
            i = i + 1;
        }
        if i == n {
            return None;
        }
        assert(tv[i as int] == toks@[i as int]@);
        let from = &toks[i];
        let last = &toks[n - 1];
        assert(tv.last() == toks@[n - 1]@);
        let exchange = if !chars_eq(last, from) {
            parse_exchange_chars(last)
        } else {
            Exchange::Absent
        };
        return Some(
            ParsedMessage {
                raw: string_of(&raw),
                from: string_of(from),
                to: None,
                is_cq: true,
                exchange,
            },
        );
    }
    if n < 2 || !probable_callsign_chars(&toks[0]) || !probable_callsign_chars(&toks[1]) {
        assert(n >= 2 ==> tv[1] == toks@[1]@);
        return None;
    }
    assert(tv[1] == toks@[1]@);
    let exchange = if n > 2 {
        assert(tv[2] == toks@[2]@);
        parse_exchange_chars(&toks[2])
    } else {
        Exchange::Absent
    };
    Some(
        ParsedMessage {
            raw: string_of(&raw),
            from: string_of(&toks[1]),
            to: Some(string_of(&toks[0])),
            is_cq: false,
            exchange,
        },
    )
}

/// A decoded message eligible for an automatic reply.
#[derive(Debug, Clone)]
pub struct ReplyCandidate {
    pub index: usize,
    pub snr_db: i8,
    pub freq_hz: u32,
    pub parsed: ParsedMessage,
}

/// The quantity a reply policy minimises.
pub open spec fn rank_primary(c: ReplyCandidate, policy: AutoReplyPolicy, rx_tone_hz: u32) -> int {
    match policy {
        AutoReplyPolicy::First => 0,
        AutoReplyPolicy::Strongest => -(c.snr_db as int),
        AutoReplyPolicy::Weakest => c.snr_db as int,
        AutoReplyPolicy::Closest => if c.freq_hz >= rx_tone_hz {
            c.freq_hz - rx_tone_hz
        } else {
            rx_tone_hz - c.freq_hz
        },
    }
}

/// `a` is preferred to `b` under the policy; the decode index breaks ties.
pub open spec fn ranks_before(
    a: ReplyCandidate,
    b: ReplyCandidate,
    policy: AutoReplyPolicy,
    rx_tone_hz: u32,
) -> bool {
    rank_primary(a, policy, rx_tone_hz) < rank_primary(b, policy, rx_tone_hz) || (rank_primary(
        a,
        policy,
        rx_tone_hz,
    ) == rank_primary(b, policy, rx_tone_hz) && a.index < b.index)
}

/// Position `k` holds the candidate a stable sort by the policy puts first:
/// nothing ranks before it, and it ranks before every earlier candidate.
pub open spec fn is_first_choice(
    s: Seq<ReplyCandidate>,
    k: int,
    policy: AutoReplyPolicy,
    rx_tone_hz: u32,
) -> bool {
    &&& 0 <= k < s.len()
    &&& forall|j: int| 0 <= j < s.len() ==> !ranks_before(#[trigger] s[j], s[k], policy, rx_tone_hz)
    &&& forall|j: int| 0 <= j < k ==> ranks_before(s[k], #[trigger] s[j], policy, rx_tone_hz)
}

fn ranks_before_exec(
    a: &ReplyCandidate,
    b: &ReplyCandidate,
    policy: AutoReplyPolicy,
    rx_tone_hz: u32,
) -> (r: bool)
    ensures
        r == ranks_before(*a, *b, policy, rx_tone_hz),
{
    let (pa, pb): (i64, i64) = match policy {
        AutoReplyPolicy::First => (0, 0),
        AutoReplyPolicy::Strongest => (-(a.snr_db as i64), -(b.snr_db as i64)),
        AutoReplyPolicy::Weakest => (a.snr_db as i64, b.snr_db as i64),
        AutoReplyPolicy::Closest => {
            let da: u32 = if a.freq_hz >= rx_tone_hz {
                a.freq_hz - rx_tone_hz
            } else {
                rx_tone_hz - a.freq_hz
            };
            let db: u32 = if b.freq_hz >= rx_tone_hz {
                b.freq_hz - rx_tone_hz
            } else {
                rx_tone_hz - b.freq_hz
            };
            (da as i64, db as i64)
        },
    };
    pa < pb || (pa == pb && a.index < b.index)
}

/// Picks the caller to answer: the one a stable sort by the policy puts
/// first (first decoded, strongest, weakest, or closest to the RX tone; the
/// decode index breaks ties).
pub fn select_candidate(
    candidates: Vec<ReplyCandidate>,
    policy: AutoReplyPolicy,
    rx_tone_hz: u32,
) -> (r: Option<ReplyCandidate>)
    ensures
        r is None <==> candidates@.len() == 0,
        r matches Some(c) ==> exists|k: int|
            is_first_choice(candidates@, k, policy, rx_tone_hz) && c == candidates@[k],
{
    let mut candidates = candidates;
    let n = candidates.len();
    if n == 0 {
        return None;
    }
    let mut best: usize = 0;
    let mut i: usize = 1;
    while i < n
        invariant
            1 <= i <= n,
            n == candidates.len(),
            best < i,
            forall|j: int|
                0 <= j < i ==> !ranks_before(
                    #[trigger] candidates@[j],
                    candidates@[best as int],
                    policy,
                    rx_tone_hz,
                ),
            forall|j: int|
                0 <= j < best ==> ranks_before(
                    candidates@[best as int],
                    #[trigger] candidates@[j],
                    policy,
                    rx_tone_hz,
                ),
        decreases n - i,
    {
        if ranks_before_exec(&candidates[i], &candidates[best], policy, rx_tone_hz) {
            best = i;
        }
        i = i + 1;
    }
    let ghost all = candidates@;
    assert(is_first_choice(all, best as int, policy, rx_tone_hz));
    let c = candidates.remove(best);
    Some(c)
}

/// The steps of an exchange as seen from this station.
#[derive(Debug, Clone, Copy, PartialEq, Eq, Structural)]
pub enum QsoStage {
    Calling,
    GridSent,
    ReportSent,
    RogerReportSent,
    FinalSent,
    Complete,
}

/// Whether the transmission just completed ends the QSO (the final `RR73`
/// or `73` went out).
pub fn should_finalize_after_tx(stage: QsoStage) -> (r: bool)
    ensures
        r == (stage == QsoStage::FinalSent),
{
    stage == QsoStage::FinalSent
}

/// The exchange with one station.
#[derive(Debug, Clone)]
pub struct QsoSession {
    pub target: String,
    pub stage: QsoStage,
    pub tx_parity: u8,
    pub started_period: u64,
    pub last_rx_period: u64,
    pub remote_grid: Option<String>,
    pub report_sent: Option<i8>,
    pub report_received: Option<i8>,
    pub tx_attempts: u8,
}

/// A session with its texts as characters.
pub struct QsoSessionView {
    pub target: Seq<char>,
    pub stage: QsoStage,
    pub tx_parity: u8,
    pub started_period: u64,
    pub last_rx_period: u64,
    pub remote_grid: Option<Seq<char>>,
    pub report_sent: Option<i8>,
    pub report_received: Option<i8>,
    pub tx_attempts: u8,
}

impl View for QsoSession {
    type V = QsoSessionView;

    open spec fn view(&self) -> QsoSessionView {
        QsoSessionView {
            target: self.target@,
            stage: self.stage,
            tx_parity: self.tx_parity,
            started_period: self.started_period,
            last_rx_period: self.last_rx_period,
            remote_grid: opt_chars(self.remote_grid),
            report_sent: self.report_sent,
            report_received: self.report_received,
            tx_attempts: self.tx_attempts,
        }
    }
}

/// The parity of the periods in which this station answers a message
/// received in period `rx_period`: the opposite one.
pub open spec fn reply_parity(rx_period: u64) -> u8 {
    ((rx_period + 1) % 2) as u8
}

fn reply_parity_exec(rx_period: u64) -> (r: u8)
    ensures
        r == reply_parity(rx_period),
{
    if rx_period % 2 == 0 {
        1
    } else {
        0
    }
}

/// The report this station sends: the measured SNR limited to `-50..=49`.
pub open spec fn clamp_snr(snr: i8) -> i8 {
    if snr < -50 {
        -50i8
    } else if snr > 49 {
        49i8
    } else {
        snr
    }
}

/// A new session with the station `target`, heard in period `rx_period`.
pub open spec fn session_start(target: Seq<char>, rx_period: u64) -> QsoSessionView {
    QsoSessionView {
        target,
        stage: QsoStage::Calling,
        tx_parity: reply_parity(rx_period),
        started_period: rx_period,
        last_rx_period: rx_period,
        remote_grid: None,
        report_sent: None,
        report_received: None,
        tx_attempts: 0,
    }
}

/// Moves to `next`; the attempt counter restarts when the step changes.
pub open spec fn advance(s: QsoSessionView, next: QsoStage) -> QsoSessionView {
    QsoSessionView {
        stage: next,
        tx_attempts: if next != s.stage {
            0
        } else {
            s.tx_attempts
        },
        ..s
    }
}

/// Whether a session takes notice of a message at all: it is still open,
/// the message comes from the worked station and is a CQ or addressed to us.
pub open spec fn accepts(s: QsoSessionView, p: ParsedView, my_call: Seq<char>) -> bool {
    s.stage != QsoStage::Complete && same_callsign(p.from, s.target) && (p.is_cq
        || p.is_directed_to(my_call))
}

/// The session after an accepted message and the text sent next, if any.
pub open spec fn response(
    s: QsoSessionView,
    p: ParsedView,
    my_call: Seq<char>,
    my_grid: Seq<char>,
    received_snr: i8,
    rx_period: u64,
) -> (QsoSessionView, Option<Seq<char>>) {
    if !accepts(s, p, my_call) {
        (s, None)
    } else {
        let s1 = QsoSessionView {
            last_rx_period: rx_period,
            tx_parity: reply_parity(rx_period),
            ..s
        };
        let s2 = match p.exchange {
            ExchangeView::Grid(g) => QsoSessionView { remote_grid: Some(g), ..s1 },
            ExchangeView::Report(r) => QsoSessionView { report_received: Some(r), ..s1 },
            ExchangeView::RogerReport(r) => QsoSessionView { report_received: Some(r), ..s1 },
            _ => s1,
        };
        let snr = clamp_snr(received_snr);
        let prefix = text::upper(s.target) + seq![' '] + text::upper(text::trim(my_call)) + seq![
            ' ',
        ];
        match p.exchange {
            ExchangeView::Grid(_) | ExchangeView::Absent => if p.is_cq {
                (
                    advance(s2, QsoStage::GridSent),
                    Some(prefix + text::upper(text::trim(my_grid))),
                )
            } else {
                (
                    advance(QsoSessionView { report_sent: Some(snr), ..s2 }, QsoStage::ReportSent),
                    Some(prefix + text::signed_two_digits(snr as int)),
                )
            },
            ExchangeView::Report(_) => (
                advance(
                    QsoSessionView { report_sent: Some(snr), ..s2 },
                    QsoStage::RogerReportSent,
                ),
                Some(prefix + seq!['R'] + text::signed_two_digits(snr as int)),
            ),
            ExchangeView::RogerReport(_) => (
                advance(s2, QsoStage::FinalSent),
                Some(prefix + "RR73"@),
            ),
            ExchangeView::Roger => (advance(s2, QsoStage::FinalSent), Some(prefix + "73"@)),
            ExchangeView::Roger73 | ExchangeView::SeventyThree => (
                QsoSessionView { stage: QsoStage::Complete, ..s2 },
                None,
            ),
            ExchangeView::Other(_) => (s2, None),
        }
    }
}

pub open spec fn opt_string_chars(o: Option<String>) -> Option<Seq<char>> {
    opt_chars(o)
}

impl QsoSession {
    /// A new session with `target`, whose message was heard in `rx_period`.
    pub fn start(target: String, rx_period: u64) -> (r: Self)
        ensures
            r@ == session_start(target@, rx_period),
    {
        QsoSession {
            target,
            stage: QsoStage::Calling,
            tx_parity: reply_parity_exec(rx_period),
            started_period: rx_period,
            last_rx_period: rx_period,
            remote_grid: None,
            report_sent: None,
            report_received: None,
            tx_attempts: 0,
        }
    }

    /// Takes in a decoded message and returns the next transmission of the
    /// exchange, if the message calls for one. Messages from other stations,
    /// or addressed elsewhere, leave the session untouched.
    pub fn response_to(
        &mut self,
        parsed: &ParsedMessage,
        my_call: &str,
        my_grid: &str,
        received_snr: i8,
        rx_period: u64,
    ) -> (r: Option<String>)
        ensures
            (final(self)@, opt_chars(r)) == response(
                old(self)@,
                parsed@,
                my_call@,
                my_grid@,
                received_snr,
                rx_period,
            ),
    {
        if self.stage == QsoStage::Complete {
            return None;
        }
        if !callsign_eq(parsed.from.as_str(), self.target.as_str()) || (!parsed.is_cq
            && !parsed.directed_to(my_call)) {
            return None;
        }
        let ghost s0 = self@;
        self.last_rx_period = rx_period;
        self.tx_parity = reply_parity_exec(rx_period);
        let target = upper_chars(&chars_of(self.target.as_str()));
        let me = trim_upper(my_call);
        let snr: i8 = if received_snr < -50 {
            -50
        } else if received_snr > 49 {
            49
        } else {
            received_snr
        };
        match &parsed.exchange {
            Exchange::Grid(grid) => self.remote_grid = Some(grid.clone()),
            Exchange::Report(report) => self.report_received = Some(*report),
            Exchange::RogerReport(report) => self.report_received = Some(*report),
            _ => {},
        }
        let previous_stage = self.stage;
        let mut message = String::new();
        append_chars(&mut message, &target);
        push_char(&mut message, ' ');
        append_chars(&mut message, &me);
        push_char(&mut message, ' ');
        let ghost prefix = message@;
        let next_stage = match &parsed.exchange {
            Exchange::Grid(_) | Exchange::Absent => {
                if parsed.is_cq {
                    let grid = trim_upper(my_grid);
                    append_chars(&mut message, &grid);
                    QsoStage::GridSent
                } else {
                    self.report_sent = Some(snr);
                    push_signed_two_digits(&mut message, snr);
                    QsoStage::ReportSent
                }
            },
            Exchange::Report(_) => {
                self.report_sent = Some(snr);
                push_char(&mut message, 'R');
                push_signed_two_digits(&mut message, snr);
                QsoStage::RogerReportSent
            },
            Exchange::RogerReport(_) => {
                message.append("RR73");
                QsoStage::FinalSent
            },
            Exchange::Roger => {
                message.append("73");
                QsoStage::FinalSent
            },
            Exchange::Roger73 | Exchange::SeventyThree => {
                self.stage = QsoStage::Complete;
                return None;
            },
            Exchange::Other(_) => {
                return None;
            },
        };
        if next_stage != previous_stage {
            self.tx_attempts = 0;
        }
        self.stage = next_stage;
        Some(message)
    }
}

/// Whether a decode completing period `decoded_period` is the receive slot
/// right after our last transmission, so an unanswered call may be repeated.
pub fn should_retry_after_decode(last_tx_period: Option<u64>, decoded_period: u64) -> (r: bool)
    ensures
        r == (match last_tx_period {
            Some(last) => decoded_period == (if last == u64::MAX {
                last as int
            } else {
                last + 1
            }),
            None => false,
        }),
{
    match last_tx_period {
        Some(last) => decoded_period == last.saturating_add(1),
        None => false,
    }
}

/// Whether an unanswered CQ is sent again: automatic sequencing is on, the
/// last transmission was the CQ, and the receive period after it has ended.
pub fn should_repeat_cq(
    auto_sequence: bool,
    last_tx_was_cq: bool,
    last_tx_period: Option<u64>,
    completed_rx_period: Option<u64>,
) -> (r: bool)
    ensures
        r == (auto_sequence && last_tx_was_cq && match (last_tx_period, completed_rx_period) {
            (Some(last), Some(period)) => period == (if last == u64::MAX {
                last as int
            } else {
                last + 1
            }),
            _ => false,
        }),
{
    auto_sequence && last_tx_was_cq && match completed_rx_period {
        Some(period) => should_retry_after_decode(last_tx_period, period),
        None => false,
    }
}

} // verus!

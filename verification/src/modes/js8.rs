//! JS8 messages: composing, formatting, heard stations, traffic kinds and
//! the workspace status.
use crate::modes::band_plan::{increasing, lemma_increasing_ordered, plan_view};
use crate::modes::exchange::{parse_message, probable_callsign, probable_callsign_chars};
use crate::text;
use crate::text::{
    append_chars, before_char_exec, chars_of, contains_lit, ends_with_lit, eq_lit,
    join_spaced_from, owned, parse_i8_chars, push_char, push_i8_decimal, split_words, starts_with_lit,
    string_of, strip_chars, sub_chars, trim_upper, upper_chars, CharClass,
};
use vstd::prelude::*;

verus! {

/// The JS8 calling frequency on each band, lowest band first.
pub open spec fn band_plan_bands() -> Seq<(Seq<char>, u64)> {
    seq![
        ("160m"@, 1842000u64),
        ("80m"@, 3578000u64),
        ("60m"@, 5357000u64),
        ("40m"@, 7078000u64),
        ("30m"@, 10130000u64),
        ("20m"@, 14078000u64),
        ("17m"@, 18104000u64),
        ("15m"@, 21078000u64),
        ("12m"@, 24922000u64),
        ("10m"@, 28078000u64),
        ("6m"@, 50318000u64),
    ]
}

/// The JS8 calling frequency on each band, lowest band first.
pub fn band_plan() -> (r: Vec<(&'static str, u64)>)
    ensures
        plan_view(r@) == band_plan_bands(),
{
    let mut r: Vec<(&'static str, u64)> = Vec::new();
    r.push(("160m", 1842000u64));
    r.push(("80m", 3578000u64));
    r.push(("60m", 5357000u64));
    r.push(("40m", 7078000u64));
    r.push(("30m", 10130000u64));
    r.push(("20m", 14078000u64));
    r.push(("17m", 18104000u64));
    r.push(("15m", 21078000u64));
    r.push(("12m", 24922000u64));
    r.push(("10m", 28078000u64));
    r.push(("6m", 50318000u64));
    assert(plan_view(r@) =~= band_plan_bands());
    r
}

/// The frequencies of this plan rise from band to band.
pub proof fn band_plan_is_increasing()
    ensures
        increasing(band_plan_bands()),
        forall|i: int, j: int|
            0 <= i < j < band_plan_bands().len() ==> band_plan_bands()[i].1 < band_plan_bands()[j].1,
{
    reveal_with_fuel(increasing, 12);
    lemma_increasing_ordered(band_plan_bands());
}

/// The kind of a JS8 frame that carries no decoded meaning.
#[derive(Debug, Clone, Copy, PartialEq, Eq, Structural)]
pub enum Js8FrameType {
    Unknown(u8),
}

/// A JS8 directed command (`GRID?`, `SNR -12`, ...).
#[derive(Debug, Clone, PartialEq, Eq)]
pub struct Js8Command {
    pub code: u8,
    pub name: String,
    pub number: Option<i8>,
}

/// A JS8 message as composed or decoded.
#[derive(Debug, Clone, PartialEq, Eq)]
pub enum Js8Message {
    Heartbeat { callsign: String, grid: Option<String>, cq: bool, subtype: u8 },
    Compound { callsign: String, grid: Option<String>, command: Option<Js8Command>, directed: bool },
    Directed { from: String, to: String, command: Js8Command },
    Data { encoded: String, compressed: bool },
    Raw { frame_type: Js8FrameType, payload: String },
}

pub struct Js8CommandView {
    pub code: u8,
    pub name: Seq<char>,
    pub number: Option<i8>,
}

pub enum Js8MessageView {
    Heartbeat { callsign: Seq<char>, grid: Option<Seq<char>>, cq: bool, subtype: u8 },
    Compound {
        callsign: Seq<char>,
        grid: Option<Seq<char>>,
        command: Option<Js8CommandView>,
        directed: bool,
    },
    Directed { from: Seq<char>, to: Seq<char>, command: Js8CommandView },
    Data { encoded: Seq<char>, compressed: bool },
    Raw { frame_type: Js8FrameType, payload: Seq<char> },
}

pub open spec fn opt_chars(o: Option<String>) -> Option<Seq<char>> {
    match o {
        Some(s) => Some(s@),
        None => None,
    }
}

impl View for Js8Command {
    type V = Js8CommandView;

    open spec fn view(&self) -> Js8CommandView {
        Js8CommandView { code: self.code, name: self.name@, number: self.number }
    }
}

pub open spec fn opt_command(o: Option<Js8Command>) -> Option<Js8CommandView> {
    match o {
        Some(c) => Some(c@),
        None => None,
    }
}

impl View for Js8Message {
    type V = Js8MessageView;

    open spec fn view(&self) -> Js8MessageView {
        match self {
            Js8Message::Heartbeat { callsign, grid, cq, subtype } => Js8MessageView::Heartbeat {
                callsign: callsign@,
                grid: opt_chars(*grid),
                cq: *cq,
                subtype: *subtype,
            },
            Js8Message::Compound { callsign, grid, command, directed } => Js8MessageView::Compound {
                callsign: callsign@,
                grid: opt_chars(*grid),
                command: opt_command(*command),
                directed: *directed,
            },
            Js8Message::Directed { from, to, command } => Js8MessageView::Directed {
                from: from@,
                to: to@,
                command: command@,
            },
            Js8Message::Data { encoded, compressed } => Js8MessageView::Data {
                encoded: encoded@,
                compressed: *compressed,
            },
            Js8Message::Raw { frame_type, payload } => Js8MessageView::Raw {
                frame_type: *frame_type,
                payload: payload@,
            },
        }
    }
}

pub open spec fn opt_message(o: Option<Js8Message>) -> Option<Js8MessageView> {
    match o {
        Some(m) => Some(m@),
        None => None,
    }
}

/// The JS8 command a word names, and its numeric code.
pub open spec fn command_code(c: Seq<char>) -> Option<(Seq<char>, u8)> {
    if c == "SNR?"@ {
        Some(("SNR?"@, 0u8))
    } else if c == "GRID?"@ {
        Some(("GRID?"@, 4u8))
    } else if c == "STATUS?"@ {
        Some(("STATUS?"@, 6u8))
    } else if c == "STATUS"@ {
        Some(("STATUS"@, 7u8))
    } else if c == "HEARING?"@ {
        Some(("HEARING?"@, 3u8))
    } else if c == "ACK"@ {
        Some(("ACK"@, 14u8))
    } else if c == "GRID"@ {
        Some(("GRID"@, 15u8))
    } else if c == "INFO?"@ {
        Some(("INFO?"@, 16u8))
    } else if c == "INFO"@ {
        Some(("INFO"@, 17u8))
    } else if c == "QSL?"@ {
        Some(("QSL?"@, 22u8))
    } else if c == "QSL"@ {
        Some(("QSL"@, 23u8))
    } else if c == "73"@ {
        Some(("73"@, 28u8))
    } else if c == "SNR"@ {
        Some(("SNR"@, 25u8))
    } else {
        None
    }
}

fn command_code_chars(v: &Vec<char>) -> (r: Option<(&'static str, u8)>)
    ensures
        match r {
            Some((name, code)) => command_code(v@) == Some((name@, code)),
            None => command_code(v@) is None,
        },
{
    if eq_lit(v, "SNR?") {
        Some(("SNR?", 0u8))
    } else if eq_lit(v, "GRID?") {
        Some(("GRID?", 4u8))
    } else if eq_lit(v, "STATUS?") {
        Some(("STATUS?", 6u8))
    } else if eq_lit(v, "STATUS") {
        Some(("STATUS", 7u8))
    } else if eq_lit(v, "HEARING?") {
        Some(("HEARING?", 3u8))
    } else if eq_lit(v, "ACK") {
        Some(("ACK", 14u8))
    } else if eq_lit(v, "GRID") {
        Some(("GRID", 15u8))
    } else if eq_lit(v, "INFO?") {
        Some(("INFO?", 16u8))
    } else if eq_lit(v, "INFO") {
        Some(("INFO", 17u8))
    } else if eq_lit(v, "QSL?") {
        Some(("QSL?", 22u8))
    } else if eq_lit(v, "QSL") {
        Some(("QSL", 23u8))
    } else if eq_lit(v, "73") {
        Some(("73", 28u8))
    } else if eq_lit(v, "SNR") {
        Some(("SNR", 25u8))
    } else {
        None
    }
}

/// The JS8 command a word names, and its numeric code.
pub fn js8_command_code(command: &str) -> (r: Option<(&'static str, u8)>)
    ensures
        match r {
            Some((name, code)) => command_code(command@) == Some((name@, code)),
            None => command_code(command@) is None,
        },
{
    command_code_chars(&chars_of(command))
}

pub open spec fn opt_upper(toks: Seq<Seq<char>>, i: int) -> Option<Seq<char>> {
    if i < toks.len() {
        Some(text::upper(toks[i]))
    } else {
        None
    }
}

/// How a compose line reads as a JS8 message: `CQ`/`HEARTBEAT CALL [GRID]`,
/// `FROM TO COMMAND [NUMBER]`, `CALL COMMAND...`, `CALL [GRID]`, or a raw
/// twelve-character frame.
pub open spec fn compose_of(compose: Seq<char>) -> Option<Js8MessageView> {
    let toks = text::words(compose);
    if toks.len() == 0 {
        None
    } else {
        let first = text::upper(toks[0]);
        if first == "CQ"@ || first == "HEARTBEAT"@ {
            if toks.len() < 2 {
                None
            } else {
                Some(
                    Js8MessageView::Heartbeat {
                        callsign: text::upper(toks[1]),
                        grid: opt_upper(toks, 2),
                        cq: first == "CQ"@,
                        subtype: 0,
                    },
                )
            }
        } else if toks.len() >= 3 && probable_callsign(first) && probable_callsign(toks[1]) {
            match command_code(text::upper(toks[2])) {
                None => None,
                Some((name, code)) => if code == 25 && toks.len() < 4 {
                    None
                } else {
                    Some(
                        Js8MessageView::Directed {
                            from: first,
                            to: text::upper(toks[1]),
                            command: Js8CommandView {
                                code,
                                name,
                                number: if code == 25 {
                                    text::parse_i8(toks[3])
                                } else {
                                    None
                                },
                            },
                        },
                    )
                },
            }
        } else if probable_callsign(first) {
            match command_code(text::upper(text::join_spaced(toks.drop_first()))) {
                Some((name, code)) => Some(
                    Js8MessageView::Compound {
                        callsign: first,
                        grid: None,
                        command: Some(Js8CommandView { code, name, number: None }),
                        directed: true,
                    },
                ),
                None => Some(
                    Js8MessageView::Compound {
                        callsign: first,
                        grid: opt_upper(toks, 1),
                        command: None,
                        directed: false,
                    },
                ),
            }
        } else if toks.len() == 1 && text::trim(compose).len() == 12 {
            Some(
                Js8MessageView::Raw {
                    frame_type: Js8FrameType::Unknown(0),
                    payload: text::upper(text::trim(compose)),
                },
            )
        } else {
            None
        }
    }
}

/// Reads a compose line as a JS8 message.
pub fn parse_js8_compose(compose: &str) -> (r: Option<Js8Message>)
    ensures
        opt_message(r) == compose_of(compose@),
{
    let all = chars_of(compose);
    let toks = split_words(&all);
    let ghost tv = text::views(toks@);
    let n = toks.len();
    if n == 0 {
        return None;
    }
    assert(tv[0] == toks@[0]@);
    let first = upper_chars(&toks[0]);
    if eq_lit(&first, "CQ") || eq_lit(&first, "HEARTBEAT") {
        if n < 2 {
            return None;
        }
        assert(tv[1] == toks@[1]@);
        let grid = if n > 2 {
            assert(tv[2] == toks@[2]@);
            Some(string_of(&upper_chars(&toks[2])))
        } else {
            None
        };
        return Some(
            Js8Message::Heartbeat {
                callsign: string_of(&upper_chars(&toks[1])),
                grid,
                cq: eq_lit(&first, "CQ"),
                subtype: 0,
            },
        );
    }
    if n >= 3 && probable_callsign_chars(&first) && probable_callsign_chars(&toks[1]) {
        assert(tv[1] == toks@[1]@ && tv[2] == toks@[2]@);
        let command_name = upper_chars(&toks[2]);
        let (name, code) = match command_code_chars(&command_name) {
            Some(found) => found,
            None => return None,
        };
        let number = if code == 25 {
            if n < 4 {
                return None;
            }
            assert(tv[3] == toks@[3]@);
            parse_i8_chars(&toks[3])
        } else {
            None
        };
        return Some(
            Js8Message::Directed {
                from: string_of(&first),
                to: string_of(&upper_chars(&toks[1])),
                command: Js8Command { code, name: owned(name), number },
            },
        );
    }
    if probable_callsign_chars(&first) {
        let joined = join_spaced_from(&toks, 1);
        assert(tv.subrange(1, n as int) =~= tv.drop_first());
        let command_name = upper_chars(&joined);
        if let Some((name, code)) = command_code_chars(&command_name) {
            return Some(
                Js8Message::Compound {
                    callsign: string_of(&first),
                    grid: None,
                    command: Some(Js8Command { code, name: owned(name), number: None }),
                    directed: true,
                },
            );
        }
        let grid = if n > 1 {
            assert(tv[1] == toks@[1]@);
            Some(string_of(&upper_chars(&toks[1])))
        } else {
            None
        };
        return Some(
            Js8Message::Compound { callsign: string_of(&first), grid, command: None, directed: false },
        );
    }
    if n == 1 {
        let trimmed = strip_chars(&all, CharClass::Whitespace);
        if trimmed.len() == 12 {
            return Some(
                Js8Message::Raw {
                    frame_type: Js8FrameType::Unknown(0),
                    payload: string_of(&upper_chars(&trimmed)),
                },
            );
        }
    }
    None
}

pub open spec fn opt_suffix(o: Option<Seq<char>>) -> Seq<char> {
    match o {
        Some(g) => seq![' '] + g,
        None => seq![],
    }
}

/// How a JS8 message is shown in the conversation.
pub open spec fn message_text(m: Js8MessageView) -> Seq<char> {
    match m {
        Js8MessageView::Heartbeat { callsign, grid, cq, .. } => (if cq {
            "CQ"@
        } else {
            "HEARTBEAT"@
        }) + seq![' '] + callsign + opt_suffix(grid),
        Js8MessageView::Compound { callsign, grid, command, directed } => {
            let body = callsign + opt_suffix(grid) + match command {
                Some(c) => seq![' '] + c.name,
                None => seq![],
            };
            if directed {
                "DIRECTED "@ + body
            } else {
                body
            }
        },
        Js8MessageView::Directed { from, to, command } => from + seq![' '] + to + seq![' ']
            + command.name + match command.number {
            Some(n) => seq![' '] + text::int_decimal(n as int),
            None => seq![],
        },
        Js8MessageView::Data { encoded, compressed } => (if compressed {
            "DATA-COMPRESSED"@
        } else {
            "DATA"@
        }) + seq![' '] + encoded,
        Js8MessageView::Raw { payload, .. } => payload,
    }
}

fn append_str(s: &mut String, t: &String)
    ensures
        final(s)@ == old(s)@ + t@,
{
    s.append(t.as_str());
}

fn append_opt_suffix(s: &mut String, o: &Option<String>)
    ensures
        final(s)@ == old(s)@ + opt_suffix(opt_chars(*o)),
{
    let ghost start = s@;
    match o {
        Some(g) => {
            push_char(s, ' ');
            append_str(s, g);
            assert(s@ =~= start + (seq![' '] + g@));
        },
        None => {
            assert(s@ =~= start + Seq::<char>::empty());
        },
    }
}

/// The text of a JS8 message as the conversation shows it.
pub fn format_js8_message(message: &Js8Message) -> (r: String)
    ensures
        r@ == message_text(message@),
{
    match message {
        Js8Message::Heartbeat { callsign, grid, cq, .. } => {
            let mut text = String::new();
            if *cq {
                text.append("CQ");
            } else {
                text.append("HEARTBEAT");
            }
            push_char(&mut text, ' ');
            append_str(&mut text, callsign);
            append_opt_suffix(&mut text, grid);
            text
        },
        Js8Message::Compound { callsign, grid, command, directed } => {
            let mut body = String::new();
            append_str(&mut body, callsign);
            append_opt_suffix(&mut body, grid);
            let ghost mid = body@;
            match command {
                Some(c) => {
                    push_char(&mut body, ' ');
                    append_str(&mut body, &c.name);
                    assert(body@ =~= mid + (seq![' '] + c.name@));
                },
                None => {
                    assert(body@ =~= mid + Seq::<char>::empty());
                },
            }
            if *directed {
                let mut text = String::new();
                text.append("DIRECTED ");
                append_str(&mut text, &body);
                text
            } else {
                body
            }
        },
        Js8Message::Directed { from, to, command } => {
            let mut text = String::new();
            append_str(&mut text, from);
            push_char(&mut text, ' ');
            append_str(&mut text, to);
            push_char(&mut text, ' ');
            append_str(&mut text, &command.name);
            let ghost mid = text@;
            match command.number {
                Some(n) => {
                    push_char(&mut text, ' ');
                    push_i8_decimal(&mut text, n);
                    assert(text@ =~= mid + (seq![' '] + text::int_decimal(n as int)));
                },
                None => {
                    assert(text@ =~= mid + Seq::<char>::empty());
                },
            }
            text
        },
        Js8Message::Data { encoded, compressed } => {
            let mut text = String::new();
            if *compressed {
                text.append("DATA-COMPRESSED");
            } else {
                text.append("DATA");
            }
            push_char(&mut text, ' ');
            append_str(&mut text, encoded);
            text
        },
        Js8Message::Raw { payload, .. } => payload.clone(),
    }
}

/// The station a received JS8 line shows as heard: `@ALLCALL` when the line
/// holds that word, else the callsign after `CQ+`, else the text before the
/// first `+`, as long as it is shaped like a callsign.
pub open spec fn heard_of(message: Seq<char>) -> Option<Seq<char>> {
    let up = text::upper(text::trim(message));
    if text::words(up).contains("@ALLCALL"@) {
        Some("@ALLCALL"@)
    } else if text::starts_with(up, "CQ+"@) && probable_callsign(
        text::before_char(up.skip(3), '+'),
    ) {
        Some(text::before_char(up.skip(3), '+'))
    } else if probable_callsign(text::before_char(up, '+')) {
        Some(text::before_char(up, '+'))
    } else {
        None
    }
}

/// The station heard in a received JS8 line.
pub fn js8_heard_callsign(message: &str) -> (r: Option<String>)
    ensures
        opt_chars(r) == heard_of(message@),
{
    let up = trim_upper(message);
    let toks = split_words(&up);
    let ghost tv = text::views(toks@);
    let mut i: usize = 0;
    while i < toks.len()
        invariant
            i <= toks.len(),
            tv == text::views(toks@),
            tv == text::words(up@),
            up@ == text::upper(text::trim(message@)),
            forall|k: int| 0 <= k < i ==> tv[k] != "@ALLCALL"@,
        decreases toks.len() - i,
    {
        assert(tv[i as int] == toks@[i as int]@);
        if eq_lit(&toks[i], "@ALLCALL") {
            assert(tv.contains("@ALLCALL"@)) by {
                assert(tv[i as int] == "@ALLCALL"@);
            }
            return Some(owned("@ALLCALL"));
        }
        i = i + 1;
    }
    assert(!tv.contains("@ALLCALL"@));
    if starts_with_lit(&up, "CQ+") {
        proof {
            reveal_strlit("CQ+");
        }
        let payload = sub_chars(&up, 3, up.len());
        assert(payload@ =~= up@.skip(3));
        let call = before_char_exec(&payload, '+');
        if probable_callsign_chars(&call) {
            return Some(string_of(&call));
        }
    }
    let call = before_char_exec(&up, '+');
    if probable_callsign_chars(&call) {
        Some(string_of(&call))
    } else {
        None
    }
}

/// What a JS8 line is about.
#[derive(Debug, Clone, Copy, PartialEq, Eq, Structural)]
pub enum Js8TrafficKind {
    Conversation,
    Announcement,
    Presence,
    Maintenance,
}

/// Station-maintenance queries and replies.
pub open spec fn is_maintenance_word(w: Seq<char>) -> bool {
    ||| w == "GRID?"@
    ||| w == "STATUS?"@
    ||| w == "STATUS"@
    ||| w == "HEARING?"@
    ||| w == "INFO?"@
    ||| w == "INFO"@
    ||| w == "SNR?"@
}

/// The kind of a JS8 line: a CQ announces, a heartbeat or a closing `73`
/// shows presence, a trailing station query is maintenance.
pub open spec fn traffic_kind_of(message: Seq<char>) -> Js8TrafficKind {
    let up = text::upper(text::trim(message));
    let toks = text::words(up);
    if text::starts_with(up, "CQ "@) {
        Js8TrafficKind::Announcement
    } else if text::starts_with(up, "HEARTBEAT "@) || text::ends_with(up, " 73"@) {
        Js8TrafficKind::Presence
    } else if toks.len() > 0 && is_maintenance_word(toks.last()) {
        Js8TrafficKind::Maintenance
    } else {
        Js8TrafficKind::Conversation
    }
}

/// Classifies a JS8 line.
pub fn js8_traffic_kind(message: &str) -> (r: Js8TrafficKind)
    ensures
        r == traffic_kind_of(message@),
{
    let up = trim_upper(message);
    if starts_with_lit(&up, "CQ ") {
        return Js8TrafficKind::Announcement;
    }
    if starts_with_lit(&up, "HEARTBEAT ") || ends_with_lit(&up, " 73") {
        return Js8TrafficKind::Presence;
    }
    let toks = split_words(&up);
    let ghost tv = text::views(toks@);
    if toks.len() > 0 {
        let last = &toks[toks.len() - 1];
        assert(tv.last() == last@);
        if eq_lit(last, "GRID?") || eq_lit(last, "STATUS?") || eq_lit(last, "STATUS") || eq_lit(
            last,
            "HEARING?",
        ) || eq_lit(last, "INFO?") || eq_lit(last, "INFO") || eq_lit(last, "SNR?") {
            return Js8TrafficKind::Maintenance;
        }
    }
    Js8TrafficKind::Conversation
}

impl Js8TrafficKind {
    pub open spec fn label_text(self) -> Seq<char> {
        match self {
            Js8TrafficKind::Conversation => "conversation"@,
            Js8TrafficKind::Announcement => "announcement"@,
            Js8TrafficKind::Presence => "presence"@,
            Js8TrafficKind::Maintenance => "maintenance"@,
        }
    }
}

/// The tag shown next to a JS8 line of the given kind.
pub fn js8_traffic_label(kind: Js8TrafficKind) -> (r: &'static str)
    ensures
        r@ == kind.label_text(),
{
    match kind {
        Js8TrafficKind::Conversation => "conversation",
        Js8TrafficKind::Announcement => "announcement",
        Js8TrafficKind::Presence => "presence",
        Js8TrafficKind::Maintenance => "maintenance",
    }
}

/// The transmit state shown in the JS8 workspace: in progress while the
/// waveform is out, armed once a transmission was started or the status
/// reports it queued, else disarmed.
pub fn js8_status(tx_active: bool, tx_started: bool, tx_status: &str) -> (r: &'static str)
    ensures
        r@ == (if tx_active {
            "TX IN PROGRESS"@
        } else if tx_started || text::contains(text::upper(tx_status@), "QUEUED"@) {
            "TX ARMED"@
        } else {
            "RX · TX DISARMED"@
        }),
{
    if tx_active {
        "TX IN PROGRESS"
    } else if tx_started || contains_lit(&upper_chars(&chars_of(tx_status)), "QUEUED") {
        "TX ARMED"
    } else {
        "RX · TX DISARMED"
    }
}

/// The station of a decoded JS8 line: the sender of a standard message, else
/// the heard station.
pub fn js8_entry_callsign(message: &str) -> (r: Option<String>)
    ensures
        opt_chars(r) == (match crate::modes::exchange::message_of(message@) {
            Some(p) => Some(p.from),
            None => heard_of(message@),
        }),
{
    match parse_message(message) {
        Some(parsed) => Some(parsed.from),
        None => js8_heard_callsign(message),
    }
}

} // verus!

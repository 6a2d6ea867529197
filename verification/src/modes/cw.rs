//! The CW workspace: band plan, auto-target cycling and the callsigns
//! picked out of decoded CW.
use crate::modes::band_plan::{increasing, lemma_increasing_ordered, plan_view};
use crate::modes::exchange::{probable_callsign, probable_callsign_chars};
use crate::text;
use crate::text::{
    chars_eq_ignore_case, chars_of, split_words, string_of, strip_chars, trim_upper, upper_chars,
    CharClass,
};
use vstd::prelude::*;

verus! {

/// The CW calling frequency on each band, lowest band first.
pub open spec fn band_plan_bands() -> Seq<(Seq<char>, u64)> {
    seq![
        ("160m"@, 1836000u64),
        ("80m"@, 3570000u64),
        ("60m"@, 5351500u64),
        ("40m"@, 7030000u64),
        ("30m"@, 10120000u64),
        ("20m"@, 14050000u64),
        ("17m"@, 18086000u64),
        ("15m"@, 21050000u64),
        ("12m"@, 24930000u64),
        ("10m"@, 28050000u64),
        ("6m"@, 50100000u64),
        ("2m"@, 146520000u64),
        ("70cm"@, 432100000u64),
    ]
}

/// The CW calling frequency on each band, lowest band first.
pub fn band_plan() -> (r: Vec<(&'static str, u64)>)
    ensures
        plan_view(r@) == band_plan_bands(),
{
    let mut r: Vec<(&'static str, u64)> = Vec::new();
    r.push(("160m", 1836000u64));
    r.push(("80m", 3570000u64));
    r.push(("60m", 5351500u64));
    r.push(("40m", 7030000u64));
    r.push(("30m", 10120000u64));
    r.push(("20m", 14050000u64));
    r.push(("17m", 18086000u64));
    r.push(("15m", 21050000u64));
    r.push(("12m", 24930000u64));
    r.push(("10m", 28050000u64));
    r.push(("6m", 50100000u64));
    r.push(("2m", 146520000u64));
    r.push(("70cm", 432100000u64));
    assert(plan_view(r@) =~= band_plan_bands());
    r
}

/// The frequencies of this plan rise from band to band.
pub proof fn band_plan_is_increasing()
    ensures
        increasing(band_plan_bands()),
        forall|i: int, j: int|
            0 <= i < j < band_plan_bands().len() ==> band_plan_bands()[i].1 < band_plan_bands()[j].1,
{
    reveal_with_fuel(increasing, 14);
    lemma_increasing_ordered(band_plan_bands());
}

/// The heading of the CW workspace.
pub fn workspace_description() -> (r: &'static str)
    ensures
        r@ == "CW · Software Audio"@,
{
    "CW · Software Audio"
}

/// The auto-target button cycles off → scanning → locked (retarget) → off.
pub fn next_auto_target_state(scanning: bool, retarget: bool) -> (r: (bool, bool))
    ensures
        r == (if !scanning && !retarget {
            (true, false)
        } else if scanning && !retarget {
            (false, true)
        } else {
            (false, false)
        }),
{
    if !scanning && !retarget {
        (true, false)
    } else if scanning && !retarget {
        (false, true)
    } else {
        (false, false)
    }
}

/// Most callsigns offered from the live decode.
pub const MAX_DETECTED_CALLSIGNS: usize = 8;

/// A word of decoded CW is passed over: empty once its punctuation is cut,
/// the operator's own call, not shaped like a callsign, or already listed.
pub open spec fn passes_over(call: Seq<char>, own_call: Seq<char>, seen: Seq<Seq<char>>) -> bool {
    ||| call.len() == 0
    ||| text::upper(call) == text::upper(own_call)
    ||| !probable_callsign(call)
    ||| exists|i: int| 0 <= i < seen.len() && text::upper(#[trigger] seen[i]) == text::upper(call)
}

/// The callsigns found in the remaining words `toks`, after those in `seen`.
pub open spec fn detected_from(
    toks: Seq<Seq<char>>,
    own_call: Seq<char>,
    seen: Seq<Seq<char>>,
) -> Seq<Seq<char>>
    decreases toks.len(),
{
    if toks.len() == 0 || seen.len() >= 8 {
        seen
    } else {
        let call = text::strip(toks[0], CharClass::NonAlphanumeric);
        if passes_over(call, own_call, seen) {
            detected_from(toks.drop_first(), own_call, seen)
        } else {
            detected_from(toks.drop_first(), own_call, seen.push(text::upper(call)))
        }
    }
}

/// The distinct callsigns in a stretch of decoded CW, upper-cased, in the
/// order heard, without the operator's own call, at most eight.
pub fn detected_callsigns(text: &str, own_call: &str) -> (r: Vec<String>)
    ensures
        text::string_views(r@) == detected_from(text::words(text@), own_call@, seq![]),
{
    let all = chars_of(text);
    let own = chars_of(own_call);
    let toks = split_words(&all);
    let ghost tv = text::views(toks@);
    let mut calls: Vec<String> = Vec::new();
    let mut seen: Vec<Vec<char>> = Vec::new();
    let mut i: usize = 0;
    assert(tv.subrange(0, tv.len() as int) =~= tv);
    assert(text::views(seen@) =~= Seq::<Seq<char>>::empty());
    while i < toks.len()
        invariant
            i <= toks.len(),
            tv == text::views(toks@),
            own@ == own_call@,
            tv == text::words(text@),
            seen@.len() < 8,
            text::string_views(calls@) == text::views(seen@),
            detected_from(tv, own_call@, seq![]) == detected_from(
                tv.subrange(i as int, tv.len() as int),
                own_call@,
                text::views(seen@),
            ),
        decreases toks.len() - i,
    {
        let ghost rest = tv.subrange(i as int, tv.len() as int);
        assert(rest[0] == toks@[i as int]@);
        assert(rest.drop_first() =~= tv.subrange(i + 1, tv.len() as int));
        let call = strip_chars(&toks[i], CharClass::NonAlphanumeric);
        let mut skip = call.len() == 0 || chars_eq_ignore_case(&call, &own)
            || !probable_callsign_chars(&call);
        if !skip {
            let mut j: usize = 0;
            while j < seen.len()
                invariant
                    j <= seen.len(),
                    forall|k: int|
                        0 <= k < j ==> text::upper(#[trigger] seen@[k]@) != text::upper(call@),
                ensures
                    j <= seen.len(),
                    j < seen.len() ==> text::upper(seen@[j as int]@) == text::upper(call@),
                    forall|k: int|
                        0 <= k < j ==> text::upper(#[trigger] seen@[k]@) != text::upper(call@),
                decreases seen.len() - j,
            {
                if chars_eq_ignore_case(&seen[j], &call) {
                    break;
                }
                j = j + 1;
            }
            skip = j < seen.len();
            proof {
                let sv = text::views(seen@);
                if skip {
                    assert(sv[j as int] == seen@[j as int]@);
                } else {
                    assert forall|k: int| 0 <= k < sv.len() implies text::upper(#[trigger] sv[k])
                        != text::upper(call@) by {
                        assert(sv[k] == seen@[k]@);
                    }
                }
            }
        }
        i = i + 1;
        if !skip {
            let up = upper_chars(&call);
            let ghost before_seen = text::views(seen@);
            let ghost before_calls = text::string_views(calls@);
            calls.push(string_of(&up));
            seen.push(up);
            assert(text::views(seen@) =~= before_seen.push(text::upper(call@)));
            assert(text::string_views(calls@) =~= before_calls.push(text::upper(call@)));
            if seen.len() == 8 {
                assert(detected_from(
                    tv.subrange(i as int, tv.len() as int),
                    own_call@,
                    text::views(seen@),
                ) == text::views(seen@));
                return calls;
            }
        }
    }
    assert(tv.subrange(i as int, tv.len() as int) =~= Seq::<Seq<char>>::empty());
    calls
}

/// The QSO fields of the CW desk as typed.
#[derive(Debug, Clone)]
pub struct CwQsoForm {
    pub callsign: String,
    pub rst_sent: String,
    pub rst_received: String,
    pub exchange_received: String,
    pub notes: String,
}

impl CwQsoForm {
    /// The form after a QSO was logged: empty, with `599` both ways.
    pub fn cleared() -> (r: Self)
        ensures
            r.callsign@ == Seq::<char>::empty(),
            r.rst_sent@ == "599"@,
            r.rst_received@ == "599"@,
            r.exchange_received@ == Seq::<char>::empty(),
            r.notes@ == Seq::<char>::empty(),
    {
        CwQsoForm {
            callsign: String::new(),
            rst_sent: text::owned("599"),
            rst_received: text::owned("599"),
            exchange_received: String::new(),
            notes: String::new(),
        }
    }
}

/// What the CW desk logs for a QSO.
#[derive(Debug, Clone, PartialEq, Eq)]
pub struct CwQsoEntry {
    pub callsign: String,
    /// Always `CW`.
    pub mode: String,
    /// `Contest` when contest logging is on, else the station's activity.
    pub operation_mode: String,
    pub report_sent: String,
    pub report_received: String,
    /// The serial number sent, when contest logging is on.
    pub contest_serial_sent: Option<u32>,
    /// The received contest exchange, when contest logging is on.
    pub contest_exchange_received: Option<String>,
    pub notes: String,
}

/// The status shown when the form's callsign does not look like one.
pub const CW_QSO_NEEDS_CALLSIGN: &'static str = "CW QSO needs a valid callsign";

/// Reads the form: the callsign (trimmed, upper-cased) must look like a
/// callsign; the entry is a `CW` QSO, of operation mode `Contest` in
/// contests and else `activity_label`; the reports are trimmed and
/// upper-cased and the notes trimmed. In contests it also carries the serial
/// sent (the current serial, at least 1) and the received exchange
/// (trimmed).
pub fn cw_qso_entry(
    form: &CwQsoForm,
    contest_enabled: bool,
    activity_label: &str,
    contest_serial_current: u32,
) -> (r: Option<CwQsoEntry>)
    ensures
        ({
            let call = text::upper(text::trim(form.callsign@));
            &&& r is Some <==> probable_callsign(call)
            &&& r matches Some(e) ==> {
                &&& e.callsign@ == call
                &&& e.mode@ == "CW"@
                &&& e.operation_mode@ == (if contest_enabled {
                    "Contest"@
                } else {
                    activity_label@
                })
                &&& e.report_sent@ == text::upper(text::trim(form.rst_sent@))
                &&& e.report_received@ == text::upper(text::trim(form.rst_received@))
                &&& e.notes@ == text::trim(form.notes@)
                &&& e.contest_serial_sent == (if contest_enabled {
                    Some(if contest_serial_current < 1 { 1u32 } else { contest_serial_current })
                } else {
                    None
                })
                &&& match e.contest_exchange_received {
                    Some(x) => contest_enabled && x@ == text::trim(form.exchange_received@),
                    None => !contest_enabled,
                }
            }
        }),
{
    let call = trim_upper(form.callsign.as_str());
    if !probable_callsign_chars(&call) {
        return None;
    }
    let (operation_mode, serial, exchange) = if contest_enabled {
        (
            text::owned("Contest"),
            Some(if contest_serial_current < 1 { 1u32 } else { contest_serial_current }),
            Some(string_of(&strip_chars(&chars_of(form.exchange_received.as_str()), CharClass::Whitespace))),
        )
    } else {
        (text::owned(activity_label), None, None)
    };
    Some(
        CwQsoEntry {
            callsign: string_of(&call),
            mode: text::owned("CW"),
            operation_mode,
            report_sent: string_of(&trim_upper(form.rst_sent.as_str())),
            report_received: string_of(&trim_upper(form.rst_received.as_str())),
            contest_serial_sent: serial,
            contest_exchange_received: exchange,
            notes: string_of(&strip_chars(&chars_of(form.notes.as_str()), CharClass::Whitespace)),
        },
    )
}

} // verus!

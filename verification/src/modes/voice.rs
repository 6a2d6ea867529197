//! The voice (SSB) workspace: band plan, contest exchange fields and
//! callsign lookups.
use crate::modes::band_plan::{increasing, lemma_increasing_ordered, plan_view};
use crate::modes::exchange::{opt_chars, probable_callsign, probable_callsign_chars};
use crate::text;
use crate::text::{
    append_chars, chars_eq_ignore_case, chars_of, join_spaced_from, owned, parse_u32_chars, push_char,
    string_of, strip_chars, trim_chars, trim_upper, CharClass,
};
use vstd::prelude::*;

verus! {

/// The VOICE calling frequency on each band, lowest band first.
pub open spec fn band_plan_bands() -> Seq<(Seq<char>, u64)> {
    seq![
        ("160m"@, 1880000u64),
        ("80m"@, 3900000u64),
        ("60m"@, 5357000u64),
        ("40m"@, 7200000u64),
        ("30m"@, 10125000u64),
        ("20m"@, 14300000u64),
        ("17m"@, 18150000u64),
        ("15m"@, 21400000u64),
        ("12m"@, 24950000u64),
        ("10m"@, 28400000u64),
        ("6m"@, 52525000u64),
        ("2m"@, 146520000u64),
        ("70cm"@, 446000000u64),
    ]
}

/// The VOICE calling frequency on each band, lowest band first.
pub fn band_plan() -> (r: Vec<(&'static str, u64)>)
    ensures
        plan_view(r@) == band_plan_bands(),
{
    let mut r: Vec<(&'static str, u64)> = Vec::new();
    r.push(("160m", 1880000u64));
    r.push(("80m", 3900000u64));
    r.push(("60m", 5357000u64));
    r.push(("40m", 7200000u64));
    r.push(("30m", 10125000u64));
    r.push(("20m", 14300000u64));
    r.push(("17m", 18150000u64));
    r.push(("15m", 21400000u64));
    r.push(("12m", 24950000u64));
    r.push(("10m", 28400000u64));
    r.push(("6m", 52525000u64));
    r.push(("2m", 146520000u64));
    r.push(("70cm", 446000000u64));
    assert(plan_view(r@) =~= band_plan_bands());
    r
}

/// The frequencies of this plan rise from band to band.
pub proof fn band_plan_is_increasing()
    ensures
        increasing(band_plan_bands()),
        forall|i: int, j: int|
            0 <= i < j < band_plan_bands().len() ==> band_plan_bands()[i].1 < band_plan_bands()[j].1,
{
    reveal_with_fuel(increasing, 14);
    lemma_increasing_ordered(band_plan_bands());
}

/// One named field of a voice contest exchange, sent and received.
#[derive(Debug, Clone)]
pub struct VoiceContestField {
    pub name: String,
    pub sent: String,
    pub received: String,
}

impl VoiceContestField {
    /// A field with the given name and nothing sent or received yet.
    pub fn new(name: String) -> (r: Self)
        ensures
            r.name@ == name@,
            r.sent@ == Seq::<char>::empty(),
            r.received@ == Seq::<char>::empty(),
    {
        VoiceContestField { name, sent: String::new(), received: String::new() }
    }
}

/// The exchange entries of the fields with something in the chosen column
/// (the received one, or the sent one), as `name=value`, trimmed.
pub open spec fn field_entries(fs: Seq<VoiceContestField>, received: bool) -> Seq<Seq<char>>
    decreases fs.len(),
{
    if fs.len() == 0 {
        seq![]
    } else {
        let f = fs.last();
        let value = text::trim(if received { f.received@ } else { f.sent@ });
        let before = field_entries(fs.drop_last(), received);
        if value.len() > 0 {
            before.push(text::trim(f.name@) + seq!['='] + value)
        } else {
            before
        }
    }
}

/// The contest exchange logged for a voice QSO: the filled fields of the
/// chosen column as `name=value`, separated by spaces.
pub fn voice_contest_exchange(fields: &Vec<VoiceContestField>, received: bool) -> (r: String)
    ensures
        r@ == text::join_spaced(field_entries(fields@, received)),
{
    let mut entries: Vec<Vec<char>> = Vec::new();
    let mut i: usize = 0;
    assert(fields@.subrange(0, 0) =~= Seq::<VoiceContestField>::empty());
    while i < fields.len()
        invariant
            i <= fields.len(),
            text::views(entries@) == field_entries(fields@.subrange(0, i as int), received),
        decreases fields.len() - i,
    {
        let f = &fields[i];
        let ghost prev = text::views(entries@);
        let ghost fs1 = fields@.subrange(0, i + 1);
        let value = if received {
            strip_chars(&chars_of(f.received.as_str()), CharClass::Whitespace)
        } else {
            strip_chars(&chars_of(f.sent.as_str()), CharClass::Whitespace)
        };
        assert(fs1.drop_last() =~= fields@.subrange(0, i as int));
        assert(fs1.last() == *f);
        assert(value@ == text::trim(if received { f.received@ } else { f.sent@ }));
        if value.len() > 0 {
            let mut entry = string_of(&strip_chars(&chars_of(f.name.as_str()), CharClass::Whitespace));
            push_char(&mut entry, '=');
            append_chars(&mut entry, &value);
            let entry = chars_of(entry.as_str());
            assert(entry@ =~= text::trim(f.name@) + seq!['='] + value@);
            entries.push(entry);
            assert(text::views(entries@) =~= prev.push(entry@));
        } else {
            assert(text::views(entries@) == prev);
        }
        assert(text::views(entries@) == field_entries(fs1, received));
        i = i + 1;
    }
    assert(fields@.subrange(0, fields.len() as int) =~= fields@);
    let joined = join_spaced_from(&entries, 0);
    assert(text::views(entries@).subrange(0, entries.len() as int) =~= text::views(entries@));
    string_of(&joined)
}

/// The callsign to look up for the voice form: the typed callsign, trimmed
/// and upper-cased, when it looks like a callsign and was not the last one
/// looked up (in any letter case).
pub fn voice_lookup_target(callsign: &str, last_requested: &str) -> (r: Option<String>)
    ensures
        opt_chars(r) == (if probable_callsign(text::upper(text::trim(callsign@))) && text::upper(
            text::upper(text::trim(callsign@)),
        ) != text::upper(last_requested@) {
            Some(text::upper(text::trim(callsign@)))
        } else {
            None
        }),
{
    let c = trim_upper(callsign);
    if probable_callsign_chars(&c) && !chars_eq_ignore_case(&c, &chars_of(last_requested)) {
        Some(string_of(&c))
    } else {
        None
    }
}

/// The QSO fields of the voice desk as typed.
#[derive(Debug, Clone)]
pub struct VoiceQsoForm {
    pub callsign: String,
    pub grid: String,
    pub state: String,
    pub rst_sent: String,
    pub rst_received: String,
    pub serial_sent: String,
    pub serial_received: String,
    pub notes: String,
    pub contest_fields: Vec<VoiceContestField>,
}

/// What the voice desk logs for a QSO.
#[derive(Debug, Clone, PartialEq, Eq)]
pub struct VoiceQsoEntry {
    pub callsign: String,
    /// Always `SSB`.
    pub mode: String,
    /// The station's activity.
    pub operation_mode: String,
    pub grid: String,
    pub state: String,
    pub report_sent: String,
    pub report_received: String,
    pub contest_serial_sent: Option<u32>,
    pub contest_serial_received: Option<u32>,
    pub contest_exchange_sent: String,
    pub contest_exchange_received: String,
    pub notes: String,
}

/// Reads the form as an `SSB` QSO of operation mode `activity_label`:
/// callsign, grid and state trimmed and upper-cased, reports and notes
/// trimmed, serial numbers read when they are numbers, and the contest
/// exchanges of the filled fields.
pub fn voice_qso_entry(form: &VoiceQsoForm, activity_label: &str) -> (r: VoiceQsoEntry)
    ensures
        r.callsign@ == text::upper(text::trim(form.callsign@)),
        r.mode@ == "SSB"@,
        r.operation_mode@ == activity_label@,
        r.grid@ == text::upper(text::trim(form.grid@)),
        r.state@ == text::upper(text::trim(form.state@)),
        r.report_sent@ == text::trim(form.rst_sent@),
        r.report_received@ == text::trim(form.rst_received@),
        r.contest_serial_sent == text::parse_u32(text::trim(form.serial_sent@)),
        r.contest_serial_received == text::parse_u32(text::trim(form.serial_received@)),
        r.contest_exchange_sent@ == text::join_spaced(field_entries(form.contest_fields@, false)),
        r.contest_exchange_received@ == text::join_spaced(field_entries(form.contest_fields@, true)),
        r.notes@ == text::trim(form.notes@),
{
    VoiceQsoEntry {
        callsign: string_of(&trim_upper(form.callsign.as_str())),
        mode: owned("SSB"),
        operation_mode: owned(activity_label),
        grid: string_of(&trim_upper(form.grid.as_str())),
        state: string_of(&trim_upper(form.state.as_str())),
        report_sent: string_of(&trim_chars(form.rst_sent.as_str())),
        report_received: string_of(&trim_chars(form.rst_received.as_str())),
        contest_serial_sent: parse_u32_chars(&trim_chars(form.serial_sent.as_str())),
        contest_serial_received: parse_u32_chars(&trim_chars(form.serial_received.as_str())),
        contest_exchange_sent: voice_contest_exchange(&form.contest_fields, false),
        contest_exchange_received: voice_contest_exchange(&form.contest_fields, true),
        notes: string_of(&trim_chars(form.notes.as_str())),
    }
}

impl VoiceQsoForm {
    /// Empties the form after a QSO was logged; the reports and the contest
    /// fields stay for the next QSO.
    pub fn clear_after_logging(&mut self)
        ensures
            final(self).callsign@ == Seq::<char>::empty(),
            final(self).grid@ == Seq::<char>::empty(),
            final(self).state@ == Seq::<char>::empty(),
            final(self).serial_sent@ == Seq::<char>::empty(),
            final(self).serial_received@ == Seq::<char>::empty(),
            final(self).notes@ == Seq::<char>::empty(),
            final(self).rst_sent == old(self).rst_sent,
            final(self).rst_received == old(self).rst_received,
            final(self).contest_fields == old(self).contest_fields,
    {
        self.callsign = String::new();
        self.grid = String::new();
        self.state = String::new();
        self.serial_sent = String::new();
        self.serial_received = String::new();
        self.notes = String::new();
    }
}

} // verus!

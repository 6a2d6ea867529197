//! Properties of the exchange sequencer that span calls.
use crate::modes::exchange::{
    is_first_choice, message_of, ranks_before, response, same_callsign, session_start,
    AutoReplyPolicy, ExchangeView, ParsedView, QsoSessionView, QsoStage, ReplyCandidate,
};
use crate::text;
use vstd::prelude::*;

verus! {

/// At most one position is the first choice of a policy, so the caller that
/// `select_candidate` answers is determined by the decodes alone.
pub proof fn first_choice_is_unique(
    s: Seq<ReplyCandidate>,
    k1: int,
    k2: int,
    policy: AutoReplyPolicy,
    rx_tone_hz: u32,
)
    requires
        is_first_choice(s, k1, policy, rx_tone_hz),
        is_first_choice(s, k2, policy, rx_tone_hz),
    ensures
        k1 == k2,
{
    if k1 < k2 {
        assert(ranks_before(s[k2], s[k1], policy, rx_tone_hz));
        assert(!ranks_before(s[k2], s[k1], policy, rx_tone_hz));
    } else if k2 < k1 {
        assert(ranks_before(s[k1], s[k2], policy, rx_tone_hz));
        assert(!ranks_before(s[k1], s[k2], policy, rx_tone_hz));
    }
}

/// Under the `First` policy the answered caller is the one decoded first:
/// no candidate has a smaller decode index.
pub proof fn first_policy_answers_earliest_decode(s: Seq<ReplyCandidate>, k: int, rx_tone_hz: u32)
    requires
        is_first_choice(s, k, AutoReplyPolicy::First, rx_tone_hz),
    ensures
        forall|j: int| 0 <= j < s.len() ==> s[k].index <= #[trigger] s[j].index,
{
    assert forall|j: int| 0 <= j < s.len() implies s[k].index <= #[trigger] s[j].index by {
        assert(!ranks_before(s[j], s[k], AutoReplyPolicy::First, rx_tone_hz));
    }
}

/// A completed QSO ignores every further message and sends nothing.
pub proof fn complete_session_is_final(
    s: QsoSessionView,
    p: ParsedView,
    my_call: Seq<char>,
    my_grid: Seq<char>,
    snr: i8,
    rx_period: u64,
)
    requires
        s.stage == QsoStage::Complete,
    ensures
        response(s, p, my_call, my_grid, snr, rx_period) == (s, Option::<Seq<char>>::None),
{
}

/// Messages from a station other than the worked one never change the
/// session and never produce a transmission.
pub proof fn other_stations_are_ignored(
    s: QsoSessionView,
    p: ParsedView,
    my_call: Seq<char>,
    my_grid: Seq<char>,
    snr: i8,
    rx_period: u64,
)
    requires
        !same_callsign(p.from, s.target),
    ensures
        response(s, p, my_call, my_grid, snr, rx_period) == (s, Option::<Seq<char>>::None),
{
}

/// Whatever is received, the session keeps its station and its start period.
pub proof fn session_identity_is_kept(
    s: QsoSessionView,
    p: ParsedView,
    my_call: Seq<char>,
    my_grid: Seq<char>,
    snr: i8,
    rx_period: u64,
)
    ensures
        response(s, p, my_call, my_grid, snr, rx_period).0.target == s.target,
        response(s, p, my_call, my_grid, snr, rx_period).0.started_period == s.started_period,
{
}

/// A reply is scheduled in the parity opposite to the period it answers,
/// and the session remembers that period as the last one heard.
pub proof fn reply_uses_opposite_parity(
    s: QsoSessionView,
    p: ParsedView,
    my_call: Seq<char>,
    my_grid: Seq<char>,
    snr: i8,
    rx_period: u64,
)
    requires
        response(s, p, my_call, my_grid, snr, rx_period).1 is Some,
    ensures
        response(s, p, my_call, my_grid, snr, rx_period).0.tx_parity as int != rx_period % 2,
        response(s, p, my_call, my_grid, snr, rx_period).0.last_rx_period == rx_period,
{
}

/// A new exchange step restarts the attempt counter; repeating the same step
/// keeps counting.
pub proof fn attempts_restart_only_on_a_new_step(
    s: QsoSessionView,
    p: ParsedView,
    my_call: Seq<char>,
    my_grid: Seq<char>,
    snr: i8,
    rx_period: u64,
)
    requires
        response(s, p, my_call, my_grid, snr, rx_period).1 is Some,
    ensures
        ({
            let n = response(s, p, my_call, my_grid, snr, rx_period).0;
            n.tx_attempts == if n.stage != s.stage {
                0u8
            } else {
                s.tx_attempts
            }
        }),
{
}

/// Every transmission the sequencer produces is addressed to the worked
/// station and signed with our own callsign: `TARGET MYCALL ...`.
pub proof fn replies_address_target_from_us(
    s: QsoSessionView,
    p: ParsedView,
    my_call: Seq<char>,
    my_grid: Seq<char>,
    snr: i8,
    rx_period: u64,
)
    requires
        response(s, p, my_call, my_grid, snr, rx_period).1 is Some,
    ensures
        ({
            let prefix = text::upper(s.target) + seq![' '] + text::upper(text::trim(my_call))
                + seq![' '];
            let m = response(s, p, my_call, my_grid, snr, rx_period).1.unwrap();
            m.len() >= prefix.len() && m.subrange(0, prefix.len() as int) == prefix
        }),
{
    let prefix = text::upper(s.target) + seq![' '] + text::upper(text::trim(my_call)) + seq![' '];
    let m = response(s, p, my_call, my_grid, snr, rx_period).1.unwrap();
    let tail: Seq<char> = match p.exchange {
        crate::modes::exchange::ExchangeView::Grid(_) | crate::modes::exchange::ExchangeView::Absent => if p.is_cq {
            text::upper(text::trim(my_grid))
        } else {
            text::signed_two_digits(crate::modes::exchange::clamp_snr(snr) as int)
        },
        crate::modes::exchange::ExchangeView::Report(_) => seq!['R'] + text::signed_two_digits(
            crate::modes::exchange::clamp_snr(snr) as int,
        ),
        crate::modes::exchange::ExchangeView::RogerReport(_) => "RR73"@,
        _ => "73"@,
    };
    match p.exchange {
        crate::modes::exchange::ExchangeView::Report(_) => {
            assert(m =~= prefix + tail);
        },
        _ => {
            assert(m == prefix + tail);
        },
    }
    assert(m.subrange(0, prefix.len() as int) =~= prefix);
}

/// A session starts in the calling step with no attempt made, and answers in
/// the parity opposite to the period its station was heard in.
pub proof fn new_session_is_calling(target: Seq<char>, rx_period: u64)
    ensures
        session_start(target, rx_period).stage == QsoStage::Calling,
        session_start(target, rx_period).tx_attempts == 0,
        session_start(target, rx_period).tx_parity as int != rx_period % 2,
{
}

/// Parsing is insensitive to surrounding whitespace and letter case:
/// reading the normalized text a parse keeps as `raw` gives the same message.
pub proof fn parse_is_normalization_invariant(message: Seq<char>)
    ensures
        message_of(text::upper(text::trim(message))) == message_of(message),
{
    text::lemma_normalize_idempotent(message);
}

/// A message addressed to a station is never also addressed away from it.
pub proof fn directed_to_excludes_directed_away(p: ParsedView, callsign: Seq<char>)
    ensures
        p.is_directed_to(callsign) ==> !p.is_directed_away_from(callsign),
        p.is_cq ==> !p.is_directed_away_from(callsign),
{
}

/// How far a tone is from the receive tone, in Hz.
pub open spec fn tone_distance(freq_hz: u32, rx_tone_hz: u32) -> nat {
    if freq_hz >= rx_tone_hz {
        (freq_hz - rx_tone_hz) as nat
    } else {
        (rx_tone_hz - freq_hz) as nat
    }
}

/// The caller a policy answers is the best one by that policy: no candidate
/// is stronger under `Strongest`, weaker under `Weakest`, or nearer the
/// receive tone under `Closest`; among candidates as good, the one from the
/// earliest decode is answered.
pub proof fn policy_answers_the_best_caller(
    s: Seq<ReplyCandidate>,
    k: int,
    policy: AutoReplyPolicy,
    rx_tone_hz: u32,
)
    requires
        is_first_choice(s, k, policy, rx_tone_hz),
    ensures
        policy == AutoReplyPolicy::Strongest ==> forall|j: int|
            0 <= j < s.len() ==> (#[trigger] s[j]).snr_db <= s[k].snr_db,
        policy == AutoReplyPolicy::Weakest ==> forall|j: int|
            0 <= j < s.len() ==> (#[trigger] s[j]).snr_db >= s[k].snr_db,
        policy == AutoReplyPolicy::Closest ==> forall|j: int|
            0 <= j < s.len() ==> tone_distance(s[k].freq_hz, rx_tone_hz) <= tone_distance(
                (#[trigger] s[j]).freq_hz,
                rx_tone_hz,
            ),
        policy == AutoReplyPolicy::Closest ==> forall|j: int|
            0 <= j < s.len() && tone_distance((#[trigger] s[j]).freq_hz, rx_tone_hz)
                == tone_distance(s[k].freq_hz, rx_tone_hz) ==> s[k].index <= s[j].index,
        policy == AutoReplyPolicy::Strongest || policy == AutoReplyPolicy::Weakest ==> forall|
            j: int,
        | 0 <= j < s.len() && (#[trigger] s[j]).snr_db == s[k].snr_db ==> s[k].index <= s[j].index,
{
    assert forall|j: int| 0 <= j < s.len() implies !ranks_before(
        #[trigger] s[j],
        s[k],
        policy,
        rx_tone_hz,
    ) by {}
}

/// A report that the worked station sends us is kept: an accepted message
/// carrying a report or a roger-report leaves that report as the one
/// received, and a locator as the station's grid. A message the session
/// does not accept changes nothing.
pub proof fn received_reports_are_kept(
    s: QsoSessionView,
    p: ParsedView,
    my_call: Seq<char>,
    my_grid: Seq<char>,
    snr: i8,
    rx_period: u64,
)
    ensures
        ({
            let accepted = s.stage != QsoStage::Complete && same_callsign(p.from, s.target) && (
            p.is_cq || p.is_directed_to(my_call));
            let n = response(s, p, my_call, my_grid, snr, rx_period).0;
            &&& accepted ==> match p.exchange {
                ExchangeView::Report(r) => n.report_received == Some(r),
                ExchangeView::RogerReport(r) => n.report_received == Some(r),
                ExchangeView::Grid(g) => n.remote_grid == Some(g)
                    && n.report_received == s.report_received,
                _ => n.report_received == s.report_received && n.remote_grid == s.remote_grid,
            }
            &&& !accepted ==> n == s
        }),
{
}

} // verus!

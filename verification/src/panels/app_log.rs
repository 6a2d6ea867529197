//! Severity classification of application log lines.
use crate::text;
use crate::text::{chars_of, contains_lit, upper_chars};
use vstd::prelude::*;

verus! {

/// The severity a log line reads as, least severe first.
#[derive(Debug, Clone, Copy, PartialEq, Eq, Structural)]
pub enum AppLogLineLevel {
    Trace,
    Debug,
    Info,
    Warning,
    Error,
}

/// Which lines the log view shows.
#[derive(Debug, Clone, Copy, PartialEq, Eq, Structural)]
pub enum AppLogLevelFilter {
    All,
    Info,
    Warning,
    Error,
}

/// The place of a level in the order Trace < Debug < Info < Warning < Error.
pub open spec fn level_rank(level: AppLogLineLevel) -> int {
    match level {
        AppLogLineLevel::Trace => 0,
        AppLogLineLevel::Debug => 1,
        AppLogLineLevel::Info => 2,
        AppLogLineLevel::Warning => 3,
        AppLogLineLevel::Error => 4,
    }
}

/// The severity of a line, from the markers it contains in any letter case.
pub open spec fn line_level_of(line: Seq<char>) -> AppLogLineLevel {
    let u = text::upper(line);
    if text::contains(u, " ERROR "@) || text::contains(u, "PANIC"@) || text::contains(u, "FATAL"@) {
        AppLogLineLevel::Error
    } else if text::contains(u, " WARN "@) || text::contains(u, "WARNING"@) {
        AppLogLineLevel::Warning
    } else if text::contains(u, " DEBUG "@) {
        AppLogLineLevel::Debug
    } else if text::contains(u, " TRACE "@) {
        AppLogLineLevel::Trace
    } else {
        AppLogLineLevel::Info
    }
}

/// Classifies a log line by severity.
pub fn app_log_line_level(line: &str) -> (r: AppLogLineLevel)
    ensures
        r == line_level_of(line@),
{
    let u = upper_chars(&chars_of(line));
    if contains_lit(&u, " ERROR ") || contains_lit(&u, "PANIC") || contains_lit(&u, "FATAL") {
        AppLogLineLevel::Error
    } else if contains_lit(&u, " WARN ") || contains_lit(&u, "WARNING") {
        AppLogLineLevel::Warning
    } else if contains_lit(&u, " DEBUG ") {
        AppLogLineLevel::Debug
    } else if contains_lit(&u, " TRACE ") {
        AppLogLineLevel::Trace
    } else {
        AppLogLineLevel::Info
    }
}

fn level_rank_exec(level: AppLogLineLevel) -> (r: u8)
    ensures
        r == level_rank(level),
{
    match level {
        AppLogLineLevel::Trace => 0,
        AppLogLineLevel::Debug => 1,
        AppLogLineLevel::Info => 2,
        AppLogLineLevel::Warning => 3,
        AppLogLineLevel::Error => 4,
    }
}

/// Whether a line of the given level passes the view filter: everything, or
/// at least Info, at least Warning, or errors only.
pub fn app_log_level_matches(level: AppLogLineLevel, filter: AppLogLevelFilter) -> (r: bool)
    ensures
        r == (match filter {
            AppLogLevelFilter::All => true,
            AppLogLevelFilter::Info => level_rank(level) >= 2,
            AppLogLevelFilter::Warning => level_rank(level) >= 3,
            AppLogLevelFilter::Error => level == AppLogLineLevel::Error,
        }),
{
    match filter {
        AppLogLevelFilter::All => true,
        AppLogLevelFilter::Info => level_rank_exec(level) >= 2,
        AppLogLevelFilter::Warning => level_rank_exec(level) >= 3,
        AppLogLevelFilter::Error => level == AppLogLineLevel::Error,
    }
}

/// How a log line is coloured: by severity, and informational lines by what
/// they report (transmitting, receiving, or neither).
#[derive(Debug, Clone, Copy, PartialEq, Eq, Structural)]
pub enum AppLogLineTone {
    Error,
    Warning,
    Muted,
    Transmit,
    Receive,
    Plain,
}

pub open spec fn line_tone_of(line: Seq<char>) -> AppLogLineTone {
    let u = text::upper(line);
    match line_level_of(line) {
        AppLogLineLevel::Error => AppLogLineTone::Error,
        AppLogLineLevel::Warning => AppLogLineTone::Warning,
        AppLogLineLevel::Trace | AppLogLineLevel::Debug => AppLogLineTone::Muted,
        AppLogLineLevel::Info => if text::contains(u, "PTT"@) || text::contains(u, " TX "@)
            || text::contains(u, "TRANSMIT"@) {
            AppLogLineTone::Transmit
        } else if text::contains(u, " RX "@) || text::contains(u, "DECODE"@) || text::contains(
            u,
            "RECEIVE"@,
        ) {
            AppLogLineTone::Receive
        } else {
            AppLogLineTone::Plain
        },
    }
}

/// The colour class of a log line.
pub fn app_log_line_tone(line: &str) -> (r: AppLogLineTone)
    ensures
        r == line_tone_of(line@),
{
    match app_log_line_level(line) {
        AppLogLineLevel::Error => AppLogLineTone::Error,
        AppLogLineLevel::Warning => AppLogLineTone::Warning,
        AppLogLineLevel::Trace | AppLogLineLevel::Debug => AppLogLineTone::Muted,
        AppLogLineLevel::Info => {
            let u = upper_chars(&chars_of(line));
            if contains_lit(&u, "PTT") || contains_lit(&u, " TX ") || contains_lit(&u, "TRANSMIT") {
                AppLogLineTone::Transmit
            } else if contains_lit(&u, " RX ") || contains_lit(&u, "DECODE") || contains_lit(
                &u,
                "RECEIVE",
            ) {
                AppLogLineTone::Receive
            } else {
                AppLogLineTone::Plain
            }
        },
    }
}

} // verus!

//! Operator-profile naming, profile file locations and stored defaults.
use crate::text;
use crate::text::{
    char_is_alnum, chars_eq, chars_eq_ignore_case, chars_of, copy_chars, lex_lt_exec, lower_chars,
    owned, string_of, strip_chars, CharClass,
};
use vstd::prelude::*;

verus! {

/// File of the default operator profile, in the configuration directory.
pub const OPERATOR_PROFILE_FILE: &'static str = "profile.toml";

/// Version written into every stored operator profile.
pub const OPERATOR_PROFILE_VERSION: u32 = 13;

/// File of a profile kept by older releases, in the working directory.
pub const LEGACY_OPERATOR_PROFILE_FILE: &'static str = ".rigforge_profile.toml";

/// Name of the profile stored in `OPERATOR_PROFILE_FILE`.
pub const DEFAULT_PROFILE_NAME: &'static str = "Default";

/// Directory of the named profiles, in the configuration directory.
pub const OPERATOR_PROFILES_DIR: &'static str = "profiles";

/// File naming the selected profile, in the configuration directory.
pub const ACTIVE_PROFILE_FILE: &'static str = "active-profile";

/// Why a profile name is refused.
#[derive(Debug, Clone, Copy, PartialEq, Eq, Structural)]
pub enum ProfileNameError {
    Empty,
    InvalidCharacters,
}

impl ProfileNameError {
    pub open spec fn message_text(self) -> Seq<char> {
        match self {
            ProfileNameError::Empty => "profile name cannot be empty"@,
            ProfileNameError::InvalidCharacters => "profile names may contain only letters, numbers, spaces, '-' and '_'"@,
        }
    }

    /// The explanation shown to the operator.
    pub fn message(self) -> (r: &'static str)
        ensures
            r@ == self.message_text(),
    {
        match self {
            ProfileNameError::Empty => "profile name cannot be empty",
            ProfileNameError::InvalidCharacters => "profile names may contain only letters, numbers, spaces, '-' and '_'",
        }
    }
}

/// A character allowed in a profile name.
pub open spec fn is_name_char(c: char) -> bool {
    text::is_alnum(c) || c == ' ' || c == '-' || c == '_'
}

/// A profile name, trimmed, if it is usable: not empty and made of ASCII
/// letters, digits, spaces, `-` and `_` only (so never a path).
pub open spec fn validated_name(name: Seq<char>) -> Result<Seq<char>, ProfileNameError> {
    let t = text::trim(name);
    if t.len() == 0 {
        Err(ProfileNameError::Empty)
    } else if !(forall|i: int| 0 <= i < t.len() ==> is_name_char(#[trigger] t[i])) {
        Err(ProfileNameError::InvalidCharacters)
    } else {
        Ok(t)
    }
}

pub open spec fn name_result_view(r: Result<String, ProfileNameError>) -> Result<
    Seq<char>,
    ProfileNameError,
> {
    match r {
        Ok(s) => Ok(s@),
        Err(e) => Err(e),
    }
}

fn validate_chars(name: &Vec<char>) -> (r: Result<Vec<char>, ProfileNameError>)
    ensures
        match r {
            Ok(v) => validated_name(name@) == Ok::<Seq<char>, ProfileNameError>(v@),
            Err(e) => validated_name(name@) == Err::<Seq<char>, ProfileNameError>(e),
        },
{
    let t = strip_chars(name, CharClass::Whitespace);
    if t.len() == 0 {
        return Err(ProfileNameError::Empty);
    }
    let mut i: usize = 0;
    while i < t.len()
        invariant
            i <= t.len(),
            t@ == text::trim(name@),
            t@.len() > 0,
            forall|j: int| 0 <= j < i ==> is_name_char(#[trigger] t@[j]),
        decreases t.len() - i,
    {
        let c = t[i];
        if !(char_is_alnum(c) || c == ' ' || c == '-' || c == '_') {
            assert(!is_name_char(t@[i as int]));
            return Err(ProfileNameError::InvalidCharacters);
        }
        i = i + 1;
    }
    Ok(t)
}

/// Checks a profile name and returns it trimmed.
pub fn validate_profile_name(name: &str) -> (r: Result<String, ProfileNameError>)
    ensures
        name_result_view(r) == validated_name(name@),
{
    match validate_chars(&chars_of(name)) {
        Ok(v) => Ok(string_of(&v)),
        Err(e) => Err(e),
    }
}

/// Where a profile is stored, relative to the configuration directory.
#[derive(Debug, Clone, PartialEq, Eq)]
pub enum ProfileLocation {
    /// `OPERATOR_PROFILE_FILE`, for the profile named `Default` in any case.
    DefaultFile,
    /// The given file name inside `OPERATOR_PROFILES_DIR`.
    ProfilesDir(String),
}

pub enum ProfileLocationView {
    DefaultFile,
    ProfilesDir(Seq<char>),
}

pub open spec fn location_of(name: Seq<char>) -> Result<ProfileLocationView, ProfileNameError> {
    match validated_name(name) {
        Err(e) => Err(e),
        Ok(n) => if text::upper(n) == text::upper("Default"@) {
            Ok(ProfileLocationView::DefaultFile)
        } else {
            Ok(ProfileLocationView::ProfilesDir(n + ".toml"@))
        },
    }
}

pub open spec fn location_view(r: Result<ProfileLocation, ProfileNameError>) -> Result<
    ProfileLocationView,
    ProfileNameError,
> {
    match r {
        Ok(ProfileLocation::DefaultFile) => Ok(ProfileLocationView::DefaultFile),
        Ok(ProfileLocation::ProfilesDir(f)) => Ok(ProfileLocationView::ProfilesDir(f@)),
        Err(e) => Err(e),
    }
}

/// The file of the profile with the given name.
pub fn named_operator_profile_path(name: &str) -> (r: Result<ProfileLocation, ProfileNameError>)
    ensures
        location_view(r) == location_of(name@),
{
    let n = match validate_chars(&chars_of(name)) {
        Ok(v) => v,
        Err(e) => return Err(e),
    };
    if chars_eq_ignore_case(&n, &chars_of(DEFAULT_PROFILE_NAME)) {
        Ok(ProfileLocation::DefaultFile)
    } else {
        let mut file = string_of(&n);
        file.append(".toml");
        Ok(ProfileLocation::ProfilesDir(file))
    }
}

/// The selected profile, from the contents of the active-profile file (if
/// it could be read): the validated name, or `Default`.
pub fn active_profile_name_from(contents: Option<&str>) -> (r: String)
    ensures
        r@ == (match contents {
            Some(c) => match validated_name(c@) {
                Ok(n) => n,
                Err(_) => "Default"@,
            },
            None => "Default"@,
        }),
{
    match contents {
        Some(c) => match validate_profile_name(c) {
            Ok(n) => n,
            Err(_) => owned(DEFAULT_PROFILE_NAME),
        },
        None => owned(DEFAULT_PROFILE_NAME),
    }
}

/// The stems of the profile files that name valid profiles, in directory order.
pub open spec fn valid_stems(stems: Seq<Seq<char>>) -> Seq<Seq<char>>
    decreases stems.len(),
{
    if stems.len() == 0 {
        seq![]
    } else {
        let p = valid_stems(stems.drop_last());
        if validated_name(stems.last()) is Ok {
            p.push(stems.last())
        } else {
            p
        }
    }
}

/// The profiles offered: `Default`, then every valid stored profile.
pub open spec fn listing_candidates(stems: Seq<Seq<char>>) -> Seq<Seq<char>> {
    seq!["Default"@] + valid_stems(stems)
}

/// Profile names are ordered and told apart without regard to ASCII case.
pub open spec fn name_key(s: Seq<char>) -> Seq<char> {
    text::lower(s)
}

/// Names in strictly increasing order of their keys.
pub open spec fn strictly_sorted(r: Seq<Seq<char>>) -> bool {
    forall|i: int, j: int|
        0 <= i < j < r.len() ==> text::lex_lt(name_key(#[trigger] r[i]), name_key(#[trigger] r[j]))
}

/// `x` is the first name of `l` with its key.
pub open spec fn first_of_its_key(l: Seq<Seq<char>>, x: Seq<char>) -> bool {
    exists|k: int|
        0 <= k < l.len() && l[k] == x && forall|m: int|
            0 <= m < k ==> name_key(#[trigger] l[m]) != name_key(x)
}

/// `r` lists the names of `l` sorted case-insensitively, one per key, each
/// key represented by its first occurrence in `l`: what a stable sort by
/// lower-cased name followed by removal of case-insensitive repeats leaves.
#[verifier::opaque]
pub open spec fn is_profile_listing(r: Seq<Seq<char>>, l: Seq<Seq<char>>) -> bool {
    &&& strictly_sorted(r)
    &&& all_first_of_their_keys(r, l)
    &&& covers_keys(r, l)
}

/// Every name of `r` is the first name of `l` with its key.
pub open spec fn all_first_of_their_keys(r: Seq<Seq<char>>, l: Seq<Seq<char>>) -> bool {
    forall|i: int| 0 <= i < r.len() ==> first_of_its_key(l, #[trigger] r[i])
}

/// Some name of `r` has the given key.
pub open spec fn has_key(r: Seq<Seq<char>>, key: Seq<char>) -> bool {
    exists|i: int| 0 <= i < r.len() && name_key(#[trigger] r[i]) == key
}

/// Every key of `l` is the key of a name of `r`.
pub open spec fn covers_keys(r: Seq<Seq<char>>, l: Seq<Seq<char>>) -> bool {
    forall|k: int| 0 <= k < l.len() ==> has_key(r, name_key(#[trigger] l[k]))
}

proof fn lemma_listing_extends(l: Seq<Seq<char>>, e: Seq<char>, x: Seq<char>)
    requires
        first_of_its_key(l, x),
    ensures
        first_of_its_key(l.push(e), x),
{
    let k = choose|k: int|
        0 <= k < l.len() && l[k] == x && forall|m: int|
            0 <= m < k ==> name_key(#[trigger] l[m]) != name_key(x);
    assert(l.push(e)[k] == x);
    assert forall|m: int| 0 <= m < k implies name_key(#[trigger] l.push(e)[m]) != name_key(x) by {
        assert(l.push(e)[m] == l[m]);
    }
}

proof fn lemma_listing_repeat(rv: Seq<Seq<char>>, l: Seq<Seq<char>>, e: Seq<char>, j: int)
    requires
        is_profile_listing(rv, l),
        0 <= j < rv.len(),
        name_key(rv[j]) == name_key(e),
    ensures
        is_profile_listing(rv, l.push(e)),
{
    reveal(is_profile_listing);
    let le = l.push(e);
    assert forall|i: int| 0 <= i < rv.len() implies first_of_its_key(le, #[trigger] rv[i]) by {
        lemma_listing_extends(l, e, rv[i]);
    }
    assert forall|k: int| #![trigger le[k]] 0 <= k < le.len() implies exists|i: int|
        0 <= i < rv.len() && name_key(#[trigger] rv[i]) == name_key(le[k]) by {
        if k == l.len() {
            assert(name_key(rv[j]) == name_key(le[k]));
        } else {
            assert(le[k] == l[k]);
        }
    }
}

proof fn lemma_insert_sorted(rv: Seq<Seq<char>>, e: Seq<char>, j: int)
    requires
        strictly_sorted(rv),
        0 <= j <= rv.len(),
        forall|i: int| 0 <= i < j ==> text::lex_lt(name_key(#[trigger] rv[i]), name_key(e)),
        j < rv.len() ==> text::lex_lt(name_key(e), name_key(rv[j])),
    ensures
        strictly_sorted(rv.insert(j, e)),
{
    let nv = rv.insert(j, e);
    assert forall|a: int, b: int| 0 <= a < b < nv.len() implies text::lex_lt(
        name_key(#[trigger] nv[a]),
        name_key(#[trigger] nv[b]),
    ) by {
        if b < j {
            assert(nv[a] == rv[a] && nv[b] == rv[b]);
        } else if b == j {
            assert(nv[a] == rv[a]);
        } else if a == j {
            assert(nv[b] == rv[b - 1]);
            if b - 1 > j {
                text::lemma_lex_transitive(name_key(e), name_key(rv[j]), name_key(rv[b - 1]));
            }
        } else if a < j {
            assert(nv[a] == rv[a] && nv[b] == rv[b - 1]);
            if b - 1 > j {
                text::lemma_lex_transitive(name_key(e), name_key(rv[j]), name_key(rv[b - 1]));
            }
            text::lemma_lex_transitive(name_key(rv[a]), name_key(e), name_key(rv[b - 1]));
        } else {
            assert(nv[a] == rv[a - 1] && nv[b] == rv[b - 1]);
        }
    }
}

proof fn lemma_key_is_new(rv: Seq<Seq<char>>, e: Seq<char>, j: int)
    requires
        strictly_sorted(rv),
        0 <= j <= rv.len(),
        forall|i: int| 0 <= i < j ==> text::lex_lt(name_key(#[trigger] rv[i]), name_key(e)),
        j < rv.len() ==> text::lex_lt(name_key(e), name_key(rv[j])),
    ensures
        forall|i: int| 0 <= i < rv.len() ==> name_key(#[trigger] rv[i]) != name_key(e),
{
    assert forall|i: int| 0 <= i < rv.len() implies name_key(#[trigger] rv[i]) != name_key(e) by {
        text::lemma_lex_irreflexive(name_key(e));
        if i > j {
            text::lemma_lex_transitive(name_key(e), name_key(rv[j]), name_key(rv[i]));
        }
    }
}

proof fn lemma_insert_first(rv: Seq<Seq<char>>, l: Seq<Seq<char>>, e: Seq<char>, j: int)
    requires
        all_first_of_their_keys(rv, l),
        covers_keys(rv, l),
        forall|i: int| 0 <= i < rv.len() ==> name_key(#[trigger] rv[i]) != name_key(e),
        0 <= j <= rv.len(),
    ensures
        all_first_of_their_keys(rv.insert(j, e), l.push(e)),
{
    let nv = rv.insert(j, e);
    let le = l.push(e);
    assert forall|i: int| 0 <= i < nv.len() implies first_of_its_key(le, #[trigger] nv[i]) by {
        if i < j {
            assert(nv[i] == rv[i]);
            lemma_listing_extends(l, e, rv[i]);
        } else if i > j {
            assert(nv[i] == rv[i - 1]);
            lemma_listing_extends(l, e, rv[i - 1]);
        } else {
            assert(le[l.len() as int] == e);
            assert forall|m: int| 0 <= m < l.len() implies name_key(#[trigger] le[m]) != name_key(
                e,
            ) by {
                assert(le[m] == l[m]);
                let w = choose|w: int|
                    0 <= w < rv.len() && name_key(#[trigger] rv[w]) == name_key(l[m]);
            }
        }
    }
}

proof fn lemma_insert_covers_one(
    rv: Seq<Seq<char>>,
    l: Seq<Seq<char>>,
    e: Seq<char>,
    j: int,
    k: int,
) -> (w: int)
    requires
        covers_keys(rv, l),
        0 <= j <= rv.len(),
        0 <= k < l.len() + 1,
    ensures
        0 <= w < rv.len() + 1,
        name_key(rv.insert(j, e)[w]) == name_key(l.push(e)[k]),
{
    let nv = rv.insert(j, e);
    let le = l.push(e);
    if k == l.len() {
        assert(nv[j] == e);
        assert(le[k] == e);
        j
    } else {
        assert(le[k] == l[k]);
        let w = choose|w: int|
            0 <= w < rv.len() && name_key(#[trigger] rv[w]) == name_key(l[k]);
        if w < j {
            assert(nv[w] == rv[w]);
            w
        } else {
            assert(nv[w + 1] == rv[w]);
            w + 1
        }
    }
}

proof fn lemma_insert_covers(rv: Seq<Seq<char>>, l: Seq<Seq<char>>, e: Seq<char>, j: int)
    requires
        covers_keys(rv, l),
        0 <= j <= rv.len(),
    ensures
        covers_keys(rv.insert(j, e), l.push(e)),
{
    let nv = rv.insert(j, e);
    let le = l.push(e);
    assert forall|k: int| 0 <= k < le.len() implies has_key(nv, name_key(#[trigger] le[k])) by {
        let w = lemma_insert_covers_one(rv, l, e, j, k);
        assert(name_key(nv[w]) == name_key(le[k]));
    }
}

proof fn lemma_listing_insert(rv: Seq<Seq<char>>, l: Seq<Seq<char>>, e: Seq<char>, j: int)
    requires
        is_profile_listing(rv, l),
        0 <= j <= rv.len(),
        forall|i: int| 0 <= i < j ==> text::lex_lt(name_key(#[trigger] rv[i]), name_key(e)),
        j < rv.len() ==> text::lex_lt(name_key(e), name_key(rv[j])),
    ensures
        is_profile_listing(rv.insert(j, e), l.push(e)),
{
    reveal(is_profile_listing);
    lemma_insert_sorted(rv, e, j);
    lemma_key_is_new(rv, e, j);
    lemma_insert_first(rv, l, e, j);
    lemma_insert_covers(rv, l, e, j);
}

/// Adds one candidate to a listing of the candidates before it.
fn insert_into_listing(
    names: &mut Vec<String>,
    chars: &mut Vec<Vec<char>>,
    keys: &mut Vec<Vec<char>>,
    e: Vec<char>,
    Ghost(l): Ghost<Seq<Seq<char>>>,
)
    requires
        is_profile_listing(text::views(old(chars)@), l),
        text::string_views(old(names)@) == text::views(old(chars)@),
        old(keys)@.len() == old(chars)@.len(),
        forall|i: int|
            0 <= i < old(keys)@.len() ==> #[trigger] old(keys)@[i]@ == name_key(old(chars)@[i]@),
    ensures
        is_profile_listing(text::views(final(chars)@), l.push(e@)),
        text::string_views(final(names)@) == text::views(final(chars)@),
        final(keys)@.len() == final(chars)@.len(),
        forall|i: int|
            0 <= i < final(keys)@.len() ==> #[trigger] final(keys)@[i]@ == name_key(
                final(chars)@[i]@,
            ),
{
    let ghost rv = text::views(chars@);
    let key = lower_chars(&e);
    let n = chars.len();
    let mut j: usize = 0;
    while j < n && lex_lt_exec(&keys[j], &key)
        invariant
            j <= n,
            n == chars.len(),
            n == keys.len(),
            rv == text::views(chars@),
            key@ == name_key(e@),
            forall|i: int| 0 <= i < keys@.len() ==> #[trigger] keys@[i]@ == name_key(chars@[i]@),
            forall|i: int| 0 <= i < j ==> text::lex_lt(name_key(#[trigger] rv[i]), key@),
        decreases n - j,
    {
        assert(keys@[j as int]@ == name_key(rv[j as int]));
        j = j + 1;
    }
    if j < n {
        assert(keys@[j as int]@ == name_key(rv[j as int]));
    }
    if j < n && chars_eq(&keys[j], &key) {
        proof {
            lemma_listing_repeat(rv, l, e@, j as int);
        }
        return;
    }
    proof {
        if j < n {
            text::lemma_lex_total(name_key(rv[j as int]), key@);
        }
        lemma_listing_insert(rv, l, e@, j as int);
    }
    let ghost names_before = text::string_views(names@);
    let ghost keys_before = keys@;
    names.insert(j, string_of(&e));
    chars.insert(j, copy_chars(&e));
    keys.insert(j, key);
    proof {
        assert(text::views(chars@) =~= rv.insert(j as int, e@));
        assert(text::string_views(names@) =~= names_before.insert(j as int, e@));
        assert forall|i: int| 0 <= i < keys@.len() implies #[trigger] keys@[i]@ == name_key(
            chars@[i]@,
        ) by {
            if i < j {
                assert(keys@[i] == keys_before[i]);
            } else if i > j {
                assert(keys@[i] == keys_before[i - 1]);
            }
        }
    }
}

/// The profiles offered for selection, given the stems of the `.toml` files
/// found in the profiles directory: `Default` and every valid stem, sorted
/// case-insensitively, with case-insensitive repeats left out (the first
/// occurrence stays).
pub fn list_operator_profiles(stems: &Vec<String>) -> (r: Vec<String>)
    ensures
        is_profile_listing(text::string_views(r@), listing_candidates(text::string_views(stems@))),
{
    let mut names: Vec<String> = Vec::new();
    let mut chars: Vec<Vec<char>> = Vec::new();
    let mut keys: Vec<Vec<char>> = Vec::new();
    let ghost sv = text::string_views(stems@);
    proof {
        assert(text::views(chars@) =~= Seq::<Seq<char>>::empty());
        assert(text::string_views(names@) =~= Seq::<Seq<char>>::empty());
    }
    let default_name = chars_of(DEFAULT_PROFILE_NAME);
    proof {
        reveal(is_profile_listing);
    }
    insert_into_listing(&mut names, &mut chars, &mut keys, default_name, Ghost(Seq::<Seq<char>>::empty()));
    assert(Seq::<Seq<char>>::empty().push("Default"@) =~= seq!["Default"@]);
    let mut i: usize = 0;
    while i < stems.len()
        invariant
            i <= stems.len(),
            sv == text::string_views(stems@),
            is_profile_listing(
                text::views(chars@),
                seq!["Default"@] + valid_stems(sv.subrange(0, i as int)),
            ),
            text::string_views(names@) == text::views(chars@),
            keys@.len() == chars@.len(),
            forall|k: int| 0 <= k < keys@.len() ==> #[trigger] keys@[k]@ == name_key(chars@[k]@),
        decreases stems.len() - i,
    {
        let ghost prev = sv.subrange(0, i as int);
        let ghost next = sv.subrange(0, i + 1);
        assert(next.drop_last() =~= prev);
        assert(next.last() == stems@[i as int]@);
        let v = chars_of(stems[i].as_str());
        if validate_chars(&v).is_ok() {
            insert_into_listing(
                &mut names,
                &mut chars,
                &mut keys,
                v,
                Ghost(seq!["Default"@] + valid_stems(prev)),
            );
            assert(seq!["Default"@] + valid_stems(next) =~= (seq!["Default"@] + valid_stems(
                prev,
            )).push(stems@[i as int]@));
        } else {
            assert(valid_stems(next) == valid_stems(prev));
        }
        i = i + 1;
    }
    assert(sv.subrange(0, stems.len() as int) =~= sv);
    names
}

/// Workspace a new profile opens in.
pub fn default_workspace_mode() -> (r: String)
    ensures
        r@ == "FT8"@,
{
    owned("FT8")
}

/// Default receive audio tone.
pub fn default_rx_tone_hz() -> (r: u32)
    ensures
        r == 1_500,
{
    1_500
}

/// Default transmit audio tone.
pub fn default_tx_tone_hz() -> (r: u32)
    ensures
        r == 1_500,
{
    1_500
}

/// Default limit of unanswered transmissions per exchange step.
pub fn default_max_attempts() -> (r: u8)
    ensures
        r == crate::modes::exchange::MAX_ATTEMPTS_PER_EXCHANGE,
{
    crate::modes::exchange::MAX_ATTEMPTS_PER_EXCHANGE
}

/// Default PTT lead: the 0.2 s lead of the slot scheduler, in milliseconds.
pub fn default_ptt_lead_ms() -> (r: u64)
    ensures
        r == 200,
{
    200
}

/// Default PTT tail.
pub fn default_ptt_tail_ms() -> (r: u64)
    ensures
        r == 0,
{
    0
}

/// Default CW keying speed in words per minute.
pub fn default_cw_wpm() -> (r: u8)
    ensures
        r == 20,
{
    20
}

/// Default CW tone.
pub fn default_cw_tone_hz() -> (r: u16)
    ensures
        r == 600,
{
    600
}

/// Default first contest serial number.
pub fn default_contest_serial_start() -> (r: u32)
    ensures
        r == 1,
{
    1
}

/// Default contest serial increment.
pub fn default_contest_serial_step() -> (r: u32)
    ensures
        r == 1,
{
    1
}

/// Duplicate checking is on by default.
pub fn default_contest_dupe_check() -> (r: bool)
    ensures
        r,
{
    true
}

/// Default offset of a contest fake split.
pub fn default_contest_fake_split_offset_hz() -> (r: u32)
    ensures
        r == 250,
{
    250
}

/// The decode log follows new entries by default.
pub fn default_follow_log() -> (r: bool)
    ensures
        r,
{
    true
}

/// Default length of the decode log.
pub fn default_max_log_entries() -> (r: usize)
    ensures
        r == 300,
{
    300
}

/// Default radio model.
pub fn default_radio_model() -> (r: String)
    ensures
        r@ == "IC-7300"@,
{
    owned("IC-7300")
}

/// Default serial speed.
pub fn default_radio_baud_rate() -> (r: u32)
    ensures
        r == 115_200,
{
    115_200
}

/// Default radio backend.
pub fn default_radio_backend() -> (r: String)
    ensures
        r@ == "native"@,
{
    owned("native")
}

/// Default endpoint of a networked radio backend.
pub fn default_radio_endpoint() -> (r: String)
    ensures
        r@ == "127.0.0.1:4532"@,
{
    owned("127.0.0.1:4532")
}

/// Default interval between PSK Reporter uploads.
pub fn default_psk_batch_interval_secs() -> (r: u64)
    ensures
        r == 300,
{
    300
}

/// Default time a reported spot is not reported again.
pub fn default_psk_repeat_cache_secs() -> (r: u64)
    ensures
        r == 300,
{
    300
}

/// Default limit of spots waiting for upload.
pub fn default_psk_max_pending() -> (r: usize)
    ensures
        r == 80,
{
    80
}

/// The contest serial counter starts at the first serial number.
pub fn default_contest_serial_current() -> (r: u32)
    ensures
        r == 1,
{
    default_contest_serial_start()
}

proof fn lemma_valid_stems_are_valid(stems: Seq<Seq<char>>, i: int)
    requires
        0 <= i < valid_stems(stems).len(),
    ensures
        validated_name(valid_stems(stems)[i]) is Ok,
    decreases stems.len(),
{
    if stems.len() > 0 {
        let p = valid_stems(stems.drop_last());
        if i < p.len() {
            lemma_valid_stems_are_valid(stems.drop_last(), i);
            if validated_name(stems.last()) is Ok {
                assert(valid_stems(stems)[i] == p[i]);
            }
        }
    }
}

/// The profile listing never offers two names that differ only in letter
/// case.
pub proof fn profile_listing_has_no_case_repeats(r: Seq<Seq<char>>, stems: Seq<Seq<char>>)
    requires
        is_profile_listing(r, listing_candidates(stems)),
    ensures
        forall|i: int, j: int|
            0 <= i < j < r.len() ==> name_key(#[trigger] r[i]) != name_key(#[trigger] r[j]),
{
    reveal(is_profile_listing);
    assert forall|i: int, j: int| 0 <= i < j < r.len() implies name_key(#[trigger] r[i])
        != name_key(#[trigger] r[j]) by {
        text::lemma_lex_irreflexive(name_key(r[i]));
    }
}

/// The profile listing always offers `Default`, and every name it offers is
/// `Default` or the stem of a stored profile file with a valid name.
pub proof fn profile_listing_offers_default_and_valid_names(
    r: Seq<Seq<char>>,
    stems: Seq<Seq<char>>,
)
    requires
        is_profile_listing(r, listing_candidates(stems)),
    ensures
        exists|i: int| 0 <= i < r.len() && r[i] == "Default"@,
        forall|i: int|
            0 <= i < r.len() ==> #[trigger] r[i] == "Default"@ || exists|k: int|
                0 <= k < valid_stems(stems).len() && valid_stems(stems)[k] == r[i],
        forall|i: int| 0 <= i < r.len() ==> validated_name(#[trigger] r[i]) is Ok,
{
    reveal(is_profile_listing);
    let l = listing_candidates(stems);
    assert(l[0] == "Default"@);
    assert(has_key(r, name_key(l[0])));
    let i0 = choose|i: int| 0 <= i < r.len() && name_key(#[trigger] r[i]) == name_key(l[0]);
    assert(first_of_its_key(l, r[i0]));
    let k0 = choose|k: int|
        0 <= k < l.len() && l[k] == r[i0] && forall|m: int|
            0 <= m < k ==> name_key(#[trigger] l[m]) != name_key(r[i0]);
    if k0 > 0 {
        assert(name_key(l[0]) != name_key(r[i0]));
    }
    assert(r[i0] == "Default"@);
    assert(validated_name("Default"@) is Ok) by {
        reveal_strlit("Default");
        assert(text::strip_start("Default"@, text::CharClass::Whitespace) == "Default"@);
        assert(text::strip_end("Default"@, text::CharClass::Whitespace) == "Default"@);
    }
    assert forall|i: int| 0 <= i < r.len() implies #[trigger] r[i] == "Default"@ || exists|k: int|
        0 <= k < valid_stems(stems).len() && valid_stems(stems)[k] == r[i] by {
        assert(first_of_its_key(l, r[i]));
        let k = choose|k: int|
            0 <= k < l.len() && l[k] == r[i] && forall|m: int|
                0 <= m < k ==> name_key(#[trigger] l[m]) != name_key(r[i]);
        if k > 0 {
            assert(valid_stems(stems)[k - 1] == r[i]);
        }
    }
    assert forall|i: int| 0 <= i < r.len() implies validated_name(#[trigger] r[i]) is Ok by {
        if r[i] != "Default"@ {
            let k = choose|k: int|
                0 <= k < valid_stems(stems).len() && valid_stems(stems)[k] == r[i];
            lemma_valid_stems_are_valid(stems, k);
        }
    }
}

} // verus!

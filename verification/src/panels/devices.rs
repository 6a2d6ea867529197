//! Radio connection labels and the checks made before a CAT probe.
use crate::text;
use crate::text::{append_joined, chars_eq_ignore_case, chars_of};
use vstd::prelude::*;

verus! {

/// The connection label of a known radio backend, matched in any letter case.
pub open spec fn backend_label_of(backend: Seq<char>) -> Option<Seq<char>> {
    let b = text::upper(backend);
    if b == text::upper("native"@) {
        Some("Native Rigwright"@)
    } else if b == text::upper("hostbridge"@) {
        Some("Remote HostBridge"@)
    } else if b == text::upper("rigctld"@) {
        Some("Hamlib rigctld"@)
    } else if b == text::upper("dxlab"@) {
        Some("DX Lab Commander"@)
    } else if b == text::upper("null"@) {
        Some("Offline test radio"@)
    } else {
        None
    }
}

fn same_ignoring_case(a: &Vec<char>, lit: &str) -> (r: bool)
    ensures
        r == (text::upper(a@) == text::upper(lit@)),
{
    chars_eq_ignore_case(a, &chars_of(lit))
}

/// The label shown for a radio backend; an unknown backend is shown as typed.
pub fn radio_backend_label<'a>(backend: &'a str) -> (r: &'a str)
    ensures
        r@ == (match backend_label_of(backend@) {
            Some(label) => label,
            None => backend@,
        }),
{
    let b = chars_of(backend);
    if same_ignoring_case(&b, "native") {
        "Native Rigwright"
    } else if same_ignoring_case(&b, "hostbridge") {
        "Remote HostBridge"
    } else if same_ignoring_case(&b, "rigctld") {
        "Hamlib rigctld"
    } else if same_ignoring_case(&b, "dxlab") {
        "DX Lab Commander"
    } else if same_ignoring_case(&b, "null") {
        "Offline test radio"
    } else {
        backend
    }
}

/// Why a CAT probe is refused before any port is opened.
#[derive(Debug, Clone, PartialEq, Eq)]
pub enum CatProbeRefusal {
    /// Only the native backend is probed; holds the selected backend.
    NotNative(String),
    /// No serial port was selected.
    MissingPort,
}

/// Checks that a CAT probe can go ahead with this backend and port.
pub fn cat_connection_precheck(backend: &str, port: &str) -> (r: Result<(), CatProbeRefusal>)
    ensures
        text::upper(backend@) != text::upper("native"@) ==> (r matches Err(
            CatProbeRefusal::NotNative(b),
        ) && b@ == backend@),
        text::upper(backend@) == text::upper("native"@) && port@.len() == 0 ==> r == Err::<
            (),
            CatProbeRefusal,
        >(CatProbeRefusal::MissingPort),
        text::upper(backend@) == text::upper("native"@) && port@.len() > 0 ==> r is Ok,
{
    if !same_ignoring_case(&chars_of(backend), "native") {
        Err(CatProbeRefusal::NotNative(text::owned(backend)))
    } else if port.unicode_len() == 0 {
        Err(CatProbeRefusal::MissingPort)
    } else {
        Ok(())
    }
}

impl CatProbeRefusal {
    pub open spec fn message_text(&self) -> Seq<char> {
        match self {
            CatProbeRefusal::NotNative(b) => "CAT test requires the Native Rigwright backend; selected backend is '"@
                + b@ + "'."@,
            CatProbeRefusal::MissingPort => "CAT test requires a specific serial port; select a radio USB/serial port first."@,
        }
    }

    /// The status line shown for the refusal.
    pub fn message(&self) -> (r: String)
        ensures
            r@ == self.message_text(),
    {
        match self {
            CatProbeRefusal::NotNative(b) => {
                let mut m = String::new();
                m.append("CAT test requires the Native Rigwright backend; selected backend is '");
                m.append(b.as_str());
                m.append("'.");
                m
            },
            CatProbeRefusal::MissingPort => text::owned(
                "CAT test requires a specific serial port; select a radio USB/serial port first.",
            ),
        }
    }
}

/// The entry of an audio or serial device in a device menu: the profiles
/// that use it, or else `fallback`. `users` are the profiles recorded for
/// the device, if any.
pub fn device_choice_label(device: &str, users: Option<&Vec<String>>, fallback: &str) -> (r:
    String)
    ensures
        r@ == (match users {
            Some(u) => if u@.len() > 0 {
                device@ + " · used by "@ + text::join_with(text::string_views(u@), ", "@)
            } else {
                device@ + " · "@ + fallback@
            },
            None => device@ + " · "@ + fallback@,
        }),
{
    let mut label = text::owned(device);
    match users {
        Some(u) => if u.len() > 0 {
            label.append(" · used by ");
            append_joined(&mut label, u, ", ");
            return label;
        },
        None => {},
    }
    label.append(" · ");
    label.append(fallback);
    label
}

pub open spec fn assignment_views(a: Seq<(String, Option<String>)>) -> Seq<(Seq<char>, Option<Seq<char>>)> {
    a.map_values(
        |x: (String, Option<String>)|
            (
                x.0@,
                match x.1 {
                    Some(d) => Some(d@),
                    None => None,
                },
            ),
    )
}

/// The profiles, in order, whose device is exactly `device`.
pub open spec fn users_of(a: Seq<(Seq<char>, Option<Seq<char>>)>, device: Seq<char>) -> Seq<Seq<char>>
    decreases a.len(),
{
    if a.len() == 0 {
        seq![]
    } else {
        let before = users_of(a.drop_last(), device);
        if a.last().1 == Some(device) {
            before.push(a.last().0)
        } else {
            before
        }
    }
}

/// The profiles that use `device`, in profile order. `assignments` pairs
/// each profile that could be read with the device it uses, when that
/// device is enabled in it.
pub fn device_users(assignments: &Vec<(String, Option<String>)>, device: &str) -> (r: Vec<String>)
    ensures
        text::string_views(r@) == users_of(assignment_views(assignments@), device@),
{
    let ghost all = assignment_views(assignments@);
    let d = chars_of(device);
    let mut users: Vec<String> = Vec::new();
    let mut i: usize = 0;
    assert(all.subrange(0, 0) =~= Seq::<(Seq<char>, Option<Seq<char>>)>::empty());
    while i < assignments.len()
        invariant
            i <= assignments.len(),
            all == assignment_views(assignments@),
            d@ == device@,
            text::string_views(users@) == users_of(all.subrange(0, i as int), device@),
        decreases assignments.len() - i,
    {
        let ghost prev = text::string_views(users@);
        let ghost next = all.subrange(0, i + 1);
        assert(next.drop_last() =~= all.subrange(0, i as int));
        assert(next.last() == all[i as int]);
        let (name, used) = &assignments[i];
        let same = match used {
            Some(u) => text::chars_eq(&chars_of(u.as_str()), &d),
            None => false,
        };
        if same {
            users.push(name.clone());
            assert(text::string_views(users@) =~= prev.push(name@));
        } else {
            assert(text::string_views(users@) == prev);
        }
        i = i + 1;
    }
    assert(all.subrange(0, assignments.len() as int) =~= all);
    users
}

} // verus!

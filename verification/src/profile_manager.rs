//! Decisions of the profile tabs: creating, renaming and deleting operator
//! profiles. The file work happens only after one of these plans allows it.
use crate::text;
use crate::text::{chars_eq_ignore_case, chars_of, owned, string_of, strip_chars, CharClass};
use vstd::prelude::*;

verus! {

/// Why a profile tab operation does not go ahead.
#[derive(Debug, Clone, PartialEq, Eq)]
pub enum ProfileEditRefusal {
    /// The new name is empty once trimmed.
    EmptyName,
    /// A profile of that name exists already, in any letter case.
    AlreadyExists(String),
    /// Only one profile is left.
    LastProfile,
    /// No other profile could take the deleted one's place.
    NoReplacement,
}

impl ProfileEditRefusal {
    pub open spec fn message_text(&self) -> Seq<char> {
        match self {
            ProfileEditRefusal::EmptyName => "Profile name cannot be empty"@,
            ProfileEditRefusal::AlreadyExists(n) => "Profile ‘"@ + n@ + "’ already exists"@,
            ProfileEditRefusal::LastProfile => "The last profile cannot be deleted"@,
            ProfileEditRefusal::NoReplacement => "No replacement profile is available"@,
        }
    }

    /// The status line shown for the refusal.
    pub fn message(&self) -> (r: String)
        ensures
            r@ == self.message_text(),
    {
        match self {
            ProfileEditRefusal::EmptyName => owned("Profile name cannot be empty"),
            ProfileEditRefusal::AlreadyExists(n) => {
                let mut m = owned("Profile ‘");
                m.append(n.as_str());
                m.append("’ already exists");
                m
            },
            ProfileEditRefusal::LastProfile => owned("The last profile cannot be deleted"),
            ProfileEditRefusal::NoReplacement => owned("No replacement profile is available"),
        }
    }
}

pub enum RefusalView {
    EmptyName,
    AlreadyExists(Seq<char>),
    LastProfile,
    NoReplacement,
}

pub open spec fn refusal_view(r: ProfileEditRefusal) -> RefusalView {
    match r {
        ProfileEditRefusal::EmptyName => RefusalView::EmptyName,
        ProfileEditRefusal::AlreadyExists(n) => RefusalView::AlreadyExists(n@),
        ProfileEditRefusal::LastProfile => RefusalView::LastProfile,
        ProfileEditRefusal::NoReplacement => RefusalView::NoReplacement,
    }
}

/// Some profile of the list has this name, ignoring ASCII case.
pub open spec fn known_profile(available: Seq<Seq<char>>, name: Seq<char>) -> bool {
    exists|i: int| 0 <= i < available.len() && text::upper(#[trigger] available[i]) == text::upper(name)
}

fn known_profile_exec(available: &Vec<String>, name: &Vec<char>) -> (r: bool)
    ensures
        r == known_profile(text::string_views(available@), name@),
{
    let ghost av = text::string_views(available@);
    let mut i: usize = 0;
    while i < available.len()
        invariant
            i <= available.len(),
            av == text::string_views(available@),
            forall|k: int| 0 <= k < i ==> text::upper(#[trigger] av[k]) != text::upper(name@),
        decreases available.len() - i,
    {
        assert(av[i as int] == available@[i as int]@);
        if chars_eq_ignore_case(&chars_of(available[i].as_str()), name) {
            return true;
        }
        i = i + 1;
    }
    false
}

pub open spec fn creation_of(new_name: Seq<char>, available: Seq<Seq<char>>) -> Result<
    Seq<char>,
    RefusalView,
> {
    let name = text::trim(new_name);
    if name.len() == 0 {
        Err(RefusalView::EmptyName)
    } else if known_profile(available, name) {
        Err(RefusalView::AlreadyExists(name))
    } else {
        Ok(name)
    }
}

pub open spec fn plan_view(r: Result<String, ProfileEditRefusal>) -> Result<Seq<char>, RefusalView> {
    match r {
        Ok(n) => Ok(n@),
        Err(e) => Err(refusal_view(e)),
    }
}

/// Whether a profile named after the new-tab text can be created, and under
/// which (trimmed) name.
pub fn plan_profile_creation(new_name: &str, available: &Vec<String>) -> (r: Result<
    String,
    ProfileEditRefusal,
>)
    ensures
        plan_view(r) == creation_of(new_name@, text::string_views(available@)),
{
    let name = strip_chars(&chars_of(new_name), CharClass::Whitespace);
    if name.len() == 0 {
        return Err(ProfileEditRefusal::EmptyName);
    }
    if known_profile_exec(available, &name) {
        return Err(ProfileEditRefusal::AlreadyExists(string_of(&name)));
    }
    Ok(string_of(&name))
}

/// What renaming the selected profile does.
#[derive(Debug, Clone, PartialEq, Eq)]
pub enum RenamePlan {
    /// Nothing is renamed; the status shows why.
    Refused(ProfileEditRefusal),
    /// The new name only differs in letter case: the name field is reset to
    /// the current name.
    KeepName(String),
    /// Store the profile under `to` and remove `from`.
    Rename { from: String, to: String },
}

pub enum RenamePlanView {
    Refused(RefusalView),
    KeepName(Seq<char>),
    Rename { from: Seq<char>, to: Seq<char> },
}

pub open spec fn rename_view(p: RenamePlan) -> RenamePlanView {
    match p {
        RenamePlan::Refused(e) => RenamePlanView::Refused(refusal_view(e)),
        RenamePlan::KeepName(n) => RenamePlanView::KeepName(n@),
        RenamePlan::Rename { from, to } => RenamePlanView::Rename { from: from@, to: to@ },
    }
}

pub open spec fn rename_of(
    old_name: Seq<char>,
    new_name: Seq<char>,
    available: Seq<Seq<char>>,
) -> RenamePlanView {
    let name = text::trim(new_name);
    if name.len() == 0 {
        RenamePlanView::Refused(RefusalView::EmptyName)
    } else if text::upper(name) == text::upper(old_name) {
        RenamePlanView::KeepName(old_name)
    } else if known_profile(available, name) {
        RenamePlanView::Refused(RefusalView::AlreadyExists(name))
    } else {
        RenamePlanView::Rename { from: old_name, to: name }
    }
}

/// What renaming the profile `old_name` to the new-tab text does.
pub fn plan_profile_rename(old_name: &str, new_name: &str, available: &Vec<String>) -> (r:
    RenamePlan)
    ensures
        rename_view(r) == rename_of(old_name@, new_name@, text::string_views(available@)),
{
    let name = strip_chars(&chars_of(new_name), CharClass::Whitespace);
    if name.len() == 0 {
        return RenamePlan::Refused(ProfileEditRefusal::EmptyName);
    }
    if chars_eq_ignore_case(&name, &chars_of(old_name)) {
        return RenamePlan::KeepName(owned(old_name));
    }
    if known_profile_exec(available, &name) {
        return RenamePlan::Refused(ProfileEditRefusal::AlreadyExists(string_of(&name)));
    }
    RenamePlan::Rename { from: owned(old_name), to: string_of(&name) }
}

/// The first profile of the list other than `name`, ignoring ASCII case.
pub open spec fn first_other(available: Seq<Seq<char>>, name: Seq<char>, i: int) -> Option<Seq<char>>
    decreases available.len() - i,
{
    if i < 0 || i >= available.len() {
        None
    } else if text::upper(available[i]) != text::upper(name) {
        Some(available[i])
    } else {
        first_other(available, name, i + 1)
    }
}

pub open spec fn deletion_of(name: Seq<char>, available: Seq<Seq<char>>) -> Result<
    Seq<char>,
    RefusalView,
> {
    if available.len() <= 1 {
        Err(RefusalView::LastProfile)
    } else {
        match first_other(available, name, 0) {
            Some(r) => Ok(r),
            None => Err(RefusalView::NoReplacement),
        }
    }
}

/// Whether the profile `name` can be deleted, and which profile replaces it.
pub fn plan_profile_deletion(name: &str, available: &Vec<String>) -> (r: Result<
    String,
    ProfileEditRefusal,
>)
    ensures
        plan_view(r) == deletion_of(name@, text::string_views(available@)),
{
    if available.len() <= 1 {
        return Err(ProfileEditRefusal::LastProfile);
    }
    let ghost av = text::string_views(available@);
    let n = chars_of(name);
    let mut i: usize = 0;
    while i < available.len()
        invariant
            i <= available.len(),
            available.len() > 1,
            av == text::string_views(available@),
            n@ == name@,
            first_other(av, name@, 0) == first_other(av, name@, i as int),
        decreases available.len() - i,
    {
        assert(av[i as int] == available@[i as int]@);
        if !chars_eq_ignore_case(&chars_of(available[i].as_str()), &n) {
            return Ok(available[i].clone());
        }
        i = i + 1;
    }
    Err(ProfileEditRefusal::NoReplacement)
}

/// A profile the creation plan allows has a non-empty trimmed name that no
/// existing profile has, in any letter case; a rename likewise never takes
/// another profile's name.
pub proof fn planned_names_are_new(
    old_name: Seq<char>,
    new_name: Seq<char>,
    available: Seq<Seq<char>>,
)
    ensures
        creation_of(new_name, available) matches Ok(n) ==> n == text::trim(new_name) && n.len() > 0
            && forall|i: int|
            0 <= i < available.len() ==> text::upper(#[trigger] available[i]) != text::upper(n),
        rename_of(old_name, new_name, available) matches RenamePlanView::Rename { from, to } ==> from
            == old_name && to == text::trim(new_name) && to.len() > 0 && forall|i: int|
            0 <= i < available.len() ==> text::upper(#[trigger] available[i]) != text::upper(to),
{
}

proof fn lemma_first_other(available: Seq<Seq<char>>, name: Seq<char>, i: int)
    ensures
        first_other(available, name, i) matches Some(r) ==> exists|k: int|
            0 <= k < available.len() && available[k] == r && text::upper(r) != text::upper(name),
    decreases available.len() - i,
{
    if 0 <= i < available.len() && text::upper(available[i]) == text::upper(name) {
        lemma_first_other(available, name, i + 1);
    }
}

/// A deleted profile is replaced by another profile of the list, never by
/// itself (in any letter case); the last profile is never deleted.
pub proof fn deletion_keeps_a_profile(name: Seq<char>, available: Seq<Seq<char>>)
    ensures
        deletion_of(name, available) matches Ok(r) ==> available.len() > 1 && exists|k: int|
            0 <= k < available.len() && available[k] == r && text::upper(r) != text::upper(name),
{
    lemma_first_other(available, name, 0);
}

} // verus!

//! Names shown in the contact log.
use crate::text;
use crate::text::{join_spaced_from, owned, string_of, trim_chars};
use vstd::prelude::*;

verus! {

/// The parts of an operator's name as a callsign lookup returns them.
#[derive(Debug, Clone)]
pub struct OperatorName {
    pub first_name: String,
    pub middle_name: String,
    pub name: String,
    pub suffix: String,
}

/// `parts` with `part` added when it is not empty.
pub open spec fn keep_part(parts: Seq<Seq<char>>, part: Seq<char>) -> Seq<Seq<char>> {
    if part.len() > 0 {
        parts.push(part)
    } else {
        parts
    }
}

/// The name parts, trimmed, without the empty ones, in order.
pub open spec fn name_parts(n: OperatorName) -> Seq<Seq<char>> {
    keep_part(
        keep_part(
            keep_part(keep_part(seq![], text::trim(n.first_name@)), text::trim(n.middle_name@)),
            text::trim(n.name@),
        ),
        text::trim(n.suffix@),
    )
}

fn push_part(parts: &mut Vec<Vec<char>>, part: &String)
    ensures
        text::views(final(parts)@) == keep_part(text::views(old(parts)@), text::trim(part@)),
{
    let p = trim_chars(part.as_str());
    if p.len() > 0 {
        let ghost before = text::views(parts@);
        parts.push(p);
        assert(text::views(parts@) =~= before.push(text::trim(part@)));
    }
}

/// The operator's full name: the trimmed, non-empty parts joined with
/// spaces (empty when every part is).
pub fn operator_name(n: &OperatorName) -> (r: String)
    ensures
        r@ == text::join_spaced(name_parts(*n)),
{
    let mut parts: Vec<Vec<char>> = Vec::new();
    assert(text::views(parts@) =~= Seq::<Seq<char>>::empty());
    push_part(&mut parts, &n.first_name);
    push_part(&mut parts, &n.middle_name);
    push_part(&mut parts, &n.name);
    push_part(&mut parts, &n.suffix);
    let joined = join_spaced_from(&parts, 0);
    assert(text::views(parts@).subrange(0, parts.len() as int) =~= text::views(parts@));
    string_of(&joined)
}

/// The name column of a contact: the looked-up operator's full name, or
/// `—` when there is none or it is empty.
pub fn contact_name_label(n: Option<&OperatorName>) -> (r: String)
    ensures
        r@ == (match n {
            Some(x) => if text::join_spaced(name_parts(*x)).len() > 0 {
                text::join_spaced(name_parts(*x))
            } else {
                "—"@
            },
            None => "—"@,
        }),
{
    match n {
        Some(x) => {
            let name = operator_name(x);
            if name.unicode_len() > 0 {
                name
            } else {
                owned("—")
            }
        },
        None => owned("—"),
    }
}

} // verus!

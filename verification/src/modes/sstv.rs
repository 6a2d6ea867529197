//! Prompts the SSTV workspace sends to the local image models.
use crate::text;
use crate::text::{append_chars, owned, trim_chars};
use vstd::prelude::*;

verus! {

pub open spec fn vision_instruction_text() -> Seq<char> {
    "Inspect this received amateur-radio SSTV image. Describe the main subject, dominant colors, visible station or location text if present, composition, and any artifacts relevant to creating simple high-contrast QSL artwork. Do not invent callsigns or labels."@
}

/// What the vision model is asked about a received image.
pub fn sstv_vision_instruction() -> (r: String)
    ensures
        r@ == vision_instruction_text(),
{
    owned(
        "Inspect this received amateur-radio SSTV image. Describe the main subject, dominant colors, visible station or location text if present, composition, and any artifacts relevant to creating simple high-contrast QSL artwork. Do not invent callsigns or labels.",
    )
}

pub open spec fn reinterpretation_head() -> Seq<char> {
    "Reinterpret this received amateur-radio SSTV image as clean, high-contrast QSL artwork. Preserve the main subject and dominant colors while simplifying the composition for analog SSTV transmission. Use the provided station callsign and grid only when explicitly supplied. Do not invent callsigns, labels, or text. Avoid tiny text and fine detail.\n\nCallsign: "@
}

/// What the image model is asked when it redraws a received image: fixed
/// instructions, then the station's callsign, grid and notes and the model
/// notes, each trimmed.
pub fn sstv_reinterpretation_prompt(
    callsign: &str,
    grid: &str,
    station_notes: &str,
    model_notes: &str,
) -> (r: String)
    ensures
        r@ == reinterpretation_head() + text::trim(callsign@) + "\nGrid: "@ + text::trim(grid@)
            + "\nStation notes: "@ + text::trim(station_notes@) + "\nModel notes: "@ + text::trim(
            model_notes@,
        ),
{
    let mut prompt = owned(
        "Reinterpret this received amateur-radio SSTV image as clean, high-contrast QSL artwork. Preserve the main subject and dominant colors while simplifying the composition for analog SSTV transmission. Use the provided station callsign and grid only when explicitly supplied. Do not invent callsigns, labels, or text. Avoid tiny text and fine detail.\n\nCallsign: ",
    );
    append_chars(&mut prompt, &trim_chars(callsign));
    prompt.append("\nGrid: ");
    append_chars(&mut prompt, &trim_chars(grid));
    prompt.append("\nStation notes: ");
    append_chars(&mut prompt, &trim_chars(station_notes));
    prompt.append("\nModel notes: ");
    append_chars(&mut prompt, &trim_chars(model_notes));
    prompt
}

} // verus!

use crate::text::same_text;
use vstd::prelude::*;

verus! {

/// What `str::to_lowercase` makes of a text: its lowercase form by the
/// Unicode tables that the standard library carries, the same on every machine.
pub uninterp spec fn lowercased(text: Seq<char>) -> Seq<char>;

/// `str::to_lowercase`: the lowercase form of `text`, as a new string.
#[verifier::external_body]
fn lowercase(text: &str) -> (lowered: String)
    ensures
        lowered@ == lowercased(text@),
{
    text.to_lowercase()
}

/// A setting switches a feature on where it reads "1", or where its
/// lowercase form reads "true".
pub open spec fn switches_on(value: Seq<char>, lowered: Seq<char>) -> bool {
    value == "1"@ || lowered == "true"@
}

/// Judges a setting from its text and the lowercase form of that text.
pub fn setting_is_on(value: &str, lowered: &str) -> (on: bool)
    ensures
        on == switches_on(value@, lowered@),
{
    same_text(value, "1") || same_text(lowered, "true")
}

/// Whether the confirmation by text is switched on, from the setting that
/// the environment holds for it: off where there is none.
pub fn use_ocr(setting: Option<&str>) -> (on: bool)
    ensures
        on == (match setting {
            Some(value) => switches_on(value@, lowercased(value@)),
            None => false,
        }),
{
    match setting {
        Some(value) => {
            let lowered = lowercase(value);
            setting_is_on(value, lowered.as_str())
        },
        None => false,
    }
}

} // verus!

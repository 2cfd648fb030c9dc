//! Selecting text-to-speech voice presets by locale, gender and category.

use vstd::prelude::*;

use crate::text::{lemma_filter_push, same_text};

verus! {

/// A text-to-speech voice preset.
#[derive(Debug, Clone)]
pub struct VoicePreset {
    pub id: String,
    pub display_name: String,
    pub locale: String,
    pub gender: String,
    pub category: String,
    pub notes: String,
}

/// Whether `value` passes the filter `wanted` (no filter passes all).
pub open spec fn passes(wanted: Option<&str>, value: Seq<char>) -> bool {
    match wanted {
        Some(w) => w@ == value,
        None => true,
    }
}

/// Whether a preset passes all three filters.
pub open spec fn voice_matches(
    v: VoicePreset,
    locale: Option<&str>,
    gender: Option<&str>,
    category: Option<&str>,
) -> bool {
    passes(locale, v.locale@) && passes(gender, v.gender@) && passes(category, v.category@)
}

fn passes_filter(wanted: Option<&str>, value: &String) -> (r: bool)
    ensures
        r == passes(wanted, value@),
        wanted is None ==> r,
        wanted matches Some(w) ==> (r <==> w@ == value@),
{
    match wanted {
        Some(w) => same_text(w, value.as_str()),
        None => true,
    }
}

/// The presets that pass every given filter, in their original order.
pub fn select_voices(
    presets: &Vec<VoicePreset>,
    locale: Option<&str>,
    gender: Option<&str>,
    category: Option<&str>,
) -> (r: Vec<VoicePreset>)
    ensures
        r@ == presets@.filter(|v: VoicePreset| voice_matches(v, locale, gender, category)),
{
    let ghost pred = |v: VoicePreset| voice_matches(v, locale, gender, category);
    let mut out: Vec<VoicePreset> = Vec::new();
    let mut i: usize = 0;
    while i < presets.len()
        invariant
            0 <= i <= presets@.len(),
            pred == (|v: VoicePreset| voice_matches(v, locale, gender, category)),
            out@ == presets@.take(i as int).filter(pred),
        decreases presets@.len() - i,
    {
        let v = &presets[i];
        proof {
            assert(presets@.take(i + 1) == presets@.take(i as int).push(presets@[i as int]));
            lemma_filter_push(presets@.take(i as int), presets@[i as int], pred);
        }
        if passes_filter(locale, &v.locale) && passes_filter(gender, &v.gender) && passes_filter(
            category,
            &v.category,
        ) {
            out.push(
                VoicePreset {
                    id: v.id.clone(),
                    display_name: v.display_name.clone(),
                    locale: v.locale.clone(),
                    gender: v.gender.clone(),
                    category: v.category.clone(),
                    notes: v.notes.clone(),
                },
            );
        }
        i = i + 1;
    }
    proof {
        assert(presets@.take(presets@.len() as int) == presets@);
    }
    out
}

/// A preset passes the filters exactly when each given filter equals the
/// preset's field as a whole text (so "male" never lets "female" through);
/// a filter that is not given lets every preset through.
pub proof fn lemma_filters_match_whole_fields(
    v: VoicePreset,
    locale: Option<&str>,
    gender: Option<&str>,
    category: Option<&str>,
)
    ensures
        voice_matches(v, locale, gender, category) <==> ((locale matches Some(l) ==> l@ == v.locale@)
            && (gender matches Some(g) ==> g@ == v.gender@) && (category matches Some(c) ==> c@
            == v.category@)),
{
}

/// The selection holds exactly the presets whose fields equal every given
/// filter, in their original order: every selected preset has the asked
/// locale, gender and category, and every preset that has them is selected.
pub proof fn lemma_selection_is_exact(
    presets: Seq<VoicePreset>,
    locale: Option<&str>,
    gender: Option<&str>,
    category: Option<&str>,
)
    ensures
        ({
            let r = presets.filter(|v: VoicePreset| voice_matches(v, locale, gender, category));
            &&& forall|i: int|
                0 <= i < r.len() ==> (gender matches Some(g) ==> g@ == (#[trigger] r[i]).gender@)
                    && (locale matches Some(l) ==> l@ == r[i].locale@) && (category matches Some(c)
                    ==> c@ == r[i].category@)
            &&& forall|i: int|
                0 <= i < presets.len() && (locale matches Some(l) ==> l@ == presets[i].locale@) && (
                gender matches Some(g) ==> g@ == presets[i].gender@) && (category matches Some(c)
                    ==> c@ == presets[i].category@) ==> r.contains(#[trigger] presets[i])
        }),
{
    let f = |v: VoicePreset| voice_matches(v, locale, gender, category);
    let r = presets.filter(f);
    assert forall|i: int| 0 <= i < r.len() implies (gender matches Some(g) ==> g@ == (
    #[trigger] r[i]).gender@) && (locale matches Some(l) ==> l@ == r[i].locale@) && (
    category matches Some(c) ==> c@ == r[i].category@) by {
        presets.filter_lemma(f);
        assert(f(r[i]));
    }
    assert forall|i: int|
        0 <= i < presets.len() && (locale matches Some(l) ==> l@ == presets[i].locale@) && (
        gender matches Some(g) ==> g@ == presets[i].gender@) && (category matches Some(c) ==> c@
            == presets[i].category@) implies r.contains(#[trigger] presets[i]) by {
        presets.filter_lemma(f);
        assert(f(presets[i]));
    }
}

} // verus!

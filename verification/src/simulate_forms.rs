//! The forms that the controls of a simulation open.

use crate::active::{modal, optional_input, text_input, ModalSpec, ModalSpecView, TextInput};
use crate::text::text_eq;
use vstd::prelude::*;

verus! {

/// A form with one input, named like the form.
pub open spec fn single_form(
    id: Seq<char>,
    label: Seq<char>,
    placeholder: Seq<char>,
    title: Seq<char>,
) -> ModalSpecView {
    ModalSpecView { custom_id: id, title, inputs: seq![optional_input(id, label, placeholder)] }
}

/// The form for the clock rate and the beats per minute.
pub open spec fn speed_form() -> ModalSpecView {
    ModalSpecView {
        custom_id: "sim_speed_adjustments"@,
        title: "Speed adjustments"@,
        inputs: seq![
            optional_input("sim_clock_rate"@, "Clock rate"@, "Specify a clock rate"@),
            optional_input(
                "sim_bpm"@,
                "BPM (overwritten if clock rate is specified)"@,
                "Specify a BPM"@,
            ),
        ],
    }
}

/// The form for the four difficulty settings of a map.
pub open spec fn attrs_form() -> ModalSpecView {
    ModalSpecView {
        custom_id: "sim_attrs"@,
        title: "Attributes"@,
        inputs: seq![
            optional_input("sim_ar"@, "AR"@, "Specify an approach rate"@),
            optional_input("sim_cs"@, "CS"@, "Specify a circle size"@),
            optional_input("sim_hp"@, "HP"@, "Specify a drain rate"@),
            optional_input("sim_od"@, "OD"@, "Specify an overall difficulty"@),
        ],
    }
}

/// The form that the control named `id` opens, where it opens one.
pub open spec fn simulate_form(id: Seq<char>) -> Option<ModalSpecView> {
    if id == "sim_mods"@ {
        Some(single_form("sim_mods"@, "Mods"@, "E.g. hd or HdHRdteZ"@, "Specify mods"@))
    } else if id == "sim_combo"@ {
        Some(single_form("sim_combo"@, "Combo"@, "Integer"@, "Specify combo"@))
    } else if id == "sim_acc"@ {
        Some(single_form("sim_acc"@, "Accuracy"@, "Number"@, "Specify accuracy"@))
    } else if id == "sim_geki"@ {
        Some(single_form("sim_geki"@, "Amount of gekis"@, "Integer"@, "Specify the amount of gekis"@))
    } else if id == "sim_katu"@ {
        Some(single_form("sim_katu"@, "Amount of katus"@, "Integer"@, "Specify the amount of katus"@))
    } else if id == "sim_n300"@ {
        Some(single_form("sim_n300"@, "Amount of 300s"@, "Integer"@, "Specify the amount of 300s"@))
    } else if id == "sim_n100"@ {
        Some(single_form("sim_n100"@, "Amount of 100s"@, "Integer"@, "Specify the amount of 100s"@))
    } else if id == "sim_n50"@ {
        Some(single_form("sim_n50"@, "Amount of 50s"@, "Integer"@, "Specify the amount of 50s"@))
    } else if id == "sim_miss"@ {
        Some(single_form("sim_miss"@, "Amount of misses"@, "Integer"@, "Specify the amount of misses"@))
    } else if id == "sim_slider_ends"@ {
        Some(single_form("sim_slider_ends"@, "Amount of slider end hits"@, "Integer"@, "Specify the amount of slider end hits"@))
    } else if id == "sim_large_ticks"@ {
        Some(single_form("sim_large_ticks"@, "Amount of large tick hits (ticks & reverses)"@, "Integer"@, "Specify the amount of large tick hits"@))
    } else if id == "sim_score"@ {
        Some(single_form("sim_score"@, "Score"@, "Integer"@, "Specify the score"@))
    } else if id == "sim_clock_rate"@ {
        Some(speed_form())
    } else if id == "sim_attrs"@ {
        Some(attrs_form())
    } else {
        None
    }
}

fn single_modal(id: &str, label: &str, placeholder: &str, title: &str) -> (form: ModalSpec)
    ensures
        form@ == single_form(id@, label@, placeholder@, title@),
{
    let mut inputs: Vec<TextInput> = Vec::new();
    inputs.push(text_input(id, label, placeholder));
    let form = modal(id, title, inputs);
    assert(form@.inputs =~= seq![optional_input(id@, label@, placeholder@)]);
    form
}

fn speed_modal() -> (form: ModalSpec)
    ensures
        form@ == speed_form(),
{
    let mut inputs: Vec<TextInput> = Vec::new();
    inputs.push(text_input("sim_clock_rate", "Clock rate", "Specify a clock rate"));
    inputs.push(
        text_input("sim_bpm", "BPM (overwritten if clock rate is specified)", "Specify a BPM"),
    );
    let form = modal("sim_speed_adjustments", "Speed adjustments", inputs);
    assert(form@.inputs =~= speed_form().inputs);
    form
}

fn attrs_modal() -> (form: ModalSpec)
    ensures
        form@ == attrs_form(),
{
    let mut inputs: Vec<TextInput> = Vec::new();
    inputs.push(text_input("sim_ar", "AR", "Specify an approach rate"));
    inputs.push(text_input("sim_cs", "CS", "Specify a circle size"));
    inputs.push(text_input("sim_hp", "HP", "Specify a drain rate"));
    inputs.push(text_input("sim_od", "OD", "Specify an overall difficulty"));
    let form = modal("sim_attrs", "Attributes", inputs);
    assert(form@.inputs =~= attrs_form().inputs);
    form
}

/// Builds the form that the control named `id` opens.
pub fn simulate_modal(id: &str) -> (form: Option<ModalSpec>)
    ensures
        form.is_some() == simulate_form(id@).is_some(),
        form.is_some() ==> form.unwrap()@ == simulate_form(id@).unwrap(),
{
    if text_eq(id, "sim_mods") {
        Some(single_modal("sim_mods", "Mods", "E.g. hd or HdHRdteZ", "Specify mods"))
    } else if text_eq(id, "sim_combo") {
        Some(single_modal("sim_combo", "Combo", "Integer", "Specify combo"))
    } else if text_eq(id, "sim_acc") {
        Some(single_modal("sim_acc", "Accuracy", "Number", "Specify accuracy"))
    } else if text_eq(id, "sim_geki") {
        Some(single_modal("sim_geki", "Amount of gekis", "Integer", "Specify the amount of gekis"))
    } else if text_eq(id, "sim_katu") {
        Some(single_modal("sim_katu", "Amount of katus", "Integer", "Specify the amount of katus"))
    } else if text_eq(id, "sim_n300") {
        Some(single_modal("sim_n300", "Amount of 300s", "Integer", "Specify the amount of 300s"))
    } else if text_eq(id, "sim_n100") {
        Some(single_modal("sim_n100", "Amount of 100s", "Integer", "Specify the amount of 100s"))
    } else if text_eq(id, "sim_n50") {
        Some(single_modal("sim_n50", "Amount of 50s", "Integer", "Specify the amount of 50s"))
    } else if text_eq(id, "sim_miss") {
        Some(single_modal("sim_miss", "Amount of misses", "Integer", "Specify the amount of misses"))
    } else if text_eq(id, "sim_slider_ends") {
        Some(single_modal("sim_slider_ends", "Amount of slider end hits", "Integer", "Specify the amount of slider end hits"))
    } else if text_eq(id, "sim_large_ticks") {
        Some(single_modal("sim_large_ticks", "Amount of large tick hits (ticks & reverses)", "Integer", "Specify the amount of large tick hits"))
    } else if text_eq(id, "sim_score") {
        Some(single_modal("sim_score", "Score", "Integer", "Specify the score"))
    } else if text_eq(id, "sim_clock_rate") {
        Some(speed_modal())
    } else if text_eq(id, "sim_attrs") {
        Some(attrs_modal())
    } else {
        None
    }
}

} // verus!

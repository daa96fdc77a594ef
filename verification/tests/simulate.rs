use bathbot::active::{ComponentError, ComponentResult, ModalError, ModalOutcome};
use bathbot::embed::{Button, ControlRow, RenderError};
use bathbot::interaction::{ComponentEvent, Decimal, ModalEvent, ModalField, ModalRow, parse_attr};
use bathbot::mods::GameMode;
use bathbot::simulate::{clamp_percent, SimulateAttributes, SimulateData, TopOldVersion};
use bathbot::simulate_components::SimulateComponents;
use bathbot::simulate_forms::simulate_modal;
use bathbot::simulate_map::{AttachedSimulateMap, OsuMap, SimulateMap};
use bathbot::simulate_page::{ComboOrRatio, ScoreState, SimulateValues};
use rosu_pp::Beatmap;

const OWNER: u64 = 7;

fn button(id: &str) -> Button {
    Button { custom_id: id.to_owned(), label: id.to_owned(), disabled: false }
}

fn version(mode: GameMode, name: &str, value: &str) -> TopOldVersion {
    TopOldVersion {
        mode,
        name: name.to_owned(),
        menu_value: value.to_owned(),
        stable: vec![ControlRow::Buttons(vec![button("sim_mods"), button("sim_lazer")])],
        lazer: vec![ControlRow::Buttons(vec![
            button("sim_mods"),
            button("sim_stable"),
            button("sim_slider_ends"),
        ])],
    }
}

fn data() -> SimulateData {
    SimulateData {
        mods: None,
        acc: None,
        combo: Some(12),
        n_geki: None,
        n_katu: None,
        n300: None,
        n100: None,
        n50: None,
        n_miss: None,
        score: None,
        n_slider_ends: Some(3),
        n_large_ticks: Some(4),
        set_on_lazer: true,
        attrs: SimulateAttributes { ar: None, cs: None, hp: None, od: None },
        clock_rate: None,
        bpm: None,
        versions: vec![
            version(GameMode::Osu, "September 2022", "sim_osu_september22"),
            version(GameMode::Osu, "Now", "sim_osu_now"),
            version(GameMode::Mania, "Mania now", "sim_mania_now"),
        ],
        version: 0,
    }
}

fn attached() -> SimulateMap {
    SimulateMap::Attached(AttachedSimulateMap {
        pp_map: Beatmap::default(),
        filename: "my \"map\".osu".to_owned(),
    })
}

fn full() -> SimulateMap {
    SimulateMap::Full(OsuMap {
        pp_map: Beatmap::default(),
        map_id: 5023039,
        artist: "Artist".to_owned(),
        title: "Title".to_owned(),
        version: "Hard".to_owned(),
        creator: "Mapper".to_owned(),
        status: "Ranked".to_owned(),
        cover: "https://assets.ppy.sh/beatmaps/1/covers/cover.jpg".to_owned(),
        mode_icon: "https://example.com/osu.png".to_owned(),
    })
}

fn simulation() -> SimulateComponents {
    SimulateComponents::new(attached(), data(), OWNER)
}

fn click(user: Option<u64>, id: &str) -> ComponentEvent {
    ComponentEvent { user, custom_id: id.to_owned(), values: Vec::new() }
}

fn field(id: &str, value: Option<&str>) -> ModalField {
    let number = value.and_then(|v| {
        let double = v.parse::<f64>().ok()?;
        let single = v.parse::<f32>().ok()?;
        Some(Decimal { single: single.to_bits(), double: double.to_bits() })
    });
    ModalField { custom_id: id.to_owned(), value: value.map(str::to_owned), number }
}

fn form(user: Option<u64>, id: &str, fields: Vec<ModalField>) -> ModalEvent {
    ModalEvent {
        user,
        custom_id: id.to_owned(),
        rows: fields.into_iter().map(|f| ModalRow { components: vec![f] }).collect(),
    }
}

fn single_form(user: Option<u64>, id: &str, value: Option<&str>) -> ModalEvent {
    form(user, id, vec![field(id, value)])
}

fn values() -> SimulateValues {
    SimulateValues {
        grade: "S".to_owned(),
        pp: "**100**/200PP".to_owned(),
        clock_rate: Some("1.50".to_owned()),
        combo_ratio: ComboOrRatio::Combo("**12x**/50x".to_owned()),
        score_state: ScoreState::State { acc: "99.5%".to_owned(), hits: "{10/2/0}".to_owned() },
        map_info: "Length: `1:00`".to_owned(),
        keys: "[4K]".to_owned(),
    }
}

fn snapshot(sim: &SimulateComponents) -> String {
    let d = sim.data();
    format!(
        "{:?} {:?} {:?} {:?} {:?} {:?} {:?} {:?} {:?} {:?} {:?} {:?} {:?} {:?} {:?} {:?} {} {} {} {}",
        d.mods,
        d.acc,
        d.combo,
        d.n_geki,
        d.n_katu,
        d.n300,
        d.n100,
        d.n50,
        d.n_miss,
        d.score,
        d.n_slider_ends,
        d.n_large_ticks,
        d.set_on_lazer,
        d.attrs,
        d.clock_rate,
        d.bpm,
        d.version,
        sim.defer(),
        sim.msg_owner(),
        sim.map().fmt(),
    )
}

#[test]
fn numeric_filter_is_set_cleared_and_guarded() {
    let mut sim = simulation();
    let outcome = sim.handle_modal(&single_form(Some(OWNER), "sim_combo", Some("150")));
    assert_eq!(outcome, Ok(ModalOutcome::Acknowledge));
    assert_eq!(sim.data().combo, Some(150));
    let outcome = sim.handle_modal(&single_form(Some(99), "sim_combo", Some("3")));
    assert_eq!(outcome, Ok(ModalOutcome::NotOwner));
    assert_eq!(sim.data().combo, Some(150));
    let outcome = sim.handle_modal(&single_form(Some(OWNER), "sim_combo", Some("")));
    assert_eq!(outcome, Ok(ModalOutcome::Acknowledge));
    assert_eq!(sim.data().combo, None);
    let outcome = sim.handle_modal(&single_form(Some(OWNER), "sim_combo", Some("7")));
    assert_eq!(outcome, Ok(ModalOutcome::Acknowledge));
    let outcome = sim.handle_modal(&single_form(Some(OWNER), "sim_combo", None));
    assert_eq!(outcome, Ok(ModalOutcome::Acknowledge));
    assert_eq!(sim.data().combo, None);
}

#[test]
fn unreadable_input_leaves_the_state_alone() {
    let mut sim = simulation();
    let before = snapshot(&sim);
    for (id, value) in [
        ("sim_combo", "many"),
        ("sim_combo", "-1"),
        ("sim_combo", "4294967296"),
        ("sim_score", "1e3"),
        ("sim_acc", "high"),
        ("sim_n300", "3 "),
    ] {
        let outcome = sim.handle_modal(&single_form(Some(OWNER), id, Some(value)));
        assert_eq!(outcome, Ok(ModalOutcome::Rejected), "{id} {value}");
        assert_eq!(snapshot(&sim), before);
    }
}

#[test]
fn each_count_form_sets_its_own_count() {
    let mut sim = simulation();
    let ids = [
        "sim_combo",
        "sim_geki",
        "sim_katu",
        "sim_n300",
        "sim_n100",
        "sim_n50",
        "sim_miss",
        "sim_score",
        "sim_slider_ends",
        "sim_large_ticks",
    ];
    for (i, id) in ids.iter().enumerate() {
        let value = (i + 20).to_string();
        let outcome = sim.handle_modal(&single_form(Some(OWNER), id, Some(&value)));
        assert_eq!(outcome, Ok(ModalOutcome::Acknowledge));
    }
    let d = sim.data();
    let counts = [
        d.combo,
        d.n_geki,
        d.n_katu,
        d.n300,
        d.n100,
        d.n50,
        d.n_miss,
        d.score,
        d.n_slider_ends,
        d.n_large_ticks,
    ];
    for (i, count) in counts.iter().enumerate() {
        assert_eq!(*count, Some(i as u32 + 20));
    }
}

#[test]
fn strangers_change_nothing() {
    let mut sim = simulation();
    let before = snapshot(&sim);
    for id in ["sim_mods", "sim_lazer", "sim_stable", "sim_osu_version", "sim_attrs", "other"] {
        let mut event = click(Some(OWNER + 1), id);
        event.values.push("sim_osu_now".to_owned());
        assert!(matches!(sim.handle_component(&event), ComponentResult::Ignore));
        assert_eq!(snapshot(&sim), before);
    }
    for id in ["sim_mods", "sim_combo", "sim_attrs", "sim_speed_adjustments", "sim_acc"] {
        let outcome = sim.handle_modal(&single_form(Some(OWNER + 1), id, Some("1")));
        assert_eq!(outcome, Ok(ModalOutcome::NotOwner));
        assert_eq!(snapshot(&sim), before);
    }
}

#[test]
fn missing_user_is_an_error() {
    let mut sim = simulation();
    let before = snapshot(&sim);
    assert!(matches!(
        sim.handle_component(&click(None, "sim_lazer")),
        ComponentResult::Error(ComponentError::MissingUser)
    ));
    assert_eq!(
        sim.handle_modal(&single_form(None, "sim_combo", Some("1"))),
        Err(ModalError::MissingUser)
    );
    assert_eq!(snapshot(&sim), before);
}

#[test]
fn form_without_input_is_an_error() {
    let mut sim = simulation();
    let before = snapshot(&sim);
    let empty = form(Some(OWNER), "sim_combo", Vec::new());
    assert_eq!(sim.handle_modal(&empty), Err(ModalError::MissingInput));
    let hollow = ModalEvent {
        user: Some(OWNER),
        custom_id: "sim_attrs".to_owned(),
        rows: vec![ModalRow { components: Vec::new() }],
    };
    assert_eq!(sim.handle_modal(&hollow), Err(ModalError::MissingInput));
    assert_eq!(snapshot(&sim), before);
}

#[test]
fn unknown_form_is_acknowledged() {
    let mut sim = simulation();
    let before = snapshot(&sim);
    let outcome = sim.handle_modal(&single_form(Some(OWNER), "sim_unknown", Some("1")));
    assert_eq!(outcome, Ok(ModalOutcome::Acknowledge));
    assert_eq!(snapshot(&sim), before);
}

#[test]
fn input_controls_open_their_forms() {
    let mut sim = simulation();
    let before = snapshot(&sim);
    match sim.handle_component(&click(Some(OWNER), "sim_mods")) {
        ComponentResult::CreateModal(form) => {
            assert_eq!(form.custom_id, "sim_mods");
            assert_eq!(form.title, "Specify mods");
            assert_eq!(form.inputs.len(), 1);
            assert_eq!(form.inputs[0].custom_id, "sim_mods");
            assert_eq!(form.inputs[0].label, "Mods");
            assert_eq!(form.inputs[0].placeholder, "E.g. hd or HdHRdteZ");
            assert!(!form.inputs[0].required);
        }
        other => panic!("{other:?}"),
    }
    match sim.handle_component(&click(Some(OWNER), "sim_clock_rate")) {
        ComponentResult::CreateModal(form) => {
            assert_eq!(form.custom_id, "sim_speed_adjustments");
            assert_eq!(form.title, "Speed adjustments");
            let ids: Vec<&str> = form.inputs.iter().map(|i| i.custom_id.as_str()).collect();
            assert_eq!(ids, ["sim_clock_rate", "sim_bpm"]);
            assert_eq!(form.inputs[1].label, "BPM (overwritten if clock rate is specified)");
        }
        other => panic!("{other:?}"),
    }
    match sim.handle_component(&click(Some(OWNER), "sim_attrs")) {
        ComponentResult::CreateModal(form) => {
            assert_eq!(form.title, "Attributes");
            let ids: Vec<&str> = form.inputs.iter().map(|i| i.custom_id.as_str()).collect();
            assert_eq!(ids, ["sim_ar", "sim_cs", "sim_hp", "sim_od"]);
            let labels: Vec<&str> = form.inputs.iter().map(|i| i.label.as_str()).collect();
            assert_eq!(labels, ["AR", "CS", "HP", "OD"]);
        }
        other => panic!("{other:?}"),
    }
    assert_eq!(snapshot(&sim), before);
    assert!(matches!(sim.handle_component(&click(Some(OWNER), "nothing")), ComponentResult::Ignore));
}

#[test]
fn every_form_names_itself() {
    let singles = [
        ("sim_mods", "Mods", "Specify mods"),
        ("sim_combo", "Combo", "Specify combo"),
        ("sim_acc", "Accuracy", "Specify accuracy"),
        ("sim_geki", "Amount of gekis", "Specify the amount of gekis"),
        ("sim_katu", "Amount of katus", "Specify the amount of katus"),
        ("sim_n300", "Amount of 300s", "Specify the amount of 300s"),
        ("sim_n100", "Amount of 100s", "Specify the amount of 100s"),
        ("sim_n50", "Amount of 50s", "Specify the amount of 50s"),
        ("sim_miss", "Amount of misses", "Specify the amount of misses"),
        ("sim_slider_ends", "Amount of slider end hits", "Specify the amount of slider end hits"),
        (
            "sim_large_ticks",
            "Amount of large tick hits (ticks & reverses)",
            "Specify the amount of large tick hits",
        ),
        ("sim_score", "Score", "Specify the score"),
    ];
    for (id, label, title) in singles {
        let form = simulate_modal(id).unwrap();
        assert_eq!(form.custom_id, id);
        assert_eq!(form.title, title);
        assert_eq!(form.inputs.len(), 1);
        assert_eq!(form.inputs[0].custom_id, id);
        assert_eq!(form.inputs[0].label, label);
        let placeholder = match id {
            "sim_mods" => "E.g. hd or HdHRdteZ",
            "sim_acc" => "Number",
            _ => "Integer",
        };
        assert_eq!(form.inputs[0].placeholder, placeholder);
    }
    assert!(simulate_modal("sim_lazer").is_none());
    assert!(simulate_modal("sim_speed_adjustments").is_none());
}

#[test]
fn client_controls_switch_and_send_at_once() {
    let mut sim = simulation();
    assert!(sim.defer());
    assert!(matches!(
        sim.handle_component(&click(Some(OWNER), "sim_stable")),
        ComponentResult::BuildPage
    ));
    assert!(!sim.data().set_on_lazer);
    assert_eq!(sim.data().n_slider_ends, None);
    assert_eq!(sim.data().n_large_ticks, None);
    assert_eq!(sim.data().combo, Some(12));
    assert!(!sim.defer());
    let page = sim.build_page(&values()).unwrap();
    assert!(!page.defer);
    assert!(sim.defer());
    assert!(matches!(
        sim.handle_component(&click(Some(OWNER), "sim_lazer")),
        ComponentResult::BuildPage
    ));
    assert!(sim.data().set_on_lazer);
    assert!(!sim.defer());
}

#[test]
fn version_menu_asks_for_an_acknowledgment() {
    let mut sim = simulation();
    let mut event = click(Some(OWNER), "sim_osu_version");
    assert!(matches!(
        sim.handle_component(&event),
        ComponentResult::Error(ComponentError::MissingVersion)
    ));
    event.values.push("sim_osu_may14".to_owned());
    match sim.handle_component(&event) {
        ComponentResult::Error(ComponentError::UnknownVersion(value)) => {
            assert_eq!(value, "sim_osu_may14")
        }
        other => panic!("{other:?}"),
    }
    event.values[0] = "sim_osu_now".to_owned();
    let token = match sim.handle_component(&event) {
        ComponentResult::Defer(token) => token,
        other => panic!("{other:?}"),
    };
    assert_eq!(token, 1);
    assert_eq!(sim.data().version, 0);
    assert!(matches!(
        sim.complete_defer(token, false),
        ComponentResult::Error(ComponentError::DeferFailed)
    ));
    assert_eq!(sim.data().version, 0);
    assert!(matches!(sim.complete_defer(token, true), ComponentResult::BuildPage));
    assert_eq!(sim.data().version, 1);
    assert!(matches!(sim.complete_defer(3, true), ComponentResult::Ignore));
    assert_eq!(sim.data().version, 1);
    let mut mania = click(Some(OWNER), "sim_mania_version");
    mania.values.push("sim_mania_now".to_owned());
    assert!(matches!(sim.handle_component(&mania), ComponentResult::Defer(2)));
}

#[test]
fn accuracy_is_clamped_into_percent() {
    let mut sim = simulation();
    for (text, expected) in [("99.5", 99.5f32), ("150", 100.0), ("-3", 0.0), ("0", 0.0), ("100", 100.0)] {
        let outcome = sim.handle_modal(&single_form(Some(OWNER), "sim_acc", Some(text)));
        assert_eq!(outcome, Ok(ModalOutcome::Acknowledge));
        assert_eq!(sim.data().acc, Some(expected.to_bits()), "{text}");
    }
    let outcome = sim.handle_modal(&single_form(Some(OWNER), "sim_acc", None));
    assert_eq!(outcome, Ok(ModalOutcome::Acknowledge));
    assert_eq!(sim.data().acc, None);
}

#[test]
fn clamp_percent_agrees_with_clamp() {
    let mut samples = vec![
        0.0f32,
        -0.0,
        100.0,
        100.00001,
        99.99999,
        -1.0e-40,
        1.0e-40,
        f32::INFINITY,
        f32::NEG_INFINITY,
        f32::MAX,
        f32::MIN,
        f32::MIN_POSITIVE,
        -f32::MIN_POSITIVE,
        50.0,
        -50.0,
    ];
    let mut bits: u32 = 1;
    for _ in 0..4000 {
        bits = bits.wrapping_mul(1664525).wrapping_add(1013904223);
        samples.push(f32::from_bits(bits));
    }
    for x in samples {
        let clamped = clamp_percent(x.to_bits());
        if x.is_nan() {
            assert_eq!(clamped, x.to_bits());
        } else {
            assert_eq!(clamped, x.clamp(0.0, 100.0).to_bits(), "{x}");
        }
    }
    assert_eq!(clamp_percent(f32::NAN.to_bits()), f32::NAN.to_bits());
}

#[test]
fn difficulty_settings_follow_their_inputs() {
    let mut sim = simulation();
    let event = form(
        Some(OWNER),
        "sim_attrs",
        vec![
            field("sim_ar", Some("9.3")),
            field("sim_cs", Some("4")),
            field("sim_hp", Some("")),
            field("sim_od", Some("8.5")),
        ],
    );
    assert_eq!(sim.handle_modal(&event), Ok(ModalOutcome::Acknowledge));
    let attrs = sim.data().attrs;
    assert_eq!(attrs.ar, Some(9.3f32.to_bits()));
    assert_eq!(attrs.cs, Some(4.0f32.to_bits()));
    assert_eq!(attrs.hp, None);
    assert_eq!(attrs.od, Some(8.5f32.to_bits()));
    let event = form(
        Some(OWNER),
        "sim_attrs",
        vec![field("sim_ar", Some("fast")), field("sim_cs", None), field("sim_od", Some("7"))],
    );
    assert_eq!(sim.handle_modal(&event), Ok(ModalOutcome::Acknowledge));
    let attrs = sim.data().attrs;
    assert_eq!(attrs.ar, Some(9.3f32.to_bits()));
    assert_eq!(attrs.cs, None);
    assert_eq!(attrs.hp, None);
    assert_eq!(attrs.od, Some(7.0f32.to_bits()));
}

#[test]
fn speed_form_sets_rate_and_bpm() {
    let mut sim = simulation();
    let event = form(
        Some(OWNER),
        "sim_speed_adjustments",
        vec![field("sim_clock_rate", Some("1.1")), field("sim_bpm", Some("222.5"))],
    );
    assert_eq!(sim.handle_modal(&event), Ok(ModalOutcome::Acknowledge));
    assert_eq!(sim.data().clock_rate, Some(1.1f64.to_bits()));
    assert_eq!(sim.data().bpm, Some(222.5f32.to_bits()));
    let event = form(
        Some(OWNER),
        "sim_speed_adjustments",
        vec![field("sim_clock_rate", Some("")), field("sim_bpm", Some("quick"))],
    );
    assert_eq!(sim.handle_modal(&event), Ok(ModalOutcome::Acknowledge));
    assert_eq!(sim.data().clock_rate, None);
    assert_eq!(sim.data().bpm, Some(222.5f32.to_bits()));
}

#[test]
fn parse_attr_finds_the_named_input() {
    let event = ModalEvent {
        user: Some(OWNER),
        custom_id: "sim_attrs".to_owned(),
        rows: vec![
            ModalRow { components: Vec::new() },
            ModalRow { components: vec![field("sim_ar", Some("9")), field("sim_cs", Some("1"))] },
            ModalRow { components: vec![field("sim_cs", Some("4.5"))] },
            ModalRow { components: vec![field("sim_cs", Some("7"))] },
            ModalRow { components: vec![field("sim_hp", Some("x"))] },
            ModalRow { components: vec![field("sim_od", Some(""))] },
        ],
    };
    assert_eq!(parse_attr(&event, "sim_ar").map(|d| d.single), Some(9.0f32.to_bits()));
    assert_eq!(parse_attr(&event, "sim_cs").map(|d| d.double), Some(4.5f64.to_bits()));
    assert_eq!(parse_attr(&event, "sim_hp"), None);
    assert_eq!(parse_attr(&event, "sim_od"), None);
    assert_eq!(parse_attr(&event, "sim_bpm"), None);
    assert_eq!(event.find_field("sim_cs").unwrap().value.as_deref(), Some("4.5"));
}

#[test]
fn mods_form_sets_what_fits_the_mode() {
    let mut sim = simulation();
    let outcome = sim.handle_modal(&single_form(Some(OWNER), "sim_mods", Some("+hdHR!")));
    assert_eq!(outcome, Ok(ModalOutcome::Acknowledge));
    assert_eq!(sim.data().mods.as_ref().unwrap().to_string(), "HDHR");
    assert_eq!(sim.mods_text(&single_form(Some(OWNER), "sim_mods", Some("++hd!!"))), Some("hd"));
    assert_eq!(sim.mods_text(&single_form(Some(OWNER), "sim_acc", Some("hd"))), None);
    assert_eq!(sim.mods_text(&single_form(Some(1), "sim_mods", Some("hd"))), None);
    // Easy and hard rock exclude each other.
    let outcome = sim.handle_modal(&single_form(Some(OWNER), "sim_mods", Some("ezhr")));
    assert_eq!(outcome, Ok(ModalOutcome::Rejected));
    assert_eq!(sim.data().mods.as_ref().unwrap().to_string(), "HDHR");
    // Fade in exists in mania only.
    let outcome = sim.handle_modal(&single_form(Some(OWNER), "sim_mods", Some("fi")));
    assert_eq!(outcome, Ok(ModalOutcome::Rejected));
    let outcome = sim.handle_modal(&single_form(Some(OWNER), "sim_mods", Some("what")));
    assert_eq!(outcome, Ok(ModalOutcome::Rejected));
    assert_eq!(sim.data().mods.as_ref().unwrap().to_string(), "HDHR");
    let outcome = sim.handle_modal(&single_form(Some(OWNER), "sim_mods", Some("")));
    assert_eq!(outcome, Ok(ModalOutcome::Acknowledge));
    assert!(sim.data().mods.is_none());
}

#[test]
fn mods_follow_the_mode_of_the_map() {
    let mut map = Beatmap::default();
    map.mode = rosu_pp::model::mode::GameMode::Mania;
    let mania = SimulateMap::Attached(AttachedSimulateMap { pp_map: map, filename: "m".to_owned() });
    assert_eq!(mania.mode(), GameMode::Mania);
    let mut sim = SimulateComponents::new(mania, data(), OWNER);
    let outcome = sim.handle_modal(&single_form(Some(OWNER), "sim_mods", Some("fi")));
    assert_eq!(outcome, Ok(ModalOutcome::Acknowledge));
    assert_eq!(sim.data().mods.as_ref().unwrap().to_string(), "FI");
    assert_eq!(attached().mode(), GameMode::Osu);
}

#[test]
fn page_is_the_same_when_built_twice() {
    let mut sim = SimulateComponents::new(full(), data(), OWNER);
    let first = sim.build_page(&values()).unwrap();
    let state = snapshot(&sim);
    let second = sim.build_page(&values()).unwrap();
    assert_eq!(format!("{first:?}"), format!("{second:?}"));
    assert_eq!(snapshot(&sim), state);
    assert!(first.defer);
}

#[test]
fn page_of_a_full_map() {
    let mut sim = SimulateComponents::new(full(), data(), OWNER);
    let page = sim.build_page(&values()).unwrap();
    assert_eq!(page.content.as_deref(), Some("Simulated score:"));
    assert_eq!(page.embed.title.as_deref(), Some("Artist - Title [Hard]"));
    assert_eq!(page.embed.url.as_deref(), Some("https://osu.ppy.sh/b/5023039"));
    assert_eq!(
        page.embed.image.as_deref(),
        Some("https://assets.ppy.sh/beatmaps/1/covers/cover.jpg")
    );
    let footer = page.embed.footer.unwrap();
    assert_eq!(footer.text, "Ranked mapset of Mapper • September 2022");
    assert_eq!(footer.icon_url.as_deref(), Some("https://example.com/osu.png"));
    let fields: Vec<(&str, &str, bool)> =
        page.embed.fields.iter().map(|f| (f.name.as_str(), f.value.as_str(), f.inline)).collect();
    assert_eq!(
        fields,
        [
            ("Grade", "S", true),
            ("Acc", "99.5%", true),
            ("Combo", "**12x**/50x", true),
            ("PP", "**100**/200PP", true),
            ("Clock rate", "1.50", true),
            ("Hits", "{10/2/0}", true),
            ("Map Info", "Length: `1:00`", false),
        ]
    );
    assert!(page.embed.author.is_none());
    assert!(page.embed.description.is_none());
    assert!(page.embed.thumbnail.is_none());
}

#[test]
fn page_of_an_attached_mania_map() {
    let mut d = data();
    d.version = 2;
    let mut sim = SimulateComponents::new(attached(), d, OWNER);
    let mut v = values();
    v.score_state = ScoreState::Score("1,000,000".to_owned());
    v.combo_ratio = ComboOrRatio::Ratio("12.5".to_owned());
    v.clock_rate = None;
    let page = sim.build_page(&v).unwrap();
    assert_eq!(page.embed.title.as_deref(), Some("my \"map\".osu [4K]"));
    assert!(page.embed.url.is_none());
    assert!(page.embed.image.is_none());
    let footer = page.embed.footer.unwrap();
    assert_eq!(footer.text, "Mania now");
    assert!(footer.icon_url.is_none());
    let names: Vec<&str> = page.embed.fields.iter().map(|f| f.name.as_str()).collect();
    assert_eq!(names, ["Grade", "Score", "Ratio", "PP", "Map Info"]);
}

#[test]
fn page_of_a_suspicious_map() {
    let mut sim = simulation();
    let mut v = values();
    v.score_state = ScoreState::Neither;
    v.combo_ratio = ComboOrRatio::Neither;
    let page = sim.build_page(&v).unwrap();
    let fields: Vec<(&str, &str, bool)> =
        page.embed.fields.iter().map(|f| (f.name.as_str(), f.value.as_str(), f.inline)).collect();
    assert_eq!(
        fields,
        [
            ("Map too suspicious", "Skipped calculating attributes", false),
            ("Clock rate", "1.50", true),
            ("Map Info", "Length: `1:00`", false),
        ]
    );
}

#[test]
fn page_needs_a_known_version() {
    let mut d = data();
    d.version = 9;
    let mut sim = SimulateComponents::new(attached(), d, OWNER);
    assert!(matches!(sim.build_page(&values()), Err(RenderError::UnknownVersion)));
    assert!(sim.build_components().is_empty());
    assert!(sim.defer());
}

#[test]
fn controls_follow_version_and_client() {
    let mut sim = simulation();
    let ids = |rows: &Vec<ControlRow>| -> Vec<String> {
        rows.iter()
            .flat_map(|row| match row {
                ControlRow::Buttons(buttons) => {
                    buttons.iter().map(|b| b.custom_id.clone()).collect::<Vec<_>>()
                }
                ControlRow::Menu(menu) => vec![menu.custom_id.clone()],
            })
            .collect()
    };
    assert_eq!(ids(&sim.build_components()), ["sim_mods", "sim_stable", "sim_slider_ends"]);
    sim.handle_component(&click(Some(OWNER), "sim_stable"));
    assert_eq!(ids(&sim.build_components()), ["sim_mods", "sim_lazer"]);
}

#[test]
fn map_counts_its_objects() {
    let text = "osu file format v14\n\n[General]\nMode: 0\n\n[Difficulty]\nHPDrainRate:5\nCircleSize:4\nOverallDifficulty:5\nApproachRate:5\nSliderMultiplier:1.4\nSliderTickRate:1\n\n[TimingPoints]\n0,500,4,2,0,100,1,0\n\n[HitObjects]\n100,100,1000,1,0,0:0:0:0:\n200,100,1500,1,0,0:0:0:0:\n300,100,2000,1,0,0:0:0:0:\n";
    let map = Beatmap::from_bytes(text.as_bytes()).unwrap();
    assert_eq!(map.hit_objects.len(), 3);
    let mut sim_map = SimulateMap::Attached(AttachedSimulateMap { pp_map: map, filename: "f".to_owned() });
    assert_eq!(sim_map.n_objects(), 3);
    assert_eq!(attached().n_objects(), 0);
    assert_eq!(sim_map.pp_map().hit_objects.len(), 3);
    sim_map.pp_map_mut().ar = 9.0;
    assert_eq!(sim_map.pp_map().ar, 9.0);
    assert_eq!(sim_map.fmt(), "\"f\"");
    assert_eq!(full().fmt(), "5023039");
    assert_eq!(attached().fmt(), format!("{:?}", "my \"map\".osu"));
}

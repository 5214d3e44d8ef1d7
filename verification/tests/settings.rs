use spellwheel::debugging::{
    add_to_screen_debug, commit_screen_debug, read_committed_screen_debug, RunEveryRegistry,
    ScreenDebug, RUN_ONCE_NANOS, SECOND_NANOS,
};
use spellwheel::settings::{
    await_xinput_hook, debugging, is_debugging, item_names, modded_spells, quick_items_button,
    quick_items_key, spells_button, spells_key, switch_instantly, text_shadows, using_controller,
    ItemNames, Settings, SettingsFile,
};

fn empty_file() -> SettingsFile {
    SettingsFile {
        spells_key: None,
        quick_items_key: None,
        spells_button: None,
        quick_items_button: None,
        using_controller: None,
        controller_wheel_open_delay: None,
        switch_instantly: None,
        item_names: None,
        text_shadows: None,
        font_scale_multiplier: None,
        icon_scale_multiplier: None,
        radius_multiplier: None,
        min_radius: None,
        modded_spells: None,
        await_xinput_hook: None,
        debugging: None,
        timing_offset: None,
    }
}

#[test]
fn defaults_are_the_documented_ones() {
    assert_eq!(spells_key(), "TAB");
    assert_eq!(quick_items_key(), "CAPITAL");
    assert_eq!(spells_button(), "UP");
    assert_eq!(quick_items_button(), "DOWN");
    assert!(!using_controller());
    assert!(switch_instantly());
    assert_eq!(item_names(), "show");
    assert!(text_shadows());
    assert!(!debugging());
    assert!(modded_spells().is_empty());
    assert!(!await_xinput_hook());
    let d = Settings::new_default();
    assert_eq!(f32::from_bits(d.controller_wheel_open_delay), 0.5);
    assert_eq!(f32::from_bits(d.font_scale_multiplier), 1.0);
    assert_eq!(f32::from_bits(d.icon_scale_multiplier), 0.15);
    assert_eq!(f32::from_bits(d.radius_multiplier), 0.3);
    assert_eq!(f32::from_bits(d.min_radius), 0.3);
    assert_eq!(f32::from_bits(d.timing_offset), 0.0);
}

#[test]
fn missing_keys_keep_their_defaults() {
    let mut f = empty_file();
    f.spells_key = Some("F1".to_string());
    f.using_controller = Some(true);
    f.modded_spells = Some(vec!["a.json".to_string()]);
    let s = f.into_settings();
    assert_eq!(s.spells_key, "F1");
    assert!(s.using_controller);
    assert_eq!(s.modded_spells, vec!["a.json".to_string()]);
    assert_eq!(s.quick_items_key, "CAPITAL");
    assert_eq!(s.item_names, "show");
    assert!(s.switch_instantly);
}

#[test]
fn item_names_ignore_letter_case() {
    assert_eq!(ItemNames::from_name("show"), ItemNames::Show);
    assert_eq!(ItemNames::from_name("CENTER"), ItemNames::Center);
    assert_eq!(ItemNames::from_name("HiDe"), ItemNames::Hide);
    assert_eq!(ItemNames::from_name("hidden"), ItemNames::Show);
    assert_eq!(ItemNames::from_name(""), ItemNames::Show);
    let mut s = Settings::new_default();
    s.item_names = "Center".to_string();
    assert_eq!(s.item_names(), ItemNames::Center);
}

#[test]
fn settings_reload_at_most_once_a_second() {
    let mut registry = RunEveryRegistry::new();
    let mut cache = Settings::new_default();
    let mut loaded = Settings::new_default();
    loaded.debugging = true;
    let first = Settings::read_or_default(&mut registry, &mut cache, 10, || Some(loaded.duplicate()));
    assert!(first.debugging);
    assert!(cache.debugging);
    // Within the second the file is not read again.
    let again = Settings::read_or_default(&mut registry, &mut cache, 10 + SECOND_NANOS as u64 - 1, || {
        panic!("read too early")
    });
    assert!(again.debugging);
    // A second later it is; an unreadable file gives the defaults.
    let later = Settings::read_or_default(&mut registry, &mut cache, 10 + SECOND_NANOS as u64, || None);
    assert!(!later.debugging);
    assert_eq!(later.spells_key, "TAB");
    assert!(!cache.debugging);
}

#[test]
fn is_debugging_reads_the_current_settings() {
    let mut registry = RunEveryRegistry::new();
    let mut cache = Settings::new_default();
    let mut on = Settings::new_default();
    on.debugging = true;
    assert!(is_debugging(&mut registry, &mut cache, 5, || Some(on.duplicate())));
    assert!(is_debugging(&mut registry, &mut cache, 6, || None));
    assert!(!is_debugging(&mut registry, &mut cache, 5 + SECOND_NANOS as u64, || None));
}

#[test]
fn code_runs_again_once_its_period_passed() {
    let mut r = RunEveryRegistry::new();
    assert!(r.can_run("tick", 100, 1000));
    assert!(!r.can_run("tick", 100, 1000));
    assert!(!r.can_run("tick", 100, 1099));
    assert!(r.can_run("tick", 100, 1100));
    assert!(!r.can_run("tick", 5, 1150));
    assert!(r.can_run("other", 5, 1150));
    // An instant before the last start counts as no time passed.
    assert!(!r.can_run("tick", 100, 0));
}

#[test]
fn run_once_code_runs_once() {
    let mut r = RunEveryRegistry::new();
    assert!(r.can_run("once", RUN_ONCE_NANOS, 0));
    assert!(!r.can_run("once", RUN_ONCE_NANOS, u64::MAX));
}

#[test]
fn screen_debug_shows_the_last_committed_frame() {
    let mut d = ScreenDebug::new();
    add_to_screen_debug(&mut d, "a".to_string());
    add_to_screen_debug(&mut d, "b".to_string());
    assert!(read_committed_screen_debug(&mut d).is_empty());
    commit_screen_debug(&mut d);
    add_to_screen_debug(&mut d, "c".to_string());
    assert_eq!(read_committed_screen_debug(&mut d), vec!["a".to_string(), "b".to_string()]);
    assert!(read_committed_screen_debug(&mut d).is_empty());
    commit_screen_debug(&mut d);
    assert_eq!(read_committed_screen_debug(&mut d), vec!["c".to_string()]);
}

#[test]
fn default_trait_gives_the_defaults() {
    let d = Settings::default();
    assert_eq!(d.spells_key, "TAB");
    assert_eq!(d.item_names(), ItemNames::Show);
    assert!(!d.debugging);
}

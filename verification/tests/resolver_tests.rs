use nyalog::resolver::extract_hyprland_keymap;
use nyalog::resolver::extract_sway_keymap;
use nyalog::resolver::parse_layout_override;
use nyalog::resolver::parse_localectl;
use nyalog::resolver::parse_uid;
use nyalog::resolver::parse_xkb_query;
use nyalog::resolver::resolve_layout;

#[test]
fn override_region_only() {
    let r = resolve_layout(&Some("de".to_string()), &Vec::new(), &None, &None, &None);
    assert_eq!(r.region, "de");
    assert_eq!(r.variant, "");
}

#[test]
fn override_region_and_variant() {
    let r = resolve_layout(&Some("fr:azerty".to_string()), &Vec::new(), &None, &None, &None);
    assert_eq!(r.region, "fr");
    assert_eq!(r.variant, "azerty");
}

#[test]
fn override_bypasses_every_command() {
    let hypr = vec!["\"active_keymap\": \"German\",".to_string()];
    let sway = Some("\"xkb_active_layout_name\": \"French\",".to_string());
    let r = resolve_layout(&Some("de".to_string()), &hypr, &sway, &None, &None);
    assert_eq!(r.region, "de");
    assert_eq!(r.variant, "");
}

#[test]
fn fallback_is_us_default() {
    let r = resolve_layout(&None, &Vec::new(), &None, &None, &None);
    assert_eq!(r.region, "us");
    assert_eq!(r.variant, "");
}

#[test]
fn hyprland_extraction() {
    let out = "{\n\"keyboards\": [\n{\n\"name\": \"kbd\",\n\"active_keymap\": \"English (US)\",\n}\n]\n}\n";
    let id = extract_hyprland_keymap(out).unwrap();
    assert_eq!(id.region, "us");
    assert_eq!(id.variant, "");
}

#[test]
fn hyprland_extraction_swiss() {
    let out = "  \"active_keymap\": \"Swiss French\",\n";
    let id = extract_hyprland_keymap(out).unwrap();
    assert_eq!(id.region, "ch");
    assert_eq!(id.variant, "fr");
}

#[test]
fn hyprland_unknown_keymap_is_none() {
    assert!(extract_hyprland_keymap("\"active_keymap\": \"Dvorak\",\n").is_none());
    assert!(extract_hyprland_keymap("no keymap line here\n").is_none());
}

#[test]
fn sway_extraction() {
    let out = "  \"xkb_active_layout_name\": \"German\",\n";
    let id = extract_sway_keymap(out).unwrap();
    assert_eq!(id.region, "de");
    assert_eq!(id.variant, "");
}

#[test]
fn first_hyprland_output_with_keymap_wins() {
    let hypr = vec![
        "nothing useful".to_string(),
        "\"active_keymap\": \"German\",".to_string(),
        "\"active_keymap\": \"French\",".to_string(),
    ];
    let r = resolve_layout(&None, &hypr, &None, &None, &None);
    assert_eq!(r.region, "de");
}

#[test]
fn hyprland_beats_sway() {
    let hypr = vec!["\"active_keymap\": \"German\",".to_string()];
    let sway = Some("\"xkb_active_layout_name\": \"French\",".to_string());
    let r = resolve_layout(&None, &hypr, &sway, &None, &None);
    assert_eq!(r.region, "de");
}

#[test]
fn xkb_query_fields() {
    let out = "rules:      evdev\nmodel:      pc105\nlayout:     ch\nvariant:    fr\noptions:    terminate:ctrl_alt_bksp\n";
    let id = parse_xkb_query(out).unwrap();
    assert_eq!(id.region, "ch");
    assert_eq!(id.variant, "fr");
}

#[test]
fn xkb_query_defaults_when_fields_missing() {
    let id = parse_xkb_query("rules:      evdev\n").unwrap();
    assert_eq!(id.region, "us");
    assert_eq!(id.variant, "");
}

#[test]
fn xkb_query_rejects_compat_shim() {
    assert!(parse_xkb_query("layout:     de\nmodel: Xwayland keyboard\n").is_none());
    let r = resolve_layout(
        &None,
        &Vec::new(),
        &None,
        &Some("layout: de\nXwayland\n".to_string()),
        &Some("VC Keymap: fr\n".to_string()),
    );
    assert_eq!(r.region, "fr");
    assert_eq!(r.variant, "");
}

#[test]
fn localectl_keymap() {
    let out = "   System Locale: LANG=en_US.UTF-8\n       VC Keymap: de\n      X11 Layout: de\n";
    let id = parse_localectl(out).unwrap();
    assert_eq!(id.region, "de");
    assert_eq!(id.variant, "");
}

#[test]
fn localectl_unset_is_rejected() {
    assert!(parse_localectl("       VC Keymap: (unset)\n").is_none());
    let r = resolve_layout(
        &None,
        &Vec::new(),
        &None,
        &None,
        &Some("VC Keymap: (unset)\n".to_string()),
    );
    assert_eq!(r.region, "us");
    assert_eq!(r.variant, "");
}

#[test]
fn override_parsing_details() {
    let id = parse_layout_override("de:ch:x");
    assert_eq!(id.region, "de");
    assert_eq!(id.variant, "ch");
    let id = parse_layout_override("us");
    assert_eq!(id.region, "us");
    assert_eq!(id.variant, "");
}

#[test]
fn uid_parsing() {
    assert_eq!(parse_uid("1000\n"), Some(1000));
    assert_eq!(parse_uid("  42  "), Some(42));
    assert_eq!(parse_uid("+7"), Some(7));
    assert_eq!(parse_uid("4294967295"), Some(u32::MAX));
    assert_eq!(parse_uid("4294967296"), None);
    assert_eq!(parse_uid("99999999999999999999"), None);
    assert_eq!(parse_uid(""), None);
    assert_eq!(parse_uid("12a"), None);
    assert_eq!(parse_uid("-5"), None);
    assert_eq!(parse_uid("+"), None);
    assert_eq!(parse_uid("0001"), Some(1));
}

use nyalog::mapper::keymap_name_to_code;

#[test]
fn swiss_french_is_ch_fr() {
    let id = keymap_name_to_code("Swiss French").unwrap();
    assert_eq!(id.region, "ch");
    assert_eq!(id.variant, "fr");
}

#[test]
fn swiss_french_any_case_and_order() {
    let id = keymap_name_to_code("SWISS FRENCH (QWERTZ)").unwrap();
    assert_eq!(id.region, "ch");
    assert_eq!(id.variant, "fr");
    let id = keymap_name_to_code("French (Swiss)").unwrap();
    assert_eq!(id.region, "ch");
    assert_eq!(id.variant, "fr");
}

#[test]
fn swiss_alone_is_ch_de() {
    let id = keymap_name_to_code("Swiss German").unwrap();
    assert_eq!(id.region, "ch");
    assert_eq!(id.variant, "de");
    let id = keymap_name_to_code("swiss").unwrap();
    assert_eq!(id.region, "ch");
    assert_eq!(id.variant, "de");
}

#[test]
fn switzerland_counts_as_swiss() {
    let id = keymap_name_to_code("German (Switzerland)").unwrap();
    assert_eq!(id.region, "ch");
    assert_eq!(id.variant, "de");
}

#[test]
fn plain_languages() {
    let id = keymap_name_to_code("German").unwrap();
    assert_eq!(id.region, "de");
    assert_eq!(id.variant, "");
    let id = keymap_name_to_code("French (AZERTY)").unwrap();
    assert_eq!(id.region, "fr");
    assert_eq!(id.variant, "");
    let id = keymap_name_to_code("Italian").unwrap();
    assert_eq!(id.region, "it");
    let id = keymap_name_to_code("Spanish").unwrap();
    assert_eq!(id.region, "es");
    let id = keymap_name_to_code("Portuguese").unwrap();
    assert_eq!(id.region, "pt");
}

#[test]
fn uk_and_us_hints() {
    let id = keymap_name_to_code("English (UK)").unwrap();
    assert_eq!(id.region, "gb");
    let id = keymap_name_to_code("British English").unwrap();
    assert_eq!(id.region, "gb");
    let id = keymap_name_to_code("English (US)").unwrap();
    assert_eq!(id.region, "us");
    assert_eq!(id.variant, "");
    let id = keymap_name_to_code("english").unwrap();
    assert_eq!(id.region, "us");
}

#[test]
fn unmatched_name_is_none() {
    assert!(keymap_name_to_code("qwerty").is_none());
    assert!(keymap_name_to_code("").is_none());
    assert!(keymap_name_to_code("Dvorak").is_none());
}

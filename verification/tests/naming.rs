use slygen::names::{base_name, has_api_marker, is_snake_ident, strip_api_suffix, to_pascal,
    to_upper_char};

#[test]
fn pascal_of_simple_identifier() {
    assert_eq!(to_pascal("pet"), "Pet");
}

#[test]
fn pascal_of_two_segments() {
    assert_eq!(to_pascal("add_pet"), "AddPet");
}

#[test]
fn pascal_of_three_segments() {
    assert_eq!(to_pascal("get_pet_by_id"), "GetPetById");
}

#[test]
fn pascal_keeps_digits() {
    assert_eq!(to_pascal("pet2_store"), "Pet2Store");
}

#[test]
fn pascal_starts_a_segment_after_a_digit() {
    assert_eq!(to_pascal("v2beta"), "V2Beta");
    assert_eq!(to_pascal("v22beta"), "V22Beta");
    assert_eq!(to_pascal("api_v2_beta1"), "ApiV2Beta1");
}

#[test]
fn pascal_of_empty_is_empty() {
    assert_eq!(to_pascal(""), "");
}

#[test]
fn pascal_drops_every_underscore() {
    assert_eq!(to_pascal("x_y_z"), "XYZ");
}

#[test]
fn pascal_is_deterministic() {
    assert_eq!(to_pascal("place_order"), to_pascal("place_order"));
    assert_eq!(to_pascal("place_order"), "PlaceOrder");
}

#[test]
fn upper_char_maps_letters_only() {
    assert_eq!(to_upper_char('a'), 'A');
    assert_eq!(to_upper_char('z'), 'Z');
    assert_eq!(to_upper_char('3'), '3');
    assert_eq!(to_upper_char('_'), '_');
    assert_eq!(to_upper_char('A'), 'A');
}

#[test]
fn marker_detected_at_end_only() {
    assert!(has_api_marker("pet_api"));
    assert!(has_api_marker("_api"));
    assert!(!has_api_marker("pet"));
    assert!(!has_api_marker("api"));
    assert!(!has_api_marker("pet_api_x"));
}

#[test]
fn strip_removes_marker_exactly_when_present() {
    assert_eq!(strip_api_suffix("pet_api"), Some(String::from("pet")));
    assert_eq!(strip_api_suffix("store_api"), Some(String::from("store")));
    assert_eq!(strip_api_suffix("_api"), Some(String::from("")));
    assert_eq!(strip_api_suffix("pet"), None);
}

#[test]
fn snake_identifiers_are_recognized() {
    assert!(is_snake_ident("add_pet"));
    assert!(is_snake_ident("_private"));
    assert!(is_snake_ident("v2beta"));
    assert!(!is_snake_ident(""));
    assert!(!is_snake_ident("2fast"));
    assert!(!is_snake_ident("AddPet"));
    assert!(!is_snake_ident("add pet"));
    assert!(!is_snake_ident("add-pet"));
}

#[test]
fn base_name_shares_value_across_marker() {
    assert_eq!(base_name("pet_api"), "pet");
    assert_eq!(base_name("pet"), "pet");
}

use teikyou_mock::body_type::get_body_type;
use teikyou_mock::body_type::get_random_body_type;
use teikyou_mock::body_type::resolve;
use teikyou_mock::shape_code::read_shape_codes;
use teikyou_mock::shape_code::ShapeCode;

fn entry(code: u32, body_type: &str) -> ShapeCode {
    ShapeCode {
        classification: None,
        purpose: None,
        code,
        body_type: body_type.to_string(),
        remarks: None,
    }
}

#[test]
fn test_resolve_exact_prefix() {
    let bt = get_body_type("12-34567890".to_string());
    assert_eq!(bt.cd, 12);
    assert_eq!(bt.name, "幌型");
}

#[test]
fn test_resolve_prefix_before_hyphen_only() {
    let bt = get_body_type("21-11".to_string());
    assert_eq!(bt.cd, 21);
    assert_eq!(bt.name, "バン");
}

#[test]
fn test_resolve_one_character_prefix() {
    let codes = read_shape_codes();
    let bt = resolve("1-xyz", &codes);
    assert_eq!(bt.cd, 11);
}

#[test]
fn test_resolve_first_match_wins() {
    let codes = vec![entry(31, "one"), entry(12, "two"), entry(12, "three")];
    let bt = resolve("12-0000", &codes);
    assert_eq!(bt.cd, 12);
    assert_eq!(bt.name, "two");
}

#[test]
fn test_resolve_total_on_degenerate_input() {
    let codes = read_shape_codes();
    for input in ["", "zz-123", "-123", "00-x", "ほげ-1", "9"] {
        let bt = resolve(input, &codes);
        assert!(
            codes.iter().any(|e| e.code == bt.cd && e.body_type == bt.name),
            "no catalog entry for input {:?}",
            input
        );
    }
}

#[test]
fn test_random_body_type_is_catalog_entry() {
    let codes = read_shape_codes();
    for _ in 0..16 {
        let bt = get_random_body_type();
        assert!(codes.iter().any(|e| e.code == bt.cd && e.body_type == bt.name));
    }
}

#[test]
fn test_read_shape_codes_contents() {
    let codes = read_shape_codes();
    assert_eq!(codes.len(), 10);
    assert_eq!(codes[0].code, 11);
    assert_eq!(codes[0].body_type, "箱型");
    assert_eq!(codes[1].code, 12);
    assert!(codes.iter().all(|e| (10..=99).contains(&e.code)));
}

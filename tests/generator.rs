use txt_verify::txt_generator::{
    generate_ksuid, generate_txt_record_from_config, is_blank_text, verification_attribute,
    TxtRecordGenerator,
};

fn config(domain: &str, attribute: &str, value: &str) -> TxtRecordGenerator {
    TxtRecordGenerator::new(domain.to_string(), attribute.to_string(), value.to_string())
}

#[test]
fn validate_accepts_filled_config() {
    assert_eq!(config("example.com", "attr", "v").validate(), Ok(()));
}

#[test]
fn validate_names_blank_domain_first() {
    assert_eq!(config("  ", "", "").validate(), Err("Domain is empty".to_string()));
}

#[test]
fn validate_names_blank_attribute() {
    assert_eq!(config("a.com", "\t", "").validate(), Err("Record attribute is empty".to_string()));
}

#[test]
fn validate_names_blank_value() {
    assert_eq!(
        config("a.com", "attr", " \u{3000} ").validate(),
        Err("Record attribute value is empty".to_string())
    );
}

#[test]
fn blank_text_is_whitespace_only() {
    assert!(is_blank_text(""));
    assert!(is_blank_text(" \t\n\u{a0}"));
    assert!(!is_blank_text(" a "));
}

#[test]
fn attribute_replaces_dots() {
    assert_eq!(verification_attribute("example.com"), "example_com_verification");
    assert_eq!(verification_attribute("a.b.c"), "a_b_c_verification");
    assert_eq!(verification_attribute("localhost"), "localhost_verification");
}

#[test]
fn record_from_config() {
    let mut c = config("example.com", "example_com_verification", "T1");
    let ins = generate_txt_record_from_config(&mut c).unwrap();
    assert_eq!(ins.domain, "example.com");
    assert_eq!(ins.record, "example_com_verification=T1");
    assert_eq!(
        ins.action,
        "Create a TXT record for the domain example.com with the content example_com_verification=T1"
    );
    assert_eq!(c.record_attribute_value, "T1");
}

#[test]
fn record_from_invalid_config_fails() {
    let mut c = config("example.com", "attr", "   ");
    assert_eq!(
        generate_txt_record_from_config(&mut c).err(),
        Some("Record attribute value is empty".to_string())
    );
}

#[test]
fn ksuid_token_shape() {
    let a = generate_ksuid();
    let b = generate_ksuid();
    assert_eq!(a.chars().count(), 27);
    assert!(a.chars().all(|c| c.is_ascii_alphanumeric()));
    assert_ne!(a, b);
}

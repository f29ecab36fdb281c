use indexer::genesis::{parse_optional_option, parse_required_option, FieldError, GenerateGenesis};

fn parse_u64(s: &str) -> Result<u64, String> {
    s.parse::<u64>().map_err(|e| e.to_string())
}

#[test]
fn required_field_is_parsed() {
    let r = parse_required_option(&Some("100".to_string()), "owner.yaml", "stake_amount", parse_u64);
    assert_eq!(r.unwrap(), 100);
}

#[test]
fn required_field_missing() {
    match parse_required_option(&None, "owner.yaml", "stake_amount", parse_u64) {
        Err(FieldError::Missing { file, field_name }) => {
            assert_eq!(file, "owner.yaml");
            assert_eq!(field_name, "stake_amount");
        }
        _ => panic!("expected a missing field"),
    }
}

#[test]
fn required_field_invalid() {
    match parse_required_option(&Some("ten".to_string()), "owner.yaml", "stake_amount", parse_u64) {
        Err(FieldError::Invalid { file, field_name, err }) => {
            assert_eq!(file, "owner.yaml");
            assert_eq!(field_name, "stake_amount");
            assert!(!err.is_empty());
        }
        _ => panic!("expected an invalid field"),
    }
}

#[test]
fn optional_field_cases() {
    assert_eq!(parse_optional_option(&None, "owner.yaml", "commission_percentage", parse_u64).unwrap(), None);
    let r = parse_optional_option(&Some("7".to_string()), "owner.yaml", "commission_percentage", parse_u64);
    assert_eq!(r.unwrap(), Some(7));
    let r = parse_optional_option(&Some("x".to_string()), "owner.yaml", "commission_percentage", parse_u64);
    assert!(matches!(r, Err(FieldError::Invalid { .. })));
}

#[test]
fn generate_genesis_command_name() {
    let g = GenerateGenesis { output_dir: None, mainnet: false };
    assert_eq!(g.command_name(), "GenerateGenesis");
}

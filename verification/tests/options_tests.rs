//! Tests of the output mode parser and the multisig settings rule.

use anker::options::{validate_multisig_settings, MultisigSettingsError, OutputMode};

#[test]
fn test_output_mode_from_str() {
    assert_eq!(OutputMode::from_str("text").unwrap(), OutputMode::Text);
    assert_eq!(OutputMode::from_str("json").unwrap(), OutputMode::Json);
    assert!(OutputMode::from_str("").is_err());
    assert!(OutputMode::from_str("Text").is_err());
    assert!(OutputMode::from_str("xml").is_err());
    assert!(OutputMode::from_str("jsonx").is_err());
}

#[test]
fn test_validate_multisig_settings() {
    assert!(validate_multisig_settings(1, 1).is_ok());
    assert!(validate_multisig_settings(3, 5).is_ok());
    assert!(validate_multisig_settings(5, 5).is_ok());
    assert!(matches!(
        validate_multisig_settings(6, 5),
        Err(MultisigSettingsError::ThresholdTooLarge)
    ));
    assert!(matches!(
        validate_multisig_settings(0, 5),
        Err(MultisigSettingsError::ThresholdZero)
    ));
    assert!(matches!(
        validate_multisig_settings(0, 0),
        Err(MultisigSettingsError::ThresholdZero)
    ));
}

use xor_cipher::error::ErrorKind;
use xor_cipher::mode::Mode;

#[test]
fn from_str_reads_both_modes() {
    assert_eq!(Mode::from_str("encryption"), Ok(Mode::Encrypt));
    assert_eq!(Mode::from_str("decryption"), Ok(Mode::Decrypt));
}

#[test]
fn from_str_ignores_the_case_of_letters() {
    assert_eq!(Mode::from_str("ENCRYPTION"), Ok(Mode::Encrypt));
    assert_eq!(Mode::from_str("Encryption"), Ok(Mode::Encrypt));
    assert_eq!(Mode::from_str("dEcRyPtIoN"), Ok(Mode::Decrypt));
    assert_eq!(Mode::from_str("DECRYPTION"), Ok(Mode::Decrypt));
}

#[test]
fn from_str_refuses_other_words() {
    for word in ["", "encrypt", "decrypt", "encryption ", " encryption", "e", "both", "-e"] {
        let error = Mode::from_str(word).unwrap_err();
        assert_eq!(error.kind, ErrorKind::InvalidArguments);
        assert_eq!(error.message, "invalid mode, must be 'encrypt' or 'decrypt'");
    }
}

#[test]
fn from_lowercase_compares_letter_for_letter() {
    assert_eq!(Mode::from_lowercase("encryption"), Some(Mode::Encrypt));
    assert_eq!(Mode::from_lowercase("decryption"), Some(Mode::Decrypt));
    assert_eq!(Mode::from_lowercase("Encryption"), None);
    assert_eq!(Mode::from_lowercase("DECRYPTION"), None);
    assert_eq!(Mode::from_lowercase("encryptio"), None);
    assert_eq!(Mode::from_lowercase("encryptions"), None);
    assert_eq!(Mode::from_lowercase(""), None);
}

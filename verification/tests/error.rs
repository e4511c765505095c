use xor_cipher::error::{
    CipherError, ErrorKind, EXIT_EMPTY_INPUT, EXIT_INVALID_ARGUMENTS, EXIT_READ_FAILURE,
    EXIT_SUCCESS, EXIT_WRITE_FAILURE,
};

#[test]
fn each_kind_has_its_exit_code() {
    assert_eq!(ErrorKind::InvalidArguments.exit_code(), 1);
    assert_eq!(ErrorKind::FileNotFound.exit_code(), 1);
    assert_eq!(ErrorKind::IoReadFailure.exit_code(), 2);
    assert_eq!(ErrorKind::IoWriteFailure.exit_code(), 3);
    assert_eq!(ErrorKind::EmptyInput.exit_code(), 4);
}

#[test]
fn exit_codes_are_distinct_by_category() {
    let codes = [
        EXIT_SUCCESS,
        EXIT_INVALID_ARGUMENTS,
        EXIT_READ_FAILURE,
        EXIT_WRITE_FAILURE,
        EXIT_EMPTY_INPUT,
    ];
    for (i, first) in codes.iter().enumerate() {
        for (j, second) in codes.iter().enumerate() {
            assert_eq!(first == second, i == j);
        }
    }
    assert_eq!(EXIT_SUCCESS, 0);
}

#[test]
fn no_failure_exits_with_success() {
    for kind in [
        ErrorKind::InvalidArguments,
        ErrorKind::FileNotFound,
        ErrorKind::IoReadFailure,
        ErrorKind::EmptyInput,
        ErrorKind::IoWriteFailure,
    ] {
        assert_ne!(kind.exit_code(), EXIT_SUCCESS);
    }
}

#[test]
fn new_keeps_kind_and_message() {
    let error = CipherError::new(ErrorKind::EmptyInput, "input file is empty.");
    assert_eq!(error.kind(), ErrorKind::EmptyInput);
    assert_eq!(error.message(), "input file is empty.");
    assert_eq!(error.exit_code(), EXIT_EMPTY_INPUT);
}

#[test]
fn with_detail_appends_the_detail() {
    let error = CipherError::with_detail(
        ErrorKind::IoReadFailure,
        "error while read from file: ",
        "permission denied",
    );
    assert_eq!(error.kind, ErrorKind::IoReadFailure);
    assert_eq!(error.message, "error while read from file: permission denied");
    assert_eq!(error.exit_code(), EXIT_READ_FAILURE);
}

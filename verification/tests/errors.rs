use filecoin_proofs::api::errors::err_code_and_msg;
use filecoin_proofs::api::errors::Failure;
use filecoin_proofs::api::errors::SectorBuilderErr;
use filecoin_proofs::api::errors::SectorManagerErr;
use filecoin_proofs::api::status::FFIResponseStatus;

fn builder_failure(err: SectorBuilderErr, rendering: &str) -> Failure {
    Failure { sector_builder: Some(err), sector_manager: None, rendering: rendering.to_string() }
}

fn manager_failure(err: SectorManagerErr, rendering: &str) -> Failure {
    Failure { sector_builder: None, sector_manager: Some(err), rendering: rendering.to_string() }
}

fn foreign_failure(rendering: &str) -> Failure {
    Failure { sector_builder: None, sector_manager: None, rendering: rendering.to_string() }
}

#[test]
fn overflow_is_the_callers_error() {
    let failure = builder_failure(
        SectorBuilderErr::OverflowError,
        "number of bytes in piece (2048) exceeds maximum (1016)",
    );
    let (code, msg) = err_code_and_msg(&failure);
    assert_eq!(code, FFIResponseStatus::CallerError);
    assert!(!msg.as_bytes().is_empty());
    assert_eq!(msg.as_bytes(), b"number of bytes in piece (2048) exceeds maximum (1016)");
}

#[test]
fn incomplete_write_is_the_receivers_error() {
    let failure = builder_failure(
        SectorBuilderErr::IncompleteWriteError,
        "number of bytes written (10) does not match bytes in piece (20)",
    );
    let (code, msg) = err_code_and_msg(&failure);
    assert_eq!(code, FFIResponseStatus::ReceiverError);
    assert_eq!(
        msg.as_bytes_with_nul(),
        b"number of bytes written (10) does not match bytes in piece (20)\0"
    );
}

#[test]
fn invalid_internal_state_is_the_receivers_error() {
    let failure = builder_failure(SectorBuilderErr::InvalidInternalStateError, "state lost");
    let (code, msg) = err_code_and_msg(&failure);
    assert_eq!(code, FFIResponseStatus::ReceiverError);
    assert_eq!(msg.as_bytes(), b"state lost");
}

#[test]
fn sector_manager_failures_keep_their_tag() {
    let unclassified = manager_failure(SectorManagerErr::UnclassifiedError, "unclassified: x");
    let caller = manager_failure(SectorManagerErr::CallerError, "caller: x");
    let receiver = manager_failure(SectorManagerErr::ReceiverError, "receiver: x");
    assert_eq!(err_code_and_msg(&unclassified).0, FFIResponseStatus::UnclassifiedError);
    assert_eq!(err_code_and_msg(&caller).0, FFIResponseStatus::CallerError);
    assert_eq!(err_code_and_msg(&receiver).0, FFIResponseStatus::ReceiverError);
    assert_eq!(err_code_and_msg(&caller).1.as_bytes(), b"caller: x");
}

#[test]
fn failure_from_an_unknown_domain_is_unclassified() {
    let failure = foreign_failure("connection reset by peer");
    let (code, msg) = err_code_and_msg(&failure);
    assert_eq!(code, FFIResponseStatus::UnclassifiedError);
    assert_eq!(msg.as_bytes(), b"connection reset by peer");
}

#[test]
fn sector_builder_rule_is_asked_first() {
    let failure = Failure {
        sector_builder: Some(SectorBuilderErr::OverflowError),
        sector_manager: Some(SectorManagerErr::ReceiverError),
        rendering: "both".to_string(),
    };
    assert_eq!(failure.status(), FFIResponseStatus::CallerError);
    let failure = Failure {
        sector_builder: Some(SectorBuilderErr::IncompleteWriteError),
        sector_manager: Some(SectorManagerErr::CallerError),
        rendering: "both".to_string(),
    };
    assert_eq!(failure.status(), FFIResponseStatus::ReceiverError);
}

#[test]
fn no_failure_classifies_as_success() {
    let builder = [
        SectorBuilderErr::OverflowError,
        SectorBuilderErr::IncompleteWriteError,
        SectorBuilderErr::InvalidInternalStateError,
    ];
    let manager = [
        SectorManagerErr::UnclassifiedError,
        SectorManagerErr::CallerError,
        SectorManagerErr::ReceiverError,
    ];
    for err in builder.iter() {
        assert_ne!(builder_failure(*err, "x").status(), FFIResponseStatus::NoError);
    }
    for err in manager.iter() {
        assert_ne!(manager_failure(*err, "x").status(), FFIResponseStatus::NoError);
    }
    assert_ne!(foreign_failure("x").status(), FFIResponseStatus::NoError);
}

#[test]
fn classifying_twice_gives_the_same_answer() {
    let failure = builder_failure(SectorBuilderErr::OverflowError, "too large");
    let (first_code, first_msg) = err_code_and_msg(&failure);
    let (second_code, second_msg) = err_code_and_msg(&failure);
    assert_eq!(first_code, second_code);
    assert_eq!(first_msg, second_msg);
    assert_eq!(first_msg.as_bytes_with_nul(), second_msg.as_bytes_with_nul());
}

#[test]
fn status_matches_the_status_of_err_code_and_msg() {
    let failure = manager_failure(SectorManagerErr::CallerError, "bad argument");
    assert_eq!(failure.status(), err_code_and_msg(&failure).0);
}

#[test]
fn empty_rendering_gives_an_empty_terminated_message() {
    let failure = foreign_failure("");
    let (code, msg) = err_code_and_msg(&failure);
    assert_eq!(code, FFIResponseStatus::UnclassifiedError);
    assert_eq!(msg.as_bytes_with_nul(), &[0u8]);
}

#[test]
fn rendering_with_a_zero_byte_is_not_expressible() {
    assert!(foreign_failure("fine").is_expressible());
    assert!(foreign_failure("").is_expressible());
    assert!(!foreign_failure("cut\0here").is_expressible());
    assert!(!builder_failure(SectorBuilderErr::OverflowError, "\0").is_expressible());
}

#[test]
fn rendering_with_a_zero_byte_in_the_middle_is_reported_up_to_it() {
    let failure = builder_failure(SectorBuilderErr::OverflowError, "piece\0too large");
    let (code, msg) = err_code_and_msg(&failure);
    assert_eq!(code, FFIResponseStatus::CallerError);
    assert_eq!(msg.as_bytes(), b"piece");
    assert_eq!(msg.as_bytes_with_nul(), b"piece\0");
}

#[test]
fn rendering_with_a_zero_byte_at_the_front_is_reported_as_empty() {
    let failure = manager_failure(SectorManagerErr::ReceiverError, "\0disk gone");
    let (code, msg) = err_code_and_msg(&failure);
    assert_eq!(code, FFIResponseStatus::ReceiverError);
    assert_eq!(msg.as_bytes(), b"");
    assert_eq!(msg.as_bytes_with_nul(), &[0u8]);
}

#[test]
fn rendering_with_a_zero_byte_at_the_end_is_reported_without_it() {
    let failure = foreign_failure("connection reset\0");
    let (code, msg) = err_code_and_msg(&failure);
    assert_eq!(code, FFIResponseStatus::UnclassifiedError);
    assert_eq!(msg.as_bytes(), b"connection reset");
    assert_eq!(msg.len_with_nul(), 17);
}

#[test]
fn classifying_a_rendering_with_a_zero_byte_twice_gives_the_same_answer() {
    let failure = builder_failure(SectorBuilderErr::IncompleteWriteError, "short\0write");
    let (first_code, first_msg) = err_code_and_msg(&failure);
    let (second_code, second_msg) = err_code_and_msg(&failure);
    assert_eq!(first_code, FFIResponseStatus::ReceiverError);
    assert_eq!(first_code, second_code);
    assert_eq!(first_msg.as_bytes_with_nul(), second_msg.as_bytes_with_nul());
}

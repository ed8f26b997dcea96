use connext::error::Error;
use connext::reader::ReturnCode;
use connext::Entity;
use connext::Operation;

const CODES: [ReturnCode; 14] = [
    ReturnCode::Okay,
    ReturnCode::Error,
    ReturnCode::Unsupported,
    ReturnCode::BadParameter,
    ReturnCode::PreconditionNotMet,
    ReturnCode::OutOfResources,
    ReturnCode::NotEnabled,
    ReturnCode::ImmutablePolicy,
    ReturnCode::InconsistencyPolicy,
    ReturnCode::AlreadyDeleted,
    ReturnCode::Timeout,
    ReturnCode::NoData,
    ReturnCode::IllegalOperation,
    ReturnCode::NotAllowedBySecurity,
];

const OPERATIONS: [Operation; 3] = [Operation::Take, Operation::Read, Operation::Wait];

#[test]
fn return_codes_are_numbered_from_zero() {
    for (n, code) in CODES.iter().enumerate() {
        assert_eq!(ReturnCode::from_i32(n as i32), Some(*code));
        assert_eq!(code.to_i32(), n as i32);
    }
    assert_eq!(ReturnCode::from_i32(10), Some(ReturnCode::Timeout));
    assert_eq!(ReturnCode::from_i32(11), Some(ReturnCode::NoData));
}

#[test]
fn numbers_outside_the_protocol_are_no_return_code() {
    for n in [-1, 14, 15, 100, -11, i32::MAX, i32::MIN] {
        assert_eq!(ReturnCode::from_i32(n), None);
    }
}

#[test]
fn return_codes_show_their_names() {
    assert_eq!(ReturnCode::Okay.name(), "Ok");
    assert_eq!(ReturnCode::Okay.to_string(), "Ok");
    assert_eq!(ReturnCode::Timeout.to_string(), "Timeout");
    assert_eq!(ReturnCode::NoData.to_string(), "NoData");
    assert_eq!(ReturnCode::PreconditionNotMet.name(), "PreconditionNotMet");
    assert_eq!(ReturnCode::NotAllowedBySecurity.name(), "NotAllowedBySecurity");
    for code in CODES {
        assert_eq!(code.to_string(), code.name());
    }
}

#[test]
fn zero_is_success_for_every_operation() {
    for operation in OPERATIONS {
        assert_eq!(operation.outcome("R", 0), Ok(()));
    }
}

#[test]
fn only_zero_is_success() {
    for operation in OPERATIONS {
        for code in -20..40 {
            assert_eq!(operation.outcome("R", code).is_ok(), code == 0);
        }
        assert!(operation.outcome("R", i32::MAX).is_err());
        assert!(operation.outcome("R", i32::MIN).is_err());
    }
}

#[test]
fn unrecognized_codes_are_reported_with_their_number() {
    for operation in OPERATIONS {
        for number in [-1, 14, 99, i32::MAX, i32::MIN] {
            assert_eq!(
                operation.outcome("R", number),
                Err(Error::UnrecognizedCode { operation, name: "R".to_string(), number })
            );
        }
    }
}

#[test]
fn no_data_is_an_outcome_of_take_and_read() {
    assert_eq!(
        Operation::Take.outcome("R", 11),
        Err(Error::NoData { entity: Entity::Reader, operation: Operation::Take })
    );
    assert_eq!(
        Operation::Read.outcome("R", 11),
        Err(Error::NoData { entity: Entity::Reader, operation: Operation::Read })
    );
    assert_eq!(
        Operation::Wait.outcome("R", 11),
        Err(Error::Dispatch {
            operation: Operation::Wait,
            name: "R".to_string(),
            code: ReturnCode::NoData,
        })
    );
}

#[test]
fn timeout_is_an_outcome_of_wait() {
    assert_eq!(
        Operation::Wait.outcome("R", 10),
        Err(Error::Timeout { entity: Entity::Reader, name: "R".to_string() })
    );
    assert_eq!(
        Operation::Take.outcome("R", 10),
        Err(Error::Dispatch {
            operation: Operation::Take,
            name: "R".to_string(),
            code: ReturnCode::Timeout,
        })
    );
    assert_eq!(
        Operation::Read.outcome("R", 10),
        Err(Error::Dispatch {
            operation: Operation::Read,
            name: "R".to_string(),
            code: ReturnCode::Timeout,
        })
    );
}

#[test]
fn other_codes_are_dispatch_errors() {
    for operation in OPERATIONS {
        for n in [1, 2, 3, 4, 5, 6, 7, 8, 9, 12, 13] {
            assert_eq!(
                operation.outcome("R", n),
                Err(Error::Dispatch { operation, name: "R".to_string(), code: CODES[n as usize] })
            );
        }
    }
}

#[test]
fn no_data_and_timeout_are_expected_outcomes() {
    assert!(Operation::Take.outcome("R", 11).unwrap_err().is_expected());
    assert!(Operation::Wait.outcome("R", 10).unwrap_err().is_expected());
    assert!(!Operation::Take.outcome("R", 1).unwrap_err().is_expected());
    assert!(!Operation::Wait.outcome("R", 99).unwrap_err().is_expected());
    assert!(!Operation::Wait.outcome("R", 99).unwrap_err().is_local());
}

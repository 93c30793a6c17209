//! Error types: display texts, descriptions, and conversions.

use transact::context::ContextManagerCoreError;
use transact::context::ContextManagerError;
use transact::scheduler::SchedulerError;

#[test]
fn scheduler_error_messages() {
    assert_eq!(
        SchedulerError::DuplicateBatch(String::from("sig-A")).message(),
        "duplicate batch added to scheduler: sig-A"
    );
    assert_eq!(
        SchedulerError::Internal(String::from("boom")).message(),
        "scheduler encountered an internal error: boom"
    );
    assert_eq!(
        SchedulerError::NoTaskIterator.message(),
        "task iterator already taken"
    );
    assert_eq!(
        SchedulerError::SchedulerFinalized.message(),
        "batch added to finalized scheduler"
    );
    assert_eq!(
        SchedulerError::UnexpectedNotification(String::from("t9")).message(),
        "scheduler received an unexpected notification: t9"
    );
}

#[test]
fn context_manager_error_messages() {
    assert_eq!(
        ContextManagerError::MissingContextError(String::from("ctx-1")).message(),
        "Unable to find specified Context: \"ctx-1\""
    );
    assert_eq!(
        ContextManagerError::TransactionReceiptBuilderError(String::from("no id")).message(),
        "A TransactionReceiptBuilder error occured: no id"
    );
    assert_eq!(
        ContextManagerError::StateReadError(String::from("bad key")).message(),
        "A State Read error occured: bad key"
    );
    assert_eq!(
        ContextManagerError::InternalError(String::from("oops")).message(),
        "An internal error occured: oops"
    );
}

/// The missing-context identifier is written as Debug formatting
/// writes a string: quoted, with quotes, backslashes and common
/// control characters escaped.
#[test]
fn missing_context_identifier_is_quoted_and_escaped() {
    assert_eq!(
        ContextManagerError::MissingContextError(String::from("a\"b\\c")).message(),
        "Unable to find specified Context: \"a\\\"b\\\\c\""
    );
    assert_eq!(
        ContextManagerError::MissingContextError(String::from("x\ty\nz")).message(),
        "Unable to find specified Context: \"x\\ty\\nz\""
    );
}

#[test]
fn context_manager_error_descriptions() {
    assert_eq!(
        ContextManagerError::MissingContextError(String::from("ctx-1")).description(),
        "ctx-1"
    );
    assert_eq!(
        ContextManagerError::StateReadError(String::from("bad key")).description(),
        "bad key"
    );
}

#[test]
fn context_manager_core_error_messages() {
    assert_eq!(
        ContextManagerCoreError::HandlerSendError(String::from("closed")).message(),
        "A Send Error occurred from the Context Manager handler: closed"
    );
    assert_eq!(
        ContextManagerCoreError::CoreSendError(String::from("closed")).message(),
        "A Send Error occurred from the Context Manager thread: closed"
    );
    assert_eq!(
        ContextManagerCoreError::CoreReceiveError(String::from("hung up")).message(),
        "A RecvError occurred: hung up"
    );
    assert_eq!(
        ContextManagerCoreError::HandlerError(String::from("bad op")).message(),
        "Error occurred in the Context Manager handler: bad op"
    );
}

#[test]
fn context_manager_core_error_descriptions() {
    assert_eq!(
        ContextManagerCoreError::HandlerError(String::from("bad op")).description(),
        "bad op"
    );
    assert_eq!(
        ContextManagerCoreError::CoreReceiveError(String::from("hung up")).description(),
        "hung up"
    );
}

#[test]
fn core_error_converts_to_internal_error() {
    let core_error = ContextManagerCoreError::HandlerError(String::from("bad op"));
    let error = ContextManagerError::from(core_error);
    match &error {
        ContextManagerError::InternalError(msg) => {
            assert_eq!(msg, "Error occurred in the Context Manager handler: bad op")
        }
        err => panic!("Did not get InternalError; got {:?}", err),
    }
}

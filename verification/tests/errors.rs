//! The error taxonomy: kinds, wrapping of input/output failures, messages.

use prompter::error::{IoErrorClass, PromptError, PromptErrorKind};

#[test]
fn stdin_errors_are_refined_by_class() {
    assert_eq!(
        PromptError::from_stdin(IoErrorClass::UnexpectedEof).kind(),
        PromptErrorKind::UserQuit
    );
    assert_eq!(
        PromptError::from_stdin(IoErrorClass::InvalidData).kind(),
        PromptErrorKind::UserEmpty
    );
    assert_eq!(
        PromptError::from_stdin(IoErrorClass::Other).kind(),
        PromptErrorKind::StdIn
    );
}

#[test]
fn stdout_errors_all_carry_the_output_kind() {
    assert_eq!(
        PromptError::from_stdout(IoErrorClass::Other).kind(),
        PromptErrorKind::StdOut
    );
    assert_eq!(
        PromptError::from_stdout(IoErrorClass::UnexpectedEof).kind(),
        PromptErrorKind::StdOut
    );
}

#[test]
fn kind_reads_through_every_variant() {
    assert_eq!(
        PromptError::UserInput(PromptErrorKind::UserQuit).kind(),
        PromptErrorKind::UserQuit
    );
    assert_eq!(
        PromptError::Creation(PromptErrorKind::PassedNoOptions).kind(),
        PromptErrorKind::PassedNoOptions
    );
    assert_eq!(
        PromptError::Io { kind: PromptErrorKind::StdIn, source: IoErrorClass::Other }.kind(),
        PromptErrorKind::StdIn
    );
}

#[test]
fn messages_name_variant_and_kind() {
    assert_eq!(
        PromptError::UserInput(PromptErrorKind::UserQuit).message(),
        "user input error: UserQuit"
    );
    assert_eq!(
        PromptError::UserInput(PromptErrorKind::UserEmpty).message(),
        "user input error: UserEmpty"
    );
    assert_eq!(
        PromptError::Creation(PromptErrorKind::PassedNoOptions).message(),
        "creation of prompt failed: PassedNoOptions"
    );
    assert_eq!(
        PromptError::Io { kind: PromptErrorKind::StdOut, source: IoErrorClass::Other }.message(),
        "std input error: StdOut"
    );
}

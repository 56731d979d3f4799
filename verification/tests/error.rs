use daily_knowledge::error::{ErrorKind, JobError};

#[test]
fn error_message_is_context_then_detail() {
    let error = JobError::new(ErrorKind::Network, "Failed to send request: ", "refused");
    assert_eq!(error.kind, ErrorKind::Network);
    assert_eq!(error.message, "Failed to send request: refused");
}

#[test]
fn error_keeps_its_kind() {
    let kinds = [
        ErrorKind::ConfigRead,
        ErrorKind::ConfigParse,
        ErrorKind::Network,
        ErrorKind::Decode,
        ErrorKind::ShapeMismatch,
        ErrorKind::UnresolvedType,
    ];
    for (index, kind) in kinds.iter().enumerate() {
        let error = JobError::new(*kind, "", "");
        assert_eq!(error.kind, *kind);
        assert_eq!(error.message, "");
        for other in &kinds[index + 1..] {
            assert_ne!(kind, other);
        }
    }
}

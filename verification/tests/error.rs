use botcast::error::{error_response, RepoError, WorkerError};

#[test]
fn errors_map_to_statuses() {
    let nf = WorkerError::Repo(RepoError::NotFound { resource: "episode".to_string(), id: "42".to_string() });
    assert_eq!(error_response(&nf), (404, "episode 42 not found".to_string()));
    assert_eq!(error_response(&WorkerError::InvalidInput { message: "bad".to_string() }), (400, "bad".to_string()));
    assert_eq!(error_response(&WorkerError::UnAuthorized), (401, "Unauthorized".to_string()));
    assert_eq!(error_response(&WorkerError::Script { message: "s".to_string() }), (500, "s".to_string()));
    assert_eq!(error_response(&WorkerError::Other { message: "o".to_string() }), (500, "o".to_string()));
    assert_eq!(
        error_response(&WorkerError::Repo(RepoError::Other { message: "db".to_string() })),
        (500, "db".to_string())
    );
}

#[test]
fn repo_errors_convert() {
    let e: WorkerError = RepoError::Other { message: "x".to_string() }.into();
    assert!(matches!(e, WorkerError::Repo(RepoError::Other { .. })));
}

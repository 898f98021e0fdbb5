use vstd::prelude::*;

verus! {

/// Errors of the data store.
pub enum RepoError {
    /// No `resource` with this id.
    NotFound { resource: String, id: String },
    /// Any other failure, with its message.
    Other { message: String },
}

/// Errors the worker's HTTP handlers answer with.
pub enum WorkerError {
    Repo(RepoError),
    Script { message: String },
    InvalidInput { message: String },
    UnAuthorized,
    Other { message: String },
}

impl From<RepoError> for WorkerError {
    fn from(e: RepoError) -> (r: Self) {
        WorkerError::Repo(e)
    }
}

impl vstd::std_specs::convert::FromSpecImpl<RepoError> for WorkerError {
    open spec fn obeys_from_spec() -> bool {
        true
    }

    open spec fn from_spec(e: RepoError) -> Self {
        WorkerError::Repo(e)
    }
}

/// `" not found"`
pub open spec fn not_found_suffix() -> Seq<char> {
    seq![' ', 'n', 'o', 't', ' ', 'f', 'o', 'u', 'n', 'd']
}

/// The HTTP status and body an error is answered with.
pub open spec fn spec_error_response(e: WorkerError) -> (u16, Seq<char>) {
    match e {
        WorkerError::Repo(RepoError::NotFound { resource, id }) => (404, resource@ + seq![' '] + id@ + not_found_suffix()),
        WorkerError::InvalidInput { message } => (400, message@),
        WorkerError::Repo(RepoError::Other { message }) => (500, message@),
        WorkerError::Script { message } => (500, message@),
        WorkerError::UnAuthorized => (401, "Unauthorized"@),
        WorkerError::Other { message } => (500, message@),
    }
}

/// The HTTP answer to an error: 404 with `<resource> <id> not found` for a
/// missing record, 400 with the message for bad input, 401 `Unauthorized`,
/// and 500 with the message for everything else.
pub fn error_response(e: &WorkerError) -> (r: (u16, String))
    ensures
        r.0 == spec_error_response(*e).0,
        r.1@ == spec_error_response(*e).1,
{
    match e {
        WorkerError::Repo(RepoError::NotFound { resource, id }) => {
            let mut body = resource.clone();
            body.append(" ");
            body.append(id.as_str());
            body.append(" not found");
            proof {
                reveal_strlit(" ");
                reveal_strlit(" not found");
                assert(" "@ =~= seq![' ']);
                assert(" not found"@ =~= not_found_suffix());
            }
            (404, body)
        },
        WorkerError::InvalidInput { message } => (400, message.clone()),
        WorkerError::Repo(RepoError::Other { message }) => (500, message.clone()),
        WorkerError::Script { message } => (500, message.clone()),
        WorkerError::UnAuthorized => (401, "Unauthorized".to_owned()),
        WorkerError::Other { message } => (500, message.clone()),
    }
}

/// Only a missing record is answered 404, only bad input 400, only a refused
/// caller 401; every answer is one of 400, 401, 404 and 500.
pub proof fn law_error_status_classes(e: WorkerError)
    ensures
        (spec_error_response(e).0 == 404) == (e matches WorkerError::Repo(RepoError::NotFound { .. })),
        (spec_error_response(e).0 == 400) == (e is InvalidInput),
        (spec_error_response(e).0 == 401) == (e is UnAuthorized),
        spec_error_response(e).0 == 400 || spec_error_response(e).0 == 401 || spec_error_response(e).0 == 404
            || spec_error_response(e).0 == 500,
{
}

} // verus!

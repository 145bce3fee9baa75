//! The persistence layer's closed error taxonomy and the single helper that
//! translates driver-reported failures into it.

use vstd::prelude::*;

verus! {

/// Errors surfaced by repository operations. `op` is a short static label
/// identifying the failing operation; `source` is an opaque wrapped
/// underlying error preserved for diagnostics only.
#[derive(Debug)]
pub enum RepoError {
    Db { op: &'static str, source: anyhow::Error },
    DbWithEntity { op: &'static str, entity_id: String, source: anyhow::Error },
    NotFound(String),
    UniqueViolation(String),
    ForeignKeyViolation(String),
    ConnectionError(String),
}

/// The mathematical shape of a `RepoError`. The opaque diagnostic cause is
/// not part of the shape.
pub enum RepoErrorV {
    Db { op: Seq<char> },
    DbWithEntity { op: Seq<char>, entity_id: Seq<char> },
    NotFound(Seq<char>),
    UniqueViolation(Seq<char>),
    ForeignKeyViolation(Seq<char>),
    ConnectionError(Seq<char>),
}

impl View for RepoError {
    type V = RepoErrorV;

    open spec fn view(&self) -> RepoErrorV {
        match self {
            RepoError::Db { op, source } => RepoErrorV::Db { op: op@ },
            RepoError::DbWithEntity { op, entity_id, source } => RepoErrorV::DbWithEntity {
                op: op@,
                entity_id: entity_id@,
            },
            RepoError::NotFound(m) => RepoErrorV::NotFound(m@),
            RepoError::UniqueViolation(m) => RepoErrorV::UniqueViolation(m@),
            RepoError::ForeignKeyViolation(m) => RepoErrorV::ForeignKeyViolation(m@),
            RepoError::ConnectionError(m) => RepoErrorV::ConnectionError(m@),
        }
    }
}

/// The variants a caller must treat as infrastructure failures rather than
/// as answers about the data.
pub open spec fn is_infra(e: RepoErrorV) -> bool {
    match e {
        RepoErrorV::Db { .. } => true,
        RepoErrorV::DbWithEntity { .. } => true,
        RepoErrorV::ForeignKeyViolation(_) => true,
        RepoErrorV::ConnectionError(_) => true,
        RepoErrorV::NotFound(_) => false,
        RepoErrorV::UniqueViolation(_) => false,
    }
}

/// What a repository implementation observed from its database driver,
/// reduced to the dialect-independent kinds the mapping below needs.
#[derive(Debug)]
pub enum DbErrorKind {
    NotFound,
    UniqueViolation(String),
    ForeignKeyViolation(String),
    Other(anyhow::Error),
}

/// Translate a driver-reported failure of operation `op` into the
/// repository taxonomy. Every kind has exactly one target.
pub fn map_db_error(op: &'static str, err: DbErrorKind) -> (r: RepoError)
    ensures
        match err {
            DbErrorKind::NotFound => r@ == RepoErrorV::NotFound(op@ + " returned no rows"@),
            DbErrorKind::UniqueViolation(m) => r@ == RepoErrorV::UniqueViolation(m@),
            DbErrorKind::ForeignKeyViolation(m) => r@ == RepoErrorV::ForeignKeyViolation(m@),
            DbErrorKind::Other(e) => r matches RepoError::Db { op: o, source } && o@ == op@
                && source == e,
        },
{
    match err {
        DbErrorKind::NotFound => {
            let m = String::from_str(op).concat(" returned no rows");
            RepoError::NotFound(m)
        },
        DbErrorKind::UniqueViolation(m) => RepoError::UniqueViolation(m),
        DbErrorKind::ForeignKeyViolation(m) => RepoError::ForeignKeyViolation(m),
        DbErrorKind::Other(e) => RepoError::Db { op, source: e },
    }
}

/// Translate a connection-pool acquisition failure, reported as its
/// message, into the repository taxonomy.
pub fn map_pool_error(message: String) -> (r: RepoError)
    ensures
        r@ == RepoErrorV::ConnectionError(message@),
{
    RepoError::ConnectionError(message)
}

} // verus!

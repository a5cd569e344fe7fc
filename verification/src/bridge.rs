//! The bridge to the external query engine: a registry of named relations
//! and synchronous query execution. The engine itself is opaque; the
//! trusted surface below hands results and failures back as values the
//! verified controller can decide on.
use vstd::prelude::*;
use crate::dataset::Frame;
use polars::prelude::IntoLazy;
use polars::prelude::PolarsError;
use polars_sql::SQLContext;

verus! {

/// The external query engine with its registry of named relations.
#[verifier::external_body]
pub struct SqlEngine {
    ctx: SQLContext,
}

/// A failure reported by the external query engine.
#[verifier::external_body]
pub struct EngineError {
    inner: PolarsError,
}

impl SqlEngine {
    /// Relies on SQLContext::new: an engine with no registered relations.
    #[verifier::external_body]
    pub fn new() -> (r: SqlEngine) {
        SqlEngine { ctx: SQLContext::new() }
    }

    /// Relies on SQLContext::register: makes the frame queryable under the
    /// given relation name, replacing any prior relation of that name.
    #[verifier::external_body]
    pub fn register(&mut self, name: &str, frame: &Frame) {
        self.ctx.register(name, frame.inner.clone().lazy());
    }

    /// Relies on SQLContext::execute and LazyFrame::collect: runs the query
    /// text against the registered relations and materialises the result,
    /// or hands back the engine's failure.
    #[verifier::external_body]
    pub fn execute(&mut self, query: &str) -> (r: Result<Frame, EngineError>) {
        match self.ctx.execute(query) {
            Ok(lf) => match lf.collect() {
                Ok(df) => Ok(Frame { inner: df }),
                Err(e) => Err(EngineError { inner: e }),
            },
            Err(e) => Err(EngineError { inner: e }),
        }
    }
}

/// Whether a failure belongs to the engine's text/interface class of
/// errors (its SQL front end raised it) rather than its execution class.
pub uninterp spec fn engine_is_syntax(e: EngineError) -> bool;

/// The engine's own description of a failure.
pub uninterp spec fn engine_message(e: EngineError) -> Seq<char>;

impl EngineError {
    /// Relies on PolarsError's variants: SQLSyntax and SQLInterface are
    /// the classes the engine's SQL front end raises (grammar errors and
    /// other problems with the query as given); the rest arise while
    /// executing.
    #[verifier::external_body]
    pub fn is_syntax(&self) -> (r: bool)
        ensures
            r == engine_is_syntax(*self),
    {
        matches!(self.inner, PolarsError::SQLSyntax(_) | PolarsError::SQLInterface(_))
    }

    /// Relies on PolarsError's Display: the engine's own description of
    /// the failure, a function of the error value alone.
    #[verifier::external_body]
    pub fn message(&self) -> (r: String)
        ensures
            r@ == engine_message(*self),
    {
        format!("{}", self.inner)
    }
}

/// What went wrong with a query, as the status surface reports it: a
/// problem with the text itself, or a failure while executing it.
#[derive(Clone, Copy, PartialEq, Eq, Structural, Debug)]
pub enum QueryErrorKind {
    Syntax,
    Execution,
}

/// A query failure in the library's own terms.
pub struct QueryError {
    pub kind: QueryErrorKind,
    pub message: String,
}

/// Turns an engine failure into the library's query error: the engine's
/// own description, verbatim, under the text-or-execution kind.
pub fn to_query_error(e: EngineError) -> (r: QueryError)
    ensures
        r.kind == (if engine_is_syntax(e) {
            QueryErrorKind::Syntax
        } else {
            QueryErrorKind::Execution
        }),
        r.message@ == engine_message(e),
{
    let kind = if e.is_syntax() {
        QueryErrorKind::Syntax
    } else {
        QueryErrorKind::Execution
    };
    QueryError { kind, message: e.message() }
}

} // verus!

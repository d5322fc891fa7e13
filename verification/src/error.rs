use vstd::prelude::*;
use vstd::string::StringExecFns;

use crate::text::decimal_string;
use crate::text::decimal_text;
use crate::text::lemma_concat_contains_middle;
use crate::text::text_contains;

verus! {

/// The uniform outcome type of every query-lifecycle operation: a value or
/// a classified failure. No operation silently discards a failure.
pub type QueryResult<T> = Result<T, QueryError>;

/// A lightweight call-site tag attached to normalized engine failures: the
/// line and column where the conversion happened. It stands in for a
/// captured location and backtrace; richer capture is purely diagnostic
/// metadata and changes no external behavior.
#[derive(Debug, Clone, Copy, PartialEq, Eq, Structural)]
pub struct SourceLocation {
    pub line: u32,
    pub column: u32,
}

impl Default for SourceLocation {
    fn default() -> (r: Self)
        ensures
            r == (SourceLocation { line: 0u32, column: 0u32 }),
    {
        SourceLocation { line: 0, column: 0 }
    }
}

/// A native failure of the relational execution engine, as this layer reads
/// it at the engine boundary.
///
/// The engine may be invoked re-entrantly on behalf of this same layer (a
/// UDF raising a [`QueryError`] while the engine evaluates); while the error
/// unwinds through the engine's own stack the engine carries it as an opaque
/// external payload. At the boundary that payload is tagged explicitly:
/// either it is a classified [`QueryError`], or it is any other engine
/// failure, carried by its rendered message.
#[derive(Debug)]
pub enum EngineError {
    /// An opaque external payload that is a classified query error.
    External { error: Box<QueryError> },
    /// Any other engine-native failure, described by its message.
    Other { message: String },
}

/// The closed taxonomy of query failures: exactly one kind is active at a
/// time, and every fallible operation in the query lifecycle reports
/// through it. No raw engine error leaks past this layer.
#[derive(Debug)]
pub enum QueryError {
    /// An execution-engine failure not otherwise classified, wrapped by the
    /// normalizing conversion together with its call-site tag.
    Datafusion { source: Box<EngineError>, location: SourceLocation },
    /// A requested feature that is intentionally unsupported.
    NotImplemented { err: String },
    /// The input held more than one statement where exactly one is required.
    MultiStatement { num: usize, sql: String },
    /// Construction of the query dispatcher failed.
    BuildQueryDispatcher { err: String },
    /// The query was canceled by its caller.
    Cancel,
    /// The SQL text failed to parse; carries the parser's message as-is.
    Parser { source: String },
    /// A UDF lookup failed: no function registered under this name.
    FunctionNotExists { name: String },
    /// A UDF registration failed: the name is already taken.
    FunctionExists { name: String },
    /// An underlying storage operation failed.
    StoreError { e: String },
}

/// The single-line rendering of an engine error.
pub open spec fn engine_error_text(v: EngineError) -> Seq<char>
    decreases v,
{
    match v {
        EngineError::External { error } => "External error: "@ + query_error_text(*error),
        EngineError::Other { message } => message@,
    }
}

/// The single-line rendering of each failure kind: a fixed template around
/// the variant's own payload, and nothing else.
pub open spec fn query_error_text(e: QueryError) -> Seq<char>
    decreases e,
{
    match e {
        QueryError::Datafusion { source, .. } => "DataFusion error: "@ + engine_error_text(
            *source,
        ),
        QueryError::NotImplemented { err } => "This feature is not implemented: "@ + err@,
        QueryError::MultiStatement { num, sql } => "Multi-statement not allow, found num:"@
            + decimal_text(num as nat) + ", sql:"@ + sql@,
        QueryError::BuildQueryDispatcher { err } => "Failed to build QueryDispatcher. err: "@
            + err@,
        QueryError::Cancel => "The query has been canceled"@,
        QueryError::Parser { source } => source@,
        QueryError::FunctionNotExists { name } => "Udf not exists, name:"@ + name@ + "."@,
        QueryError::FunctionExists { name } => "Udf already exists, name:"@ + name@ + "."@,
        QueryError::StoreError { e } => "Store Error, e:"@ + e@ + "."@,
    }
}

/// What the normalizing conversion returns: a classified error carried as
/// an opaque external payload is unwrapped unchanged; anything else is
/// wrapped as [`QueryError::Datafusion`] with the default call-site tag.
pub open spec fn normalized(v: EngineError) -> QueryError {
    match v {
        EngineError::External { error } => *error,
        EngineError::Other { message } => QueryError::Datafusion {
            source: Box::new(EngineError::Other { message }),
            location: SourceLocation { line: 0u32, column: 0u32 },
        },
    }
}

impl From<EngineError> for QueryError {
    /// The one entry point by which engine-native failures enter the
    /// taxonomy: every collaborator that calls into the engine routes the
    /// resulting error through this conversion before returning it upward.
    fn from(value: EngineError) -> (r: Self) {
        match value {
            EngineError::External { error } => *error,
            EngineError::Other { message } => QueryError::Datafusion {
                source: Box::new(EngineError::Other { message }),
                location: SourceLocation::default(),
            },
        }
    }
}

impl vstd::std_specs::convert::FromSpecImpl<EngineError> for QueryError {
    open spec fn obeys_from_spec() -> bool {
        true
    }

    open spec fn from_spec(v: EngineError) -> QueryError {
        normalized(v)
    }
}

impl EngineError {
    /// Renders the engine error on a single line.
    pub fn message(&self) -> (r: String)
        ensures
            r@ == engine_error_text(*self),
        decreases *self,
    {
        match self {
            EngineError::External { error } => {
                let m = error.message();
                let mut s = String::from_str("External error: ");
                s.append(m.as_str());
                s
            },
            EngineError::Other { message } => message.clone(),
        }
    }
}

impl QueryError {
    /// Renders the failure on a single line, per the fixed per-variant
    /// templates of [`query_error_text`].
    pub fn message(&self) -> (r: String)
        ensures
            r@ == query_error_text(*self),
        decreases *self,
    {
        match self {
            QueryError::Datafusion { source, .. } => {
                let m = source.message();
                let mut s = String::from_str("DataFusion error: ");
                s.append(m.as_str());
                s
            },
            QueryError::NotImplemented { err } => {
                let mut s = String::from_str("This feature is not implemented: ");
                s.append(err.as_str());
                s
            },
            QueryError::MultiStatement { num, sql } => {
                let mut s = String::from_str("Multi-statement not allow, found num:");
                let d = decimal_string(*num);
                s.append(d.as_str());
                s.append(", sql:");
                s.append(sql.as_str());
                s
            },
            QueryError::BuildQueryDispatcher { err } => {
                let mut s = String::from_str("Failed to build QueryDispatcher. err: ");
                s.append(err.as_str());
                s
            },
            QueryError::Cancel => String::from_str("The query has been canceled"),
            QueryError::Parser { source } => source.clone(),
            QueryError::FunctionNotExists { name } => {
                let mut s = String::from_str("Udf not exists, name:");
                s.append(name.as_str());
                s.append(".");
                s
            },
            QueryError::FunctionExists { name } => {
                let mut s = String::from_str("Udf already exists, name:");
                s.append(name.as_str());
                s.append(".");
                s
            },
            QueryError::StoreError { e } => {
                let mut s = String::from_str("Store Error, e:");
                s.append(e.as_str());
                s.append(".");
                s
            },
        }
    }
}

/// Law (idempotent normalization): a classified error that the engine
/// carried as an opaque external payload comes back from the conversion
/// unchanged, equal in variant and payload — never re-wrapped inside a
/// `Datafusion` variant.
pub proof fn lemma_normalization_idempotent(e: QueryError)
    ensures
        normalized(EngineError::External { error: Box::new(e) }) == e,
{
}

/// Law (passthrough): an engine error that is not an opaque wrapper around
/// a classified error always normalizes to the `Datafusion` variant, never
/// to any other, and the wrapped source is that engine error itself.
pub proof fn lemma_normalization_passthrough(v: EngineError)
    ensures
        v matches EngineError::Other { .. } ==> normalized(v) matches QueryError::Datafusion {
            source,
            location,
        } && *source == v && location == (SourceLocation { line: 0u32, column: 0u32 }),
{
}

/// Law (display fidelity): the rendered message of each failure kind
/// contains that kind's payload verbatim.
pub proof fn lemma_display_fidelity(q: QueryError)
    ensures
        q matches QueryError::Datafusion { source, .. } ==> text_contains(
            query_error_text(q),
            engine_error_text(*source),
        ),
        q matches QueryError::NotImplemented { err } ==> text_contains(query_error_text(q), err@),
        q matches QueryError::MultiStatement { num, sql } ==> text_contains(
            query_error_text(q),
            decimal_text(num as nat),
        ) && text_contains(query_error_text(q), sql@),
        q matches QueryError::BuildQueryDispatcher { err } ==> text_contains(
            query_error_text(q),
            err@,
        ),
        q matches QueryError::Parser { source } ==> text_contains(query_error_text(q), source@),
        q matches QueryError::FunctionNotExists { name } ==> text_contains(
            query_error_text(q),
            name@,
        ),
        q matches QueryError::FunctionExists { name } ==> text_contains(
            query_error_text(q),
            name@,
        ),
        q matches QueryError::StoreError { e } ==> text_contains(query_error_text(q), e@),
{
    match q {
        QueryError::Datafusion { source, .. } => {
            let lit = "DataFusion error: "@;
            let body = engine_error_text(*source);
            lemma_concat_contains_middle(lit, body, Seq::<char>::empty());
            assert(lit + body + Seq::<char>::empty() =~= query_error_text(q));
        },
        QueryError::NotImplemented { err } => {
            let lit = "This feature is not implemented: "@;
            lemma_concat_contains_middle(lit, err@, Seq::<char>::empty());
            assert(lit + err@ + Seq::<char>::empty() =~= query_error_text(q));
        },
        QueryError::MultiStatement { num, sql } => {
            let lit1 = "Multi-statement not allow, found num:"@;
            let digits = decimal_text(num as nat);
            let lit2 = ", sql:"@;
            lemma_concat_contains_middle(lit1, digits, lit2 + sql@);
            assert(lit1 + digits + (lit2 + sql@) =~= query_error_text(q));
            lemma_concat_contains_middle(lit1 + digits + lit2, sql@, Seq::<char>::empty());
            assert(lit1 + digits + lit2 + sql@ + Seq::<char>::empty() =~= query_error_text(q));
        },
        QueryError::BuildQueryDispatcher { err } => {
            let lit = "Failed to build QueryDispatcher. err: "@;
            lemma_concat_contains_middle(lit, err@, Seq::<char>::empty());
            assert(lit + err@ + Seq::<char>::empty() =~= query_error_text(q));
        },
        QueryError::Cancel => {
        },
        QueryError::Parser { source } => {
            lemma_concat_contains_middle(Seq::<char>::empty(), source@, Seq::<char>::empty());
            assert(Seq::<char>::empty() + source@ + Seq::<char>::empty() =~= query_error_text(q));
        },
        QueryError::FunctionNotExists { name } => {
            lemma_concat_contains_middle("Udf not exists, name:"@, name@, "."@);
        },
        QueryError::FunctionExists { name } => {
            lemma_concat_contains_middle("Udf already exists, name:"@, name@, "."@);
        },
        QueryError::StoreError { e } => {
            lemma_concat_contains_middle("Store Error, e:"@, e@, "."@);
        },
    }
}

} // verus!


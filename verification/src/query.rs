//! The outcome of one host OS metric query, as the cpu and memory probes
//! receive it from the surrounding process.

use vstd::prelude::*;
use crate::errors::{MetricsError, MetricsErrorView};

verus! {

/// What one host OS metric query returned.
#[derive(Debug, Clone, PartialEq, Eq)]
pub enum QueryOutcome {
    /// The OS answered; the text is the diagnostic form of the measured value.
    Answer(String),
    /// The OS refused or could not answer; the text is the underlying error.
    Refused(String),
}

/// The mathematical shape of a `QueryOutcome`.
pub enum QueryView {
    Answer(Seq<char>),
    Refused(Seq<char>),
}

impl View for QueryOutcome {
    type V = QueryView;

    open spec fn view(&self) -> QueryView {
        match self {
            QueryOutcome::Answer(text) => QueryView::Answer(text@),
            QueryOutcome::Refused(cause) => QueryView::Refused(cause@),
        }
    }
}

/// A query counts as answered only when it produced a non-empty diagnostic:
/// an empty text reports nothing and is treated as a failed query.
pub open spec fn query_answered(q: QueryView) -> bool {
    q matches QueryView::Answer(text) && text.len() > 0
}

/// What a probe makes of one query under a given metric label: the diagnostic
/// text to store, or the error that aborts the scrape.
pub open spec fn query_result(metric: Seq<char>, q: QueryView) -> Result<Seq<char>, MetricsErrorView> {
    match q {
        QueryView::Answer(text) => if text.len() > 0 {
            Ok(text)
        } else {
            Err(
                MetricsErrorView::OsQueryError {
                    metric,
                    cause: "the query returned an empty diagnostic"@,
                },
            )
        },
        QueryView::Refused(cause) => Err(MetricsErrorView::OsQueryError { metric, cause }),
    }
}

/// Turns one query outcome into the diagnostic to store, or into the scrape
/// error, exactly as `query_result` says.
pub(crate) fn take_query(metric: &str, q: QueryOutcome) -> (r: Result<String, MetricsError>)
    ensures
        ({
            let out = query_result(metric@, q@);
            &&& r is Ok <==> out is Ok
            &&& r matches Ok(text) ==> out matches Ok(t) && text@ == t
            &&& r matches Err(e) ==> out matches Err(oe) && e@ == oe
        }),
{
    match q {
        QueryOutcome::Answer(text) => {
            if text.as_str().is_empty() {
                Err(
                    MetricsError::OsQueryError {
                        metric: metric.to_owned(),
                        cause: "the query returned an empty diagnostic".to_owned(),
                    },
                )
            } else {
                Ok(text)
            }
        },
        QueryOutcome::Refused(cause) => Err(
            MetricsError::OsQueryError { metric: metric.to_owned(), cause },
        ),
    }
}

} // verus!

//! Score records and their search builder.
//!
//! A score ties a request to a job and a talent. Searching scores ANDs
//! equality terms over the ids the builder was given; deleting a talent
//! first finds its scores this way and removes each one.

use vstd::prelude::*;

use crate::query::{bool_must_v, lemma_qv_seq, qv, qv_seq, Query, QueryV, JsonValV};

verus! {

/// The score record the service indexes. The numeric score value itself
/// rides along on the wire outside the library; the library carries the
/// identities its logic reads.
#[derive(Debug, Clone)]
pub struct Score {
    pub request_id: String,
    pub person_id: Option<String>,
    pub company_id: Option<String>,
    pub position_id: Option<String>,
    pub job_id: u32,
    pub talent_id: u32,
}

/// A page of score search results.
#[derive(Debug)]
pub struct SearchResults {
    pub total: u64,
    pub scores: Vec<Score>,
}

impl SearchResults {
    /// Assemble the response from what came back from the engine: a read
    /// failure yields the empty result, never an error.
    pub fn from_outcome(outcome: Option<(u64, Vec<Score>)>) -> (r: SearchResults)
        ensures
            match outcome {
                None => r.total == 0 && r.scores@.len() == 0,
                Some((total, hits)) => r.total == total && r.scores == hits,
            },
    {
        match outcome {
            None => SearchResults { total: 0, scores: Vec::new() },
            Some((total, hits)) => SearchResults { total, scores: hits },
        }
    }
}

/// The query a builder stands for: one equality term per present id, all
/// of which must hold.
pub open spec fn spec_score_query(job_id: Option<u32>, talent_id: Option<u32>) -> QueryV {
    bool_must_v(
        (match job_id {
            Some(j) => seq![QueryV::Term { field: "job_id"@, value: JsonValV::U(j as u64) }],
            None => Seq::<QueryV>::empty(),
        }) + (match talent_id {
            Some(t) => seq![QueryV::Term { field: "talent_id"@, value: JsonValV::U(t as u64) }],
            None => Seq::<QueryV>::empty(),
        }),
    )
}

/// Collects the ids a score search filters by.
#[derive(Debug, Clone, PartialEq, Eq)]
pub struct SearchBuilder {
    pub job_id: Option<u32>,
    pub talent_id: Option<u32>,
}

impl Default for SearchBuilder {
    /// A search with no constraints.
    fn default() -> (r: SearchBuilder)
        ensures
            r.job_id is None,
            r.talent_id is None,
    {
        SearchBuilder { job_id: None, talent_id: None }
    }
}

impl SearchBuilder {
    /// A search with no constraints.
    pub fn new() -> (r: SearchBuilder)
        ensures
            r.job_id is None,
            r.talent_id is None,
    {
        SearchBuilder { job_id: None, talent_id: None }
    }

    /// Constrain the search to one job.
    pub fn with_job_id(self, job_id: u32) -> (r: SearchBuilder)
        ensures
            r.job_id == Some(job_id),
            r.talent_id == self.talent_id,
    {
        SearchBuilder { job_id: Some(job_id), ..self }
    }

    /// Constrain the search to one talent.
    pub fn with_talent_id(self, talent_id: u32) -> (r: SearchBuilder)
        ensures
            r.talent_id == Some(talent_id),
            r.job_id == self.job_id,
    {
        SearchBuilder { talent_id: Some(talent_id), ..self }
    }

    /// Finish the builder.
    pub fn build(self) -> (r: SearchBuilder)
        ensures
            r == self,
    {
        self
    }

    /// The engine query this builder stands for.
    pub fn to_query(&self) -> (r: Query)
        ensures
            qv(r) == spec_score_query(self.job_id, self.talent_id),
    {
        let mut terms: Vec<Query> = Vec::new();
        if let Some(job_id) = self.job_id {
            terms.push(Query::term_u32("job_id", job_id));
        }
        if let Some(talent_id) = self.talent_id {
            terms.push(Query::term_u32("talent_id", talent_id));
        }
        proof {
            lemma_qv_seq(terms@);
            assert(qv_seq(terms@) =~= (match self.job_id {
                Some(j) => seq![QueryV::Term { field: "job_id"@, value: JsonValV::U(j as u64) }],
                None => Seq::<QueryV>::empty(),
            }) + (match self.talent_id {
                Some(t) => seq![
                    QueryV::Term { field: "talent_id"@, value: JsonValV::U(t as u64) },
                ],
                None => Seq::<QueryV>::empty(),
            }));
        }
        Query::bool_must(terms)
    }
}

} // verus!

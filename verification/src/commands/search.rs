//! The search for jobs as the user interface asks for it: any of five
//! filters, and a relevance score for the keyword.

use crate::database::query::{
    append_clause, clause_if, like_pattern, like_pattern_of, opt_string_text, param_if,
    SearchQuery,
};
use crate::text::{push_text, texts};
use vstd::prelude::*;

verus! {

/// The statement's head: every column of a job and its relevance. The
/// relevance is 1 where the first placeholder is null; otherwise it is 2
/// for a title that matches the second, else 1 for a description that
/// matches the third, plus a half for a company that matches the fourth.
pub const JOB_SEARCH_HEAD: &'static str = "
        SELECT j.*,
        CASE 
            WHEN ? IS NULL THEN 1.0
            ELSE (
                CASE 
                    WHEN j.title LIKE ? THEN 2.0
                    WHEN j.description LIKE ? THEN 1.0
                    ELSE 0.0
                END +
                CASE 
                    WHEN j.company LIKE ? THEN 0.5
                    ELSE 0.0
                END
            )
        END as relevance_score
        FROM jobs j
        WHERE 1=1
        ";

/// The filters of a search. The salaries are given as the store compares
/// them, in writing.
#[derive(Debug)]
pub struct SearchRequest {
    pub keyword: Option<String>,
    pub location: Option<String>,
    pub job_type: Option<String>,
    pub min_salary: Option<String>,
    pub max_salary: Option<String>,
}

/// What the filters of a search are, mathematically.
pub struct SearchFilters {
    pub keyword: Option<Seq<char>>,
    pub location: Option<Seq<char>>,
    pub job_type: Option<Seq<char>>,
    pub min_salary: Option<Seq<char>>,
    pub max_salary: Option<Seq<char>>,
}

impl View for SearchRequest {
    type V = SearchFilters;

    open spec fn view(&self) -> SearchFilters {
        SearchFilters {
            keyword: opt_string_text(self.keyword),
            location: opt_string_text(self.location),
            job_type: opt_string_text(self.job_type),
            min_salary: opt_string_text(self.min_salary),
            max_salary: opt_string_text(self.max_salary),
        }
    }
}

/// The clause for the location.
pub const LOCATION_CLAUSE: &'static str = " AND j.location LIKE ?";

/// The clause for the kind of job.
pub const JOB_TYPE_CLAUSE: &'static str = " AND j.job_type = ?";

/// The clause for the lowest salary: a job matches if it may pay as much.
pub const MIN_SALARY_CLAUSE: &'static str = " AND j.salary_max >= ?";

/// The clause for the highest salary: a job matches if it may pay as
/// little.
pub const MAX_SALARY_CLAUSE: &'static str = " AND j.salary_min <= ?";

/// How the statement ends: most relevant first, and of equals the newest.
pub const JOB_SEARCH_TAIL: &'static str = " ORDER BY relevance_score DESC, j.created_at DESC";

impl SearchFilters {
    /// The statement: the head, a clause for each filter that is given, in
    /// the order location, job type, lowest and highest salary, and the
    /// ordering by relevance, newest first.
    pub open spec fn sql(self) -> Seq<char> {
        JOB_SEARCH_HEAD@ + clause_if(self.location is Some, LOCATION_CLAUSE@) + clause_if(
            self.job_type is Some,
            JOB_TYPE_CLAUSE@,
        ) + clause_if(self.min_salary is Some, MIN_SALARY_CLAUSE@) + clause_if(
            self.max_salary is Some,
            MAX_SALARY_CLAUSE@,
        ) + JOB_SEARCH_TAIL@
    }

    /// The four values for the head's placeholders: the keyword and three
    /// times its pattern, or four empty texts without a keyword.
    pub open spec fn keyword_params(self) -> Seq<Seq<char>> {
        match self.keyword {
            Some(kw) => seq![kw, like_pattern_of(kw), like_pattern_of(kw), like_pattern_of(kw)],
            None => seq![Seq::empty(), Seq::empty(), Seq::empty(), Seq::empty()],
        }
    }

    /// The values for all placeholders, in the order of the statement.
    pub open spec fn params(self) -> Seq<Seq<char>> {
        self.keyword_params() + param_if(
            match self.location {
                Some(loc) => Some(like_pattern_of(loc)),
                None => None,
            },
        ) + param_if(self.job_type) + param_if(self.min_salary) + param_if(self.max_salary)
    }

    /// The number of filters, of the last four, that are given.
    pub open spec fn clause_count(self) -> nat {
        ((if self.location is Some { 1nat } else { 0nat })
            + (if self.job_type is Some { 1nat } else { 0nat })
            + (if self.min_salary is Some { 1nat } else { 0nat })
            + (if self.max_salary is Some { 1nat } else { 0nat })) as nat
    }
}

/// There is one value for each placeholder: four for the head and one for
/// each clause.
pub proof fn lemma_one_param_per_clause(filters: SearchFilters)
    ensures
        filters.params().len() == 4 + filters.clause_count(),
{
}

/// The statement and the values that run the search that `request` asks
/// for.
pub fn build_job_search(request: SearchRequest) -> (query: SearchQuery)
    ensures
        query.sql@ == request@.sql(),
        texts(query.params@) == request@.params(),
{
    let mut sql = JOB_SEARCH_HEAD.to_owned();
    let mut params: Vec<String> = Vec::new();
    match &request.keyword {
        Some(kw) => {
            push_text(&mut params, kw.clone());
            push_text(&mut params, like_pattern(kw.as_str()));
            push_text(&mut params, like_pattern(kw.as_str()));
            push_text(&mut params, like_pattern(kw.as_str()));
        },
        None => {
            push_text(&mut params, String::new());
            push_text(&mut params, String::new());
            push_text(&mut params, String::new());
            push_text(&mut params, String::new());
        },
    }
    let pattern = match &request.location {
        Some(loc) => Some(like_pattern(loc.as_str())),
        None => None,
    };
    append_clause(&mut sql, &mut params, LOCATION_CLAUSE, pattern);
    append_clause(&mut sql, &mut params, JOB_TYPE_CLAUSE, request.job_type);
    append_clause(&mut sql, &mut params, MIN_SALARY_CLAUSE, request.min_salary);
    append_clause(&mut sql, &mut params, MAX_SALARY_CLAUSE, request.max_salary);
    sql.append(JOB_SEARCH_TAIL);
    SearchQuery { sql, params }
}

} // verus!

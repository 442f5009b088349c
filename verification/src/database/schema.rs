//! The statements that set the store up.
//!
//! There are four tables, each followed by its indexes. Every statement
//! creates its table or index only if it is not there yet, so the whole
//! list can be run again on a store that is set up already.

use crate::text::{begins_with, holds};
use vstd::prelude::*;

verus! {

/// The number of statements that set the store up.
pub const INIT_STATEMENT_COUNT: usize = 11;

/// The table of users.
pub const USERS_TABLE: &'static str = "CREATE TABLE IF NOT EXISTS users (
                id INTEGER PRIMARY KEY AUTOINCREMENT,
                email TEXT UNIQUE NOT NULL,
                password_hash TEXT NOT NULL,
                created_at DATETIME NOT NULL
            )";

/// The index of users by address.
pub const USERS_EMAIL_INDEX: &'static str = "CREATE INDEX IF NOT EXISTS idx_users_email ON users(email)";

/// The table of jobs.
pub const JOBS_TABLE: &'static str = "CREATE TABLE IF NOT EXISTS jobs (
                id INTEGER PRIMARY KEY AUTOINCREMENT,
                title TEXT NOT NULL,
                company TEXT NOT NULL,
                location TEXT,
                description TEXT,
                salary_range TEXT,
                matching_score REAL,
                status TEXT NOT NULL,
                source TEXT NOT NULL,
                created_at DATETIME NOT NULL,
                updated_at DATETIME NOT NULL
            )";

/// The index of jobs by status.
pub const JOBS_STATUS_INDEX: &'static str = "CREATE INDEX IF NOT EXISTS idx_jobs_status ON jobs(status)";

/// The index of jobs by score.
pub const JOBS_SCORE_INDEX: &'static str = "CREATE INDEX IF NOT EXISTS idx_jobs_matching_score ON jobs(matching_score)";

/// The index of jobs by company.
pub const JOBS_COMPANY_INDEX: &'static str = "CREATE INDEX IF NOT EXISTS idx_jobs_company ON jobs(company)";

/// The index of jobs by location.
pub const JOBS_LOCATION_INDEX: &'static str = "CREATE INDEX IF NOT EXISTS idx_jobs_location ON jobs(location)";

/// The table of documents.
pub const DOCUMENTS_TABLE: &'static str = "CREATE TABLE IF NOT EXISTS documents (
                id INTEGER PRIMARY KEY AUTOINCREMENT,
                user_id INTEGER NOT NULL,
                title TEXT NOT NULL,
                file_path TEXT NOT NULL,
                created_at TIMESTAMP DEFAULT CURRENT_TIMESTAMP,
                FOREIGN KEY (user_id) REFERENCES users (id)
            )";

/// The index of documents by owner.
pub const DOCUMENTS_USER_INDEX: &'static str = "CREATE INDEX IF NOT EXISTS idx_documents_user_id ON documents(user_id)";

/// The table of document templates.
pub const TEMPLATES_TABLE: &'static str = "CREATE TABLE IF NOT EXISTS document_templates (
                id INTEGER PRIMARY KEY AUTOINCREMENT,
                name TEXT NOT NULL,
                template_type TEXT NOT NULL,
                content TEXT NOT NULL,
                created_at TIMESTAMP DEFAULT CURRENT_TIMESTAMP
            )";

/// The index of templates by kind.
pub const TEMPLATES_TYPE_INDEX: &'static str = "CREATE INDEX IF NOT EXISTS idx_templates_type ON document_templates(template_type)";

/// Whether `statement` creates the table `table`, if it is not there.
pub open spec fn creates_table(statement: Seq<char>, table: Seq<char>) -> bool {
    begins_with(statement, "CREATE TABLE IF NOT EXISTS "@ + table + " ("@)
}

/// Whether `statement` creates an index on the table `table`, if it is not
/// there.
pub open spec fn creates_index_on(statement: Seq<char>, table: Seq<char>) -> bool {
    &&& begins_with(statement, "CREATE INDEX IF NOT EXISTS "@)
    &&& holds(statement, " ON "@ + table + "("@)
}

/// The statement at place `i` of the list.
pub open spec fn init_statement(i: int) -> &'static str {
    if i == 0 {
        USERS_TABLE
    }     else if i == 1 {
        USERS_EMAIL_INDEX
    }     else if i == 2 {
        JOBS_TABLE
    }     else if i == 3 {
        JOBS_STATUS_INDEX
    }     else if i == 4 {
        JOBS_SCORE_INDEX
    }     else if i == 5 {
        JOBS_COMPANY_INDEX
    }     else if i == 6 {
        JOBS_LOCATION_INDEX
    }     else if i == 7 {
        DOCUMENTS_TABLE
    }     else if i == 8 {
        DOCUMENTS_USER_INDEX
    }     else if i == 9 {
        TEMPLATES_TABLE
    } else {
        TEMPLATES_TYPE_INDEX
    }
}

/// Whether the statement at place `i` creates a table; the others create
/// indexes.
pub open spec fn is_table_at(i: int) -> bool {
    i == 0 || i == 2 || i == 7 || i == 9
}

/// The table that the statement at place `i` creates or indexes.
pub open spec fn table_at(i: int) -> Seq<char> {
    if i < 2 {
        "users"@
    } else if i < 7 {
        "jobs"@
    } else if i < 9 {
        "documents"@
    } else {
        "document_templates"@
    }
}

/// The statement at place `i` does what its place says: it creates its
/// table, or an index on its table.
pub open spec fn sets_up(statement: Seq<char>, i: int) -> bool {
    if is_table_at(i) {
        creates_table(statement, table_at(i))
    } else {
        creates_index_on(statement, table_at(i))
    }
}

proof fn lemma_statement_0_sets_up()
    ensures
        sets_up(USERS_TABLE@, 0),
{
    reveal_strlit("CREATE TABLE IF NOT EXISTS users (
                id INTEGER PRIMARY KEY AUTOINCREMENT,
                email TEXT UNIQUE NOT NULL,
                password_hash TEXT NOT NULL,
                created_at DATETIME NOT NULL
            )");
    reveal_strlit("users");
    reveal_strlit("CREATE TABLE IF NOT EXISTS ");
    reveal_strlit(" (");
    let head = "CREATE TABLE IF NOT EXISTS "@ + "users"@ + " ("@;
    assert(USERS_TABLE@.subrange(0, head.len() as int) =~= head);
}

proof fn lemma_statement_1_sets_up()
    ensures
        sets_up(USERS_EMAIL_INDEX@, 1),
{
    reveal_strlit("CREATE INDEX IF NOT EXISTS idx_users_email ON users(email)");
    reveal_strlit("users");
    reveal_strlit("CREATE INDEX IF NOT EXISTS ");
    reveal_strlit(" ON ");
    reveal_strlit("(");
    let head = "CREATE INDEX IF NOT EXISTS "@;
    let on = " ON "@ + "users"@ + "("@;
    assert(USERS_EMAIL_INDEX@.subrange(0, head.len() as int) =~= head);
    assert(USERS_EMAIL_INDEX@.subrange(42, 42 + on.len() as int) =~= on);
}

proof fn lemma_statement_2_sets_up()
    ensures
        sets_up(JOBS_TABLE@, 2),
{
    reveal_strlit("CREATE TABLE IF NOT EXISTS jobs (
                id INTEGER PRIMARY KEY AUTOINCREMENT,
                title TEXT NOT NULL,
                company TEXT NOT NULL,
                location TEXT,
                description TEXT,
                salary_range TEXT,
                matching_score REAL,
                status TEXT NOT NULL,
                source TEXT NOT NULL,
                created_at DATETIME NOT NULL,
                updated_at DATETIME NOT NULL
            )");
    reveal_strlit("jobs");
    reveal_strlit("CREATE TABLE IF NOT EXISTS ");
    reveal_strlit(" (");
    let head = "CREATE TABLE IF NOT EXISTS "@ + "jobs"@ + " ("@;
    assert(JOBS_TABLE@.subrange(0, head.len() as int) =~= head);
}

proof fn lemma_statement_3_sets_up()
    ensures
        sets_up(JOBS_STATUS_INDEX@, 3),
{
    reveal_strlit("CREATE INDEX IF NOT EXISTS idx_jobs_status ON jobs(status)");
    reveal_strlit("jobs");
    reveal_strlit("CREATE INDEX IF NOT EXISTS ");
    reveal_strlit(" ON ");
    reveal_strlit("(");
    let head = "CREATE INDEX IF NOT EXISTS "@;
    let on = " ON "@ + "jobs"@ + "("@;
    assert(JOBS_STATUS_INDEX@.subrange(0, head.len() as int) =~= head);
    assert(JOBS_STATUS_INDEX@.subrange(42, 42 + on.len() as int) =~= on);
}

proof fn lemma_statement_4_sets_up()
    ensures
        sets_up(JOBS_SCORE_INDEX@, 4),
{
    reveal_strlit("CREATE INDEX IF NOT EXISTS idx_jobs_matching_score ON jobs(matching_score)");
    reveal_strlit("jobs");
    reveal_strlit("CREATE INDEX IF NOT EXISTS ");
    reveal_strlit(" ON ");
    reveal_strlit("(");
    let head = "CREATE INDEX IF NOT EXISTS "@;
    let on = " ON "@ + "jobs"@ + "("@;
    assert(JOBS_SCORE_INDEX@.subrange(0, head.len() as int) =~= head);
    assert(JOBS_SCORE_INDEX@.subrange(50, 50 + on.len() as int) =~= on);
}

proof fn lemma_statement_5_sets_up()
    ensures
        sets_up(JOBS_COMPANY_INDEX@, 5),
{
    reveal_strlit("CREATE INDEX IF NOT EXISTS idx_jobs_company ON jobs(company)");
    reveal_strlit("jobs");
    reveal_strlit("CREATE INDEX IF NOT EXISTS ");
    reveal_strlit(" ON ");
    reveal_strlit("(");
    let head = "CREATE INDEX IF NOT EXISTS "@;
    let on = " ON "@ + "jobs"@ + "("@;
    assert(JOBS_COMPANY_INDEX@.subrange(0, head.len() as int) =~= head);
    assert(JOBS_COMPANY_INDEX@.subrange(43, 43 + on.len() as int) =~= on);
}

proof fn lemma_statement_6_sets_up()
    ensures
        sets_up(JOBS_LOCATION_INDEX@, 6),
{
    reveal_strlit("CREATE INDEX IF NOT EXISTS idx_jobs_location ON jobs(location)");
    reveal_strlit("jobs");
    reveal_strlit("CREATE INDEX IF NOT EXISTS ");
    reveal_strlit(" ON ");
    reveal_strlit("(");
    let head = "CREATE INDEX IF NOT EXISTS "@;
    let on = " ON "@ + "jobs"@ + "("@;
    assert(JOBS_LOCATION_INDEX@.subrange(0, head.len() as int) =~= head);
    assert(JOBS_LOCATION_INDEX@.subrange(44, 44 + on.len() as int) =~= on);
}

proof fn lemma_statement_7_sets_up()
    ensures
        sets_up(DOCUMENTS_TABLE@, 7),
{
    reveal_strlit("CREATE TABLE IF NOT EXISTS documents (
                id INTEGER PRIMARY KEY AUTOINCREMENT,
                user_id INTEGER NOT NULL,
                title TEXT NOT NULL,
                file_path TEXT NOT NULL,
                created_at TIMESTAMP DEFAULT CURRENT_TIMESTAMP,
                FOREIGN KEY (user_id) REFERENCES users (id)
            )");
    reveal_strlit("documents");
    reveal_strlit("CREATE TABLE IF NOT EXISTS ");
    reveal_strlit(" (");
    let head = "CREATE TABLE IF NOT EXISTS "@ + "documents"@ + " ("@;
    assert(DOCUMENTS_TABLE@.subrange(0, head.len() as int) =~= head);
}

proof fn lemma_statement_8_sets_up()
    ensures
        sets_up(DOCUMENTS_USER_INDEX@, 8),
{
    reveal_strlit("CREATE INDEX IF NOT EXISTS idx_documents_user_id ON documents(user_id)");
    reveal_strlit("documents");
    reveal_strlit("CREATE INDEX IF NOT EXISTS ");
    reveal_strlit(" ON ");
    reveal_strlit("(");
    let head = "CREATE INDEX IF NOT EXISTS "@;
    let on = " ON "@ + "documents"@ + "("@;
    assert(DOCUMENTS_USER_INDEX@.subrange(0, head.len() as int) =~= head);
    assert(DOCUMENTS_USER_INDEX@.subrange(48, 48 + on.len() as int) =~= on);
}

proof fn lemma_statement_9_sets_up()
    ensures
        sets_up(TEMPLATES_TABLE@, 9),
{
    reveal_strlit("CREATE TABLE IF NOT EXISTS document_templates (
                id INTEGER PRIMARY KEY AUTOINCREMENT,
                name TEXT NOT NULL,
                template_type TEXT NOT NULL,
                content TEXT NOT NULL,
                created_at TIMESTAMP DEFAULT CURRENT_TIMESTAMP
            )");
    reveal_strlit("document_templates");
    reveal_strlit("CREATE TABLE IF NOT EXISTS ");
    reveal_strlit(" (");
    let head = "CREATE TABLE IF NOT EXISTS "@ + "document_templates"@ + " ("@;
    assert(TEMPLATES_TABLE@.subrange(0, head.len() as int) =~= head);
}

proof fn lemma_statement_10_sets_up()
    ensures
        sets_up(TEMPLATES_TYPE_INDEX@, 10),
{
    reveal_strlit("CREATE INDEX IF NOT EXISTS idx_templates_type ON document_templates(template_type)");
    reveal_strlit("document_templates");
    reveal_strlit("CREATE INDEX IF NOT EXISTS ");
    reveal_strlit(" ON ");
    reveal_strlit("(");
    let head = "CREATE INDEX IF NOT EXISTS "@;
    let on = " ON "@ + "document_templates"@ + "("@;
    assert(TEMPLATES_TYPE_INDEX@.subrange(0, head.len() as int) =~= head);
    assert(TEMPLATES_TYPE_INDEX@.subrange(45, 45 + on.len() as int) =~= on);
}

/// Every statement of the list does what its place says, and every index
/// comes after the statement that creates its table.
pub proof fn lemma_init_statements_set_up()
    ensures
        forall|i: int|
            0 <= i < INIT_STATEMENT_COUNT ==> sets_up((#[trigger] init_statement(i))@, i),
        forall|i: int|
            0 <= i < INIT_STATEMENT_COUNT && !is_table_at(i) ==> exists|j: int|
                0 <= j < i && is_table_at(j) && #[trigger] table_at(j) == table_at(i),
{
    lemma_statement_0_sets_up();
    lemma_statement_1_sets_up();
    lemma_statement_2_sets_up();
    lemma_statement_3_sets_up();
    lemma_statement_4_sets_up();
    lemma_statement_5_sets_up();
    lemma_statement_6_sets_up();
    lemma_statement_7_sets_up();
    lemma_statement_8_sets_up();
    lemma_statement_9_sets_up();
    lemma_statement_10_sets_up();
    assert forall|i: int| 0 <= i < INIT_STATEMENT_COUNT && !is_table_at(i) implies exists|j: int|
        0 <= j < i && is_table_at(j) && #[trigger] table_at(j) == table_at(i) by {
        let j = if i < 2 {
            0int
        } else if i < 7 {
            2int
        } else if i < 9 {
            7int
        } else {
            9int
        };
        assert(is_table_at(j) && table_at(j) == table_at(i));
    }
}

/// The statements that set the store up, in the order in which they are
/// run. There are eleven: the tables of users, jobs, documents and document
/// templates, each followed by its indexes. Each creates its table or index
/// only if it is not there, so running the list again changes nothing.
pub fn init_statements() -> (statements: Vec<&'static str>)
    ensures
        statements.len() == INIT_STATEMENT_COUNT,
        forall|i: int|
            0 <= i < statements.len() ==> #[trigger] statements[i] == init_statement(i),
        forall|i: int| 0 <= i < statements.len() ==> sets_up((#[trigger] statements[i])@, i),
        forall|i: int|
            0 <= i < statements.len() && !is_table_at(i) ==> exists|j: int|
                0 <= j < i && creates_table((#[trigger] statements[j])@, table_at(i)),
{
    let statements = vec![
        USERS_TABLE,
        USERS_EMAIL_INDEX,
        JOBS_TABLE,
        JOBS_STATUS_INDEX,
        JOBS_SCORE_INDEX,
        JOBS_COMPANY_INDEX,
        JOBS_LOCATION_INDEX,
        DOCUMENTS_TABLE,
        DOCUMENTS_USER_INDEX,
        TEMPLATES_TABLE,
        TEMPLATES_TYPE_INDEX,
    ];
    proof {
        lemma_init_statements_set_up();
        assert forall|i: int| 0 <= i < statements.len() implies sets_up(
            (#[trigger] statements[i])@,
            i,
        ) by {
            assert(statements[i] == init_statement(i));
        }
        assert forall|i: int| 0 <= i < statements.len() && !is_table_at(i) implies exists|j: int|
            0 <= j < i && creates_table((#[trigger] statements[j])@, table_at(i)) by {
            let j = choose|j: int| 0 <= j < i && is_table_at(j) && #[trigger] table_at(j) == table_at(i);
            assert(sets_up(statements[j]@, j));
        }
    }
    statements
}

} // verus!

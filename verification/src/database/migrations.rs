//! The schema's migrations and the rule that picks the ones still to run.
//!
//! Each migration records its own version in the table `schema_version`
//! when it is applied and takes the record away when it is undone. The first
//! one creates that table, and drops it when it is undone.

use crate::text::{decimal_of, holds};
use vstd::prelude::*;

verus! {

/// One step of the schema's history: the statements that apply it and the
/// statements that undo it.
#[derive(Debug, Clone, Copy)]
pub struct Migration {
    pub version: i32,
    pub description: &'static str,
    pub up: &'static str,
    pub down: &'static str,
}

/// The number of migrations that the schema has.
pub const MIGRATION_COUNT: usize = 6;

/// What the first migration is for.
pub const DESCRIPTION_1: &'static str = "Création des tables initiales";

/// The statements that apply the first migration.
pub const UP_1: &'static str = "
                CREATE TABLE IF NOT EXISTS schema_version (
                    version INTEGER PRIMARY KEY,
                    applied_at TIMESTAMP DEFAULT CURRENT_TIMESTAMP
                );
                
                INSERT INTO schema_version (version) VALUES (1);
            ";

/// The statements that undo the first migration.
pub const DOWN_1: &'static str = "
                DROP TABLE IF EXISTS schema_version;
            ";

/// What the second migration is for.
pub const DESCRIPTION_2: &'static str = "Ajout de l'index sur l'email des utilisateurs";

/// The statements that apply the second migration.
pub const UP_2: &'static str = "
                CREATE INDEX IF NOT EXISTS idx_users_email ON users(email);
                INSERT INTO schema_version (version) VALUES (2);
            ";

/// The statements that undo the second migration.
pub const DOWN_2: &'static str = "
                DROP INDEX IF EXISTS idx_users_email;
                DELETE FROM schema_version WHERE version = 2;
            ";

/// What the third migration is for.
pub const DESCRIPTION_3: &'static str = "Ajout de l'index sur le statut des jobs";

/// The statements that apply the third migration.
pub const UP_3: &'static str = "
                CREATE INDEX IF NOT EXISTS idx_jobs_status ON jobs(status);
                INSERT INTO schema_version (version) VALUES (3);
            ";

/// The statements that undo the third migration.
pub const DOWN_3: &'static str = "
                DROP INDEX IF EXISTS idx_jobs_status;
                DELETE FROM schema_version WHERE version = 3;
            ";

/// What the fourth migration is for.
pub const DESCRIPTION_4: &'static str = "Ajout des tables pour le suivi des candidatures";

/// The statements that apply the fourth migration.
pub const UP_4: &'static str = "
                -- Table des candidatures
                CREATE TABLE IF NOT EXISTS applications (
                    id INTEGER PRIMARY KEY AUTOINCREMENT,
                    user_id INTEGER NOT NULL,
                    job_id INTEGER NOT NULL,
                    status TEXT NOT NULL DEFAULT 'pending',
                    applied_at TIMESTAMP,
                    response_received BOOLEAN DEFAULT FALSE,
                    notes TEXT,
                    created_at TIMESTAMP DEFAULT CURRENT_TIMESTAMP,
                    updated_at TIMESTAMP DEFAULT CURRENT_TIMESTAMP,
                    FOREIGN KEY (user_id) REFERENCES users(id),
                    FOREIGN KEY (job_id) REFERENCES jobs(id)
                );

                -- Table des étapes de candidature
                CREATE TABLE IF NOT EXISTS application_stages (
                    id INTEGER PRIMARY KEY AUTOINCREMENT,
                    application_id INTEGER NOT NULL,
                    stage_type TEXT NOT NULL,
                    scheduled_at TIMESTAMP,
                    completed_at TIMESTAMP,
                    notes TEXT,
                    outcome TEXT,
                    created_at TIMESTAMP DEFAULT CURRENT_TIMESTAMP,
                    updated_at TIMESTAMP DEFAULT CURRENT_TIMESTAMP,
                    FOREIGN KEY (application_id) REFERENCES applications(id)
                );

                -- Table des documents de candidature
                CREATE TABLE IF NOT EXISTS application_documents (
                    id INTEGER PRIMARY KEY AUTOINCREMENT,
                    application_id INTEGER NOT NULL,
                    document_type TEXT NOT NULL,
                    file_path TEXT,
                    content TEXT,
                    created_at TIMESTAMP DEFAULT CURRENT_TIMESTAMP,
                    updated_at TIMESTAMP DEFAULT CURRENT_TIMESTAMP,
                    FOREIGN KEY (application_id) REFERENCES applications(id)
                );

                -- Table des notes de candidature
                CREATE TABLE IF NOT EXISTS application_notes (
                    id INTEGER PRIMARY KEY AUTOINCREMENT,
                    application_id INTEGER NOT NULL,
                    content TEXT NOT NULL,
                    created_at TIMESTAMP DEFAULT CURRENT_TIMESTAMP,
                    updated_at TIMESTAMP DEFAULT CURRENT_TIMESTAMP,
                    FOREIGN KEY (application_id) REFERENCES applications(id)
                );

                -- Création des index
                CREATE INDEX IF NOT EXISTS idx_applications_status ON applications(status);
                CREATE INDEX IF NOT EXISTS idx_applications_user_job ON applications(user_id, job_id);
                CREATE INDEX IF NOT EXISTS idx_application_stages_type ON application_stages(stage_type);
                CREATE INDEX IF NOT EXISTS idx_application_documents_type ON application_documents(document_type);

                -- Trigger pour la mise à jour automatique des timestamps
                CREATE TRIGGER IF NOT EXISTS update_applications_timestamp
                AFTER UPDATE ON applications
                BEGIN
                    UPDATE applications SET updated_at = CURRENT_TIMESTAMP WHERE id = NEW.id;
                END;

                CREATE TRIGGER IF NOT EXISTS update_application_stages_timestamp
                AFTER UPDATE ON application_stages
                BEGIN
                    UPDATE application_stages SET updated_at = CURRENT_TIMESTAMP WHERE id = NEW.id;
                END;

                CREATE TRIGGER IF NOT EXISTS update_application_documents_timestamp
                AFTER UPDATE ON application_documents
                BEGIN
                    UPDATE application_documents SET updated_at = CURRENT_TIMESTAMP WHERE id = NEW.id;
                END;

                CREATE TRIGGER IF NOT EXISTS update_application_notes_timestamp
                AFTER UPDATE ON application_notes
                BEGIN
                    UPDATE application_notes SET updated_at = CURRENT_TIMESTAMP WHERE id = NEW.id;
                END;

                INSERT INTO schema_version (version) VALUES (4);
            ";

/// The statements that undo the fourth migration.
pub const DOWN_4: &'static str = "
                DROP TRIGGER IF EXISTS update_applications_timestamp;
                DROP TRIGGER IF EXISTS update_application_stages_timestamp;
                DROP TRIGGER IF EXISTS update_application_documents_timestamp;
                DROP TRIGGER IF EXISTS update_application_notes_timestamp;
                
                DROP INDEX IF EXISTS idx_applications_status;
                DROP INDEX IF EXISTS idx_applications_user_job;
                DROP INDEX IF EXISTS idx_application_stages_type;
                DROP INDEX IF EXISTS idx_application_documents_type;
                
                DROP TABLE IF EXISTS application_notes;
                DROP TABLE IF EXISTS application_documents;
                DROP TABLE IF EXISTS application_stages;
                DROP TABLE IF EXISTS applications;
                
                DELETE FROM schema_version WHERE version = 4;
            ";

/// What the fifth migration is for.
pub const DESCRIPTION_5: &'static str = "Ajout d'index pour les requêtes de recherche";

/// The statements that apply the fifth migration.
pub const UP_5: &'static str = "
                CREATE INDEX IF NOT EXISTS idx_jobs_title ON jobs(title);
                CREATE INDEX IF NOT EXISTS idx_jobs_company ON jobs(company);
                CREATE INDEX IF NOT EXISTS idx_jobs_location ON jobs(location);
                CREATE INDEX IF NOT EXISTS idx_documents_user_id ON documents(user_id);
                CREATE INDEX IF NOT EXISTS idx_documents_type ON documents(document_type);
                INSERT INTO schema_version (version) VALUES (5);
            ";

/// The statements that undo the fifth migration.
pub const DOWN_5: &'static str = "
                DROP INDEX IF EXISTS idx_jobs_title;
                DROP INDEX IF EXISTS idx_jobs_company;
                DROP INDEX IF EXISTS idx_jobs_location;
                DROP INDEX IF EXISTS idx_documents_user_id;
                DROP INDEX IF EXISTS idx_documents_type;
                DELETE FROM schema_version WHERE version = 5;
            ";

/// What the sixth migration is for.
pub const DESCRIPTION_6: &'static str = "Ajout d'index pour les requêtes de jointure";

/// The statements that apply the sixth migration.
pub const UP_6: &'static str = "
                CREATE INDEX IF NOT EXISTS idx_jobs_user_id ON jobs(user_id);
                CREATE INDEX IF NOT EXISTS idx_kanban_cards_job_id ON kanban_cards(job_id);
                CREATE INDEX IF NOT EXISTS idx_kanban_cards_column_id ON kanban_cards(column_id);
                INSERT INTO schema_version (version) VALUES (6);
            ";

/// The statements that undo the sixth migration.
pub const DOWN_6: &'static str = "
                DROP INDEX IF EXISTS idx_jobs_user_id;
                DROP INDEX IF EXISTS idx_kanban_cards_job_id;
                DROP INDEX IF EXISTS idx_kanban_cards_column_id;
                DELETE FROM schema_version WHERE version = 6;
            ";

/// The statement that records `version` as applied.
pub open spec fn records(version: i32) -> Seq<char> {
    "INSERT INTO schema_version (version) VALUES ("@ + decimal_of(version as nat) + ")"@
}

/// The statement that takes the record of `version` away.
pub open spec fn unrecords(version: i32) -> Seq<char> {
    "DELETE FROM schema_version WHERE version = "@ + decimal_of(version as nat)
}

/// A migration keeps the record of versions: applying it records its
/// version; undoing it takes the record away, or, for the first migration,
/// drops the table of records. Neither text is empty.
pub open spec fn keeps_the_record(m: Migration) -> bool {
    &&& m.up@.len() > 0
    &&& m.down@.len() > 0
    &&& holds(m.up@, records(m.version))
    &&& if m.version == 1 {
        holds(m.down@, "DROP TABLE IF EXISTS schema_version"@)
    } else {
        holds(m.down@, unrecords(m.version))
    }
}

/// The migration that brings the schema to `version`.
pub open spec fn migration(version: int) -> Migration {
    if version == 1 {
        Migration { version: 1, description: DESCRIPTION_1, up: UP_1, down: DOWN_1 }
    }     else if version == 2 {
        Migration { version: 2, description: DESCRIPTION_2, up: UP_2, down: DOWN_2 }
    }     else if version == 3 {
        Migration { version: 3, description: DESCRIPTION_3, up: UP_3, down: DOWN_3 }
    }     else if version == 4 {
        Migration { version: 4, description: DESCRIPTION_4, up: UP_4, down: DOWN_4 }
    }     else if version == 5 {
        Migration { version: 5, description: DESCRIPTION_5, up: UP_5, down: DOWN_5 }
    } else {
        Migration { version: 6, description: DESCRIPTION_6, up: UP_6, down: DOWN_6 }
    }
}

/// Versions count up from 1 without a gap, in the order of the list.
pub open spec fn versions_count_up(migrations: Seq<Migration>) -> bool {
    forall|i: int| 0 <= i < migrations.len() ==> (#[trigger] migrations[i]).version == i + 1
}

proof fn lemma_migration_1_keeps_the_record()
    ensures
        keeps_the_record(migration(1)),
{
    reveal_strlit("
                CREATE TABLE IF NOT EXISTS schema_version (
                    version INTEGER PRIMARY KEY,
                    applied_at TIMESTAMP DEFAULT CURRENT_TIMESTAMP
                );
                
                INSERT INTO schema_version (version) VALUES (1);
            ");
    reveal_strlit("
                DROP TABLE IF EXISTS schema_version;
            ");
    reveal_strlit("INSERT INTO schema_version (version) VALUES (");
    reveal_strlit(")");
    reveal_strlit("DROP TABLE IF EXISTS schema_version");
    assert(decimal_of(1) =~= seq!['1']);
    assert(UP_1@.subrange(229, 229 + records(1).len() as int) =~= records(1));
    assert(DOWN_1@.subrange(17, 17 + "DROP TABLE IF EXISTS schema_version"@.len() as int)
        =~= "DROP TABLE IF EXISTS schema_version"@);
}

proof fn lemma_migration_2_keeps_the_record()
    ensures
        keeps_the_record(migration(2)),
{
    reveal_strlit("
                CREATE INDEX IF NOT EXISTS idx_users_email ON users(email);
                INSERT INTO schema_version (version) VALUES (2);
            ");
    reveal_strlit("
                DROP INDEX IF EXISTS idx_users_email;
                DELETE FROM schema_version WHERE version = 2;
            ");
    reveal_strlit("INSERT INTO schema_version (version) VALUES (");
    reveal_strlit(")");
    reveal_strlit("DELETE FROM schema_version WHERE version = ");
    assert(decimal_of(2) =~= seq!['2']);
    assert(UP_2@.subrange(93, 93 + records(2).len() as int) =~= records(2));
    assert(DOWN_2@.subrange(71, 71 + unrecords(2).len() as int) =~= unrecords(2));
}

proof fn lemma_migration_3_keeps_the_record()
    ensures
        keeps_the_record(migration(3)),
{
    reveal_strlit("
                CREATE INDEX IF NOT EXISTS idx_jobs_status ON jobs(status);
                INSERT INTO schema_version (version) VALUES (3);
            ");
    reveal_strlit("
                DROP INDEX IF EXISTS idx_jobs_status;
                DELETE FROM schema_version WHERE version = 3;
            ");
    reveal_strlit("INSERT INTO schema_version (version) VALUES (");
    reveal_strlit(")");
    reveal_strlit("DELETE FROM schema_version WHERE version = ");
    assert(decimal_of(3) =~= seq!['3']);
    assert(UP_3@.subrange(93, 93 + records(3).len() as int) =~= records(3));
    assert(DOWN_3@.subrange(71, 71 + unrecords(3).len() as int) =~= unrecords(3));
}

proof fn lemma_migration_4_keeps_the_record()
    ensures
        keeps_the_record(migration(4)),
{
    reveal_strlit("
                -- Table des candidatures
                CREATE TABLE IF NOT EXISTS applications (
                    id INTEGER PRIMARY KEY AUTOINCREMENT,
                    user_id INTEGER NOT NULL,
                    job_id INTEGER NOT NULL,
                    status TEXT NOT NULL DEFAULT 'pending',
                    applied_at TIMESTAMP,
                    response_received BOOLEAN DEFAULT FALSE,
                    notes TEXT,
                    created_at TIMESTAMP DEFAULT CURRENT_TIMESTAMP,
                    updated_at TIMESTAMP DEFAULT CURRENT_TIMESTAMP,
                    FOREIGN KEY (user_id) REFERENCES users(id),
                    FOREIGN KEY (job_id) REFERENCES jobs(id)
                );

                -- Table des étapes de candidature
                CREATE TABLE IF NOT EXISTS application_stages (
                    id INTEGER PRIMARY KEY AUTOINCREMENT,
                    application_id INTEGER NOT NULL,
                    stage_type TEXT NOT NULL,
                    scheduled_at TIMESTAMP,
                    completed_at TIMESTAMP,
                    notes TEXT,
                    outcome TEXT,
                    created_at TIMESTAMP DEFAULT CURRENT_TIMESTAMP,
                    updated_at TIMESTAMP DEFAULT CURRENT_TIMESTAMP,
                    FOREIGN KEY (application_id) REFERENCES applications(id)
                );

                -- Table des documents de candidature
                CREATE TABLE IF NOT EXISTS application_documents (
                    id INTEGER PRIMARY KEY AUTOINCREMENT,
                    application_id INTEGER NOT NULL,
                    document_type TEXT NOT NULL,
                    file_path TEXT,
                    content TEXT,
                    created_at TIMESTAMP DEFAULT CURRENT_TIMESTAMP,
                    updated_at TIMESTAMP DEFAULT CURRENT_TIMESTAMP,
                    FOREIGN KEY (application_id) REFERENCES applications(id)
                );

                -- Table des notes de candidature
                CREATE TABLE IF NOT EXISTS application_notes (
                    id INTEGER PRIMARY KEY AUTOINCREMENT,
                    application_id INTEGER NOT NULL,
                    content TEXT NOT NULL,
                    created_at TIMESTAMP DEFAULT CURRENT_TIMESTAMP,
                    updated_at TIMESTAMP DEFAULT CURRENT_TIMESTAMP,
                    FOREIGN KEY (application_id) REFERENCES applications(id)
                );

                -- Création des index
                CREATE INDEX IF NOT EXISTS idx_applications_status ON applications(status);
                CREATE INDEX IF NOT EXISTS idx_applications_user_job ON applications(user_id, job_id);
                CREATE INDEX IF NOT EXISTS idx_application_stages_type ON application_stages(stage_type);
                CREATE INDEX IF NOT EXISTS idx_application_documents_type ON application_documents(document_type);

                -- Trigger pour la mise à jour automatique des timestamps
                CREATE TRIGGER IF NOT EXISTS update_applications_timestamp
                AFTER UPDATE ON applications
                BEGIN
                    UPDATE applications SET updated_at = CURRENT_TIMESTAMP WHERE id = NEW.id;
                END;

                CREATE TRIGGER IF NOT EXISTS update_application_stages_timestamp
                AFTER UPDATE ON application_stages
                BEGIN
                    UPDATE application_stages SET updated_at = CURRENT_TIMESTAMP WHERE id = NEW.id;
                END;

                CREATE TRIGGER IF NOT EXISTS update_application_documents_timestamp
                AFTER UPDATE ON application_documents
                BEGIN
                    UPDATE application_documents SET updated_at = CURRENT_TIMESTAMP WHERE id = NEW.id;
                END;

                CREATE TRIGGER IF NOT EXISTS update_application_notes_timestamp
                AFTER UPDATE ON application_notes
                BEGIN
                    UPDATE application_notes SET updated_at = CURRENT_TIMESTAMP WHERE id = NEW.id;
                END;

                INSERT INTO schema_version (version) VALUES (4);
            ");
    reveal_strlit("
                DROP TRIGGER IF EXISTS update_applications_timestamp;
                DROP TRIGGER IF EXISTS update_application_stages_timestamp;
                DROP TRIGGER IF EXISTS update_application_documents_timestamp;
                DROP TRIGGER IF EXISTS update_application_notes_timestamp;
                
                DROP INDEX IF EXISTS idx_applications_status;
                DROP INDEX IF EXISTS idx_applications_user_job;
                DROP INDEX IF EXISTS idx_application_stages_type;
                DROP INDEX IF EXISTS idx_application_documents_type;
                
                DROP TABLE IF EXISTS application_notes;
                DROP TABLE IF EXISTS application_documents;
                DROP TABLE IF EXISTS application_stages;
                DROP TABLE IF EXISTS applications;
                
                DELETE FROM schema_version WHERE version = 4;
            ");
    reveal_strlit("INSERT INTO schema_version (version) VALUES (");
    reveal_strlit(")");
    reveal_strlit("DELETE FROM schema_version WHERE version = ");
    assert(decimal_of(4) =~= seq!['4']);
    assert(UP_4@.subrange(4106, 4106 + records(4).len() as int) =~= records(4));
    assert(DOWN_4@.subrange(853, 853 + unrecords(4).len() as int) =~= unrecords(4));
}

proof fn lemma_migration_5_keeps_the_record()
    ensures
        keeps_the_record(migration(5)),
{
    reveal_strlit("
                CREATE INDEX IF NOT EXISTS idx_jobs_title ON jobs(title);
                CREATE INDEX IF NOT EXISTS idx_jobs_company ON jobs(company);
                CREATE INDEX IF NOT EXISTS idx_jobs_location ON jobs(location);
                CREATE INDEX IF NOT EXISTS idx_documents_user_id ON documents(user_id);
                CREATE INDEX IF NOT EXISTS idx_documents_type ON documents(document_type);
                INSERT INTO schema_version (version) VALUES (5);
            ");
    reveal_strlit("
                DROP INDEX IF EXISTS idx_jobs_title;
                DROP INDEX IF EXISTS idx_jobs_company;
                DROP INDEX IF EXISTS idx_jobs_location;
                DROP INDEX IF EXISTS idx_documents_user_id;
                DROP INDEX IF EXISTS idx_documents_type;
                DELETE FROM schema_version WHERE version = 5;
            ");
    reveal_strlit("INSERT INTO schema_version (version) VALUES (");
    reveal_strlit(")");
    reveal_strlit("DELETE FROM schema_version WHERE version = ");
    assert(decimal_of(5) =~= seq!['5']);
    assert(UP_5@.subrange(428, 428 + records(5).len() as int) =~= records(5));
    assert(DOWN_5@.subrange(298, 298 + unrecords(5).len() as int) =~= unrecords(5));
}

proof fn lemma_migration_6_keeps_the_record()
    ensures
        keeps_the_record(migration(6)),
{
    reveal_strlit("
                CREATE INDEX IF NOT EXISTS idx_jobs_user_id ON jobs(user_id);
                CREATE INDEX IF NOT EXISTS idx_kanban_cards_job_id ON kanban_cards(job_id);
                CREATE INDEX IF NOT EXISTS idx_kanban_cards_column_id ON kanban_cards(column_id);
                INSERT INTO schema_version (version) VALUES (6);
            ");
    reveal_strlit("
                DROP INDEX IF EXISTS idx_jobs_user_id;
                DROP INDEX IF EXISTS idx_kanban_cards_job_id;
                DROP INDEX IF EXISTS idx_kanban_cards_column_id;
                DELETE FROM schema_version WHERE version = 6;
            ");
    reveal_strlit("INSERT INTO schema_version (version) VALUES (");
    reveal_strlit(")");
    reveal_strlit("DELETE FROM schema_version WHERE version = ");
    assert(decimal_of(6) =~= seq!['6']);
    assert(UP_6@.subrange(285, 285 + records(6).len() as int) =~= records(6));
    assert(DOWN_6@.subrange(199, 199 + unrecords(6).len() as int) =~= unrecords(6));
}

/// Every migration of the schema keeps the record of versions.
pub proof fn lemma_migrations_keep_the_record()
    ensures
        forall|version: int|
            1 <= version <= MIGRATION_COUNT ==> {
                &&& (#[trigger] migration(version)).version == version
                &&& keeps_the_record(migration(version))
            },
{
    lemma_migration_1_keeps_the_record();
    lemma_migration_2_keeps_the_record();
    lemma_migration_3_keeps_the_record();
    lemma_migration_4_keeps_the_record();
    lemma_migration_5_keeps_the_record();
    lemma_migration_6_keeps_the_record();
}

/// Every migration of the schema, oldest first: the versions count up from
/// 1, and each migration keeps the record of versions.
pub fn get_migrations() -> (migrations: Vec<Migration>)
    ensures
        migrations.len() == MIGRATION_COUNT,
        forall|i: int| 0 <= i < migrations.len() ==> #[trigger] migrations[i] == migration(i + 1),
        versions_count_up(migrations@),
        forall|i: int| 0 <= i < migrations.len() ==> keeps_the_record(#[trigger] migrations[i]),
{
    let migrations = vec![
        Migration { version: 1, description: DESCRIPTION_1, up: UP_1, down: DOWN_1 },
        Migration { version: 2, description: DESCRIPTION_2, up: UP_2, down: DOWN_2 },
        Migration { version: 3, description: DESCRIPTION_3, up: UP_3, down: DOWN_3 },
        Migration { version: 4, description: DESCRIPTION_4, up: UP_4, down: DOWN_4 },
        Migration { version: 5, description: DESCRIPTION_5, up: UP_5, down: DOWN_5 },
        Migration { version: 6, description: DESCRIPTION_6, up: UP_6, down: DOWN_6 },
    ];
    proof {
        lemma_migrations_keep_the_record();
        assert forall|i: int| 0 <= i < migrations.len() implies keeps_the_record(
            #[trigger] migrations[i],
        ) by {
            assert(migrations[i] == migration(i + 1));
        }
    }
    migrations
}

/// Whether a migration is newer than the version that the database is at.
pub open spec fn is_pending(migration: Migration, current_version: i32) -> bool {
    migration.version > current_version
}

/// The migrations of `all` that are still to run on a database at
/// `current_version`: those with a higher version, in the order of `all`.
pub fn pending_migrations(all: &Vec<Migration>, current_version: i32) -> (pending: Vec<Migration>)
    ensures
        pending@ == all@.filter(|m: Migration| is_pending(m, current_version)),
{
    let ghost newer = |m: Migration| is_pending(m, current_version);
    let mut pending: Vec<Migration> = Vec::new();
    let mut i: usize = 0;
    while i < all.len()
        invariant
            i <= all.len(),
            newer == |m: Migration| is_pending(m, current_version),
            pending@ == all@.take(i as int).filter(newer),
        decreases all.len() - i,
    {
        let migration = all[i];
        proof {
            reveal(Seq::filter);
            assert(all@.take(i + 1).drop_last() =~= all@.take(i as int));
        }
        if migration.version > current_version {
            pending.push(migration);
        }
        i = i + 1;
    }
    proof {
        assert(all@.take(all.len() as int) =~= all@);
    }
    pending
}

/// The migration that sets up the record of versions, where it has to be
/// run first: on a database that has no such record yet.
pub fn bootstrap_migration(all: &Vec<Migration>, table_exists: bool) -> (first: Option<Migration>)
    ensures
        first is Some <==> !table_exists && all.len() > 0,
        first matches Some(m) ==> m == all[0],
{
    if !table_exists && all.len() > 0 {
        Some(all[0])
    } else {
        None
    }
}

/// On a list whose versions count up from 1, the pending migrations are the
/// tail of the list that starts after `current_version`; a database at the
/// newest version, or beyond it, has none.
pub proof fn lemma_pending_is_tail(all: Seq<Migration>, current_version: i32)
    requires
        versions_count_up(all),
    ensures
        ({
            let done = if current_version < 0 {
                0
            } else if current_version > all.len() {
                all.len() as int
            } else {
                current_version as int
            };
            all.filter(|m: Migration| is_pending(m, current_version)) == all.subrange(
                done,
                all.len() as int,
            )
        }),
    decreases all.len(),
{
    reveal(Seq::filter);
    if all.len() > 0 {
        lemma_pending_is_tail(all.drop_last(), current_version);
    }
}

} // verus!

//! The board of columns and cards, and the figures of a user's
//! applications: what each command checks before it writes, and what it
//! writes.

use crate::ids::{parse_uuid, uuid_of};
use crate::text::concat;
use vstd::prelude::*;

verus! {

/// What an id names, for the words of a refusal.
#[derive(Debug, Clone, Copy, PartialEq, Eq, Structural)]
pub enum IdKind {
    /// The id of a card.
    Card,
    /// The id of the column that a card is in or is made in.
    Column,
    /// The id of the column that a card is moved to.
    NewColumn,
}

/// A message that quotes an id: `before`, the id between single quotes,
/// `after`.
pub open spec fn quoting(before: Seq<char>, id: Seq<char>, after: Seq<char>) -> Seq<char> {
    before + "'"@ + id + "'"@ + after
}

/// What is said of an id that is no UUID.
pub open spec fn invalid_id_message(kind: IdKind, id: Seq<char>) -> Seq<char> {
    match kind {
        IdKind::Card => quoting("L'ID de carte "@, id, " n'est pas valide"@),
        IdKind::Column => quoting("L'ID de colonne "@, id, " n'est pas valide"@),
        IdKind::NewColumn => quoting("Le nouvel ID de colonne "@, id, " n'est pas valide"@),
    }
}

/// What is said of a column that does not exist.
pub open spec fn missing_column_message(id: Seq<char>) -> Seq<char> {
    quoting("La colonne avec l'ID "@, id, " n'existe pas"@)
}

/// What is said of a card that does not exist.
pub open spec fn missing_card_message(id: Seq<char>) -> Seq<char> {
    quoting("La carte avec l'ID "@, id, " n'existe pas"@)
}

fn quote(before: &str, id: &str, after: &str) -> (message: String)
    ensures
        message@ == quoting(before@, id@, after@),
{
    let mut message = concat(before, "'");
    message.append(id);
    message.append("'");
    message.append(after);
    message
}

/// What the reading of an id comes to: the number that was read, or the
/// refusal that quotes the id as it was written.
pub fn id_outcome(kind: IdKind, parsed: Option<u128>, id: &str) -> (res: Result<u128, String>)
    ensures
        match parsed {
            Some(n) => res == Ok::<u128, String>(n),
            None => res matches Err(msg) && msg@ == invalid_id_message(kind, id@),
        },
{
    match parsed {
        Some(n) => Ok(n),
        None => Err(
            match kind {
                IdKind::Card => quote("L'ID de carte ", id, " n'est pas valide"),
                IdKind::Column => quote("L'ID de colonne ", id, " n'est pas valide"),
                IdKind::NewColumn => quote("Le nouvel ID de colonne ", id, " n'est pas valide"),
            },
        ),
    }
}

/// Reads an id: accepted if and only if it is a UUID.
pub fn check_id(kind: IdKind, id: &str) -> (res: Result<u128, String>)
    ensures
        match uuid_of(id@) {
            Some(n) => res == Ok::<u128, String>(n),
            None => res matches Err(msg) && msg@ == invalid_id_message(kind, id@),
        },
{
    id_outcome(kind, parse_uuid(id), id)
}

/// A card is made in, read from or moved to a column only if the column
/// exists.
pub fn require_column(exists: bool, id: &str) -> (res: Result<(), String>)
    ensures
        res is Ok <==> exists,
        res matches Err(msg) ==> msg@ == missing_column_message(id@),
{
    if !exists {
        return Err(quote("La colonne avec l'ID ", id, " n'existe pas"));
    }
    Ok(())
}

/// A column is changed only if it was found.
pub fn require_found_column(found: Option<KanbanColumn>) -> (res: Result<KanbanColumn, String>)
    ensures
        match found {
            Some(column) => res == Ok::<KanbanColumn, String>(column),
            None => res matches Err(msg) && msg@ == "Column not found"@,
        },
{
    match found {
        Some(column) => Ok(column),
        None => Err("Column not found".to_owned()),
    }
}

/// A card is changed or deleted only if it was found.
pub fn require_card(found: Option<KanbanCard>, id: &str) -> (res: Result<KanbanCard, String>)
    ensures
        match found {
            Some(card) => res == Ok::<KanbanCard, String>(card),
            None => res matches Err(msg) && msg@ == missing_card_message(id@),
        },
{
    match found {
        Some(card) => Ok(card),
        None => Err(quote("La carte avec l'ID ", id, " n'existe pas")),
    }
}

/// A column of the board. Times are in milliseconds since the epoch.
#[derive(Debug)]
pub struct KanbanColumn {
    pub id: String,
    pub title: String,
    pub position: i32,
    pub user_id: String,
    pub created_at: i64,
    pub updated_at: i64,
}

impl KanbanColumn {
    /// A column made at `now`.
    pub fn new(id: String, title: String, position: i32, user_id: String, now: i64) -> (column:
        KanbanColumn)
        ensures
            column.id == id,
            column.title == title,
            column.position == position,
            column.user_id == user_id,
            column.created_at == now,
            column.updated_at == now,
    {
        KanbanColumn { id, title, position, user_id, created_at: now, updated_at: now }
    }

    /// Gives the column a new title and position, at `now`.
    pub fn apply_update(&mut self, title: String, position: i32, now: i64)
        ensures
            final(self).title == title,
            final(self).position == position,
            final(self).updated_at == now,
            final(self).id == old(self).id,
            final(self).user_id == old(self).user_id,
            final(self).created_at == old(self).created_at,
    {
        self.title = title;
        self.position = position;
        self.updated_at = now;
    }
}

/// A card of the board. Ids are the numbers of UUIDs, times are in milliseconds
/// since the epoch.
#[derive(Debug)]
pub struct KanbanCard {
    pub id: u128,
    pub column_id: u128,
    pub title: String,
    pub description: String,
    pub order: i32,
    pub created_at: i64,
    pub updated_at: i64,
}

/// A change to a card: each field that is given replaces the card's, each
/// that is not leaves it.
#[derive(Debug)]
pub struct CardUpdate {
    pub column_id: Option<u128>,
    pub title: Option<String>,
    pub description: Option<String>,
    pub order: Option<i32>,
}

/// `new` where it is given, `old` where it is not.
pub open spec fn replaced<T>(old: T, new: Option<T>) -> T {
    match new {
        Some(v) => v,
        None => old,
    }
}

impl KanbanCard {
    /// A card made at `now`.
    pub fn new(
        id: u128,
        column_id: u128,
        title: String,
        description: String,
        order: i32,
        now: i64,
    ) -> (card: KanbanCard)
        ensures
            card == (KanbanCard {
                id,
                column_id,
                title,
                description,
                order,
                created_at: now,
                updated_at: now,
            }),
    {
        KanbanCard { id, column_id, title, description, order, created_at: now, updated_at: now }
    }

    /// The card after `update` is applied to it at `now`.
    pub open spec fn updated(self, update: CardUpdate, now: i64) -> KanbanCard {
        KanbanCard {
            id: self.id,
            column_id: replaced(self.column_id, update.column_id),
            title: replaced(self.title, update.title),
            description: replaced(self.description, update.description),
            order: replaced(self.order, update.order),
            created_at: self.created_at,
            updated_at: now,
        }
    }

    /// Applies `update` to the card at `now`.
    pub fn apply_update(&mut self, update: CardUpdate, now: i64)
        ensures
            *final(self) == old(self).updated(update, now),
    {
        if let Some(column_id) = update.column_id {
            self.column_id = column_id;
        }
        if let Some(title) = update.title {
            self.title = title;
        }
        if let Some(description) = update.description {
            self.description = description;
        }
        if let Some(order) = update.order {
            self.order = order;
        }
        self.updated_at = now;
    }
}

/// The figures of a user's applications.
#[derive(Debug, Clone, Copy, PartialEq, Eq, Structural)]
pub struct JobCounters {
    pub total_applications: i32,
    pub applications_this_week: i32,
    pub applications_this_month: i32,
    pub interviews_scheduled: i32,
    pub offers_received: i32,
    pub rejections: i32,
}

/// The stored figures of one user. Times are in milliseconds since the epoch.
#[derive(Debug)]
pub struct JobStats {
    pub id: String,
    pub user_id: String,
    pub counters: JobCounters,
    pub created_at: i64,
    pub updated_at: i64,
}

/// What is to be written for a user's figures.
#[derive(Debug)]
pub enum StatsWrite {
    /// The user has a record: write it back with the new figures.
    Update(JobStats),
    /// The user has none: write a new one.
    Create(JobStats),
}

/// What `update_job_stats` writes: the user's record with the new figures
/// and the time of the change, or, where the user has no record, a new one
/// under `new_id`.
pub open spec fn stats_write(
    existing: Option<JobStats>,
    user_id: String,
    counters: JobCounters,
    new_id: String,
    now: i64,
) -> StatsWrite {
    match existing {
        Some(stats) => StatsWrite::Update(
            JobStats {
                id: stats.id,
                user_id: stats.user_id,
                counters,
                created_at: stats.created_at,
                updated_at: now,
            },
        ),
        None => StatsWrite::Create(
            JobStats { id: new_id, user_id, counters, created_at: now, updated_at: now },
        ),
    }
}

/// Decides what to write for a user's figures, given the record that was
/// found for the user, if any.
pub fn update_job_stats(
    existing: Option<JobStats>,
    user_id: String,
    counters: JobCounters,
    new_id: String,
    now: i64,
) -> (write: StatsWrite)
    ensures
        write == stats_write(existing, user_id, counters, new_id, now),
{
    match existing {
        Some(stats) => {
            let mut stats = stats;
            stats.counters = counters;
            stats.updated_at = now;
            StatsWrite::Update(stats)
        },
        None => StatsWrite::Create(
            JobStats { id: new_id, user_id, counters, created_at: now, updated_at: now },
        ),
    }
}

} // verus!

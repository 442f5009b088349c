//! The cards of the application board and the figures of a job search, as
//! the scraping back end reports them, and the scripts that ask it.
//!
//! The back end is a Python program. Each request is a short script that
//! calls it and, but for a deletion, prints the card as JSON. The ids and
//! values that a script names are written into it as they are given.

use crate::text::{concat, decimal, decimal_of};
use vstd::prelude::*;

verus! {

/// A card of the board: one application, with its notes and interviews.
#[derive(Debug)]
pub struct Card {
    pub id: String,
    pub title: String,
    pub description: String,
    pub status: String,
    pub job_id: String,
    pub created_at: String,
    pub updated_at: String,
    pub notes: Option<String>,
    pub interviews: Option<Vec<Interview>>,
}

/// An interview noted on a card.
#[derive(Debug)]
pub struct Interview {
    pub date: String,
    pub interview_type: String,
    pub notes: String,
}

/// How many jobs a search found, and how many of them were new or changed.
#[derive(Debug)]
pub struct JobSearchStats {
    pub total: usize,
    pub new: usize,
    pub updated: usize,
}

/// How a script that prints its answer begins.
pub const SCRIPT_HEAD: &'static str = "
from modules.kanban import KanbanManager
import json

manager = KanbanManager('jobs.db')
";

/// How a script that prints nothing begins.
pub const QUIET_SCRIPT_HEAD: &'static str = "
from modules.kanban import KanbanManager

manager = KanbanManager('jobs.db')
";

/// How a script that has a card in `card` prints it.
pub const PRINT_CARD: &'static str = "

print(json.dumps({
    'id': str(card.id),
    'title': card.title,
    'description': card.description,
    'status': card.status,
    'job_id': str(card.job_id),
    'created_at': card.created_at.isoformat(),
    'updated_at': card.updated_at.isoformat(),
    'notes': card.notes,
    'interviews': [{ 
        'date': i.date.isoformat(),
        'interview_type': i.interview_type,
        'notes': i.notes
    } for i in card.interviews] if card.interviews else None
}))
";

/// A call of `method` on the board's manager with one argument, the text
/// `first`.
pub open spec fn call_with(method: Seq<char>, first: Seq<char>) -> Seq<char> {
    "manager."@ + method + "('"@ + first + "'"@
}

fn call(script: &mut String, method: &str, first: &str)
    ensures
        final(script)@ == old(script)@ + call_with(method@, first@),
{
    script.append("manager.");
    script.append(method);
    script.append("('");
    script.append(first);
    script.append("'");
}

/// The script that reads the card `card_id`.
pub open spec fn get_card_script_of(card_id: Seq<char>) -> Seq<char> {
    SCRIPT_HEAD@ + "card = "@ + call_with("get_card"@, card_id) + ")"@ + PRINT_CARD@
}

/// Writes the script that reads the card `card_id`.
pub fn get_card_script(card_id: &str) -> (script: String)
    ensures
        script@ == get_card_script_of(card_id@),
{
    let mut script = concat(SCRIPT_HEAD, "card = ");
    call(&mut script, "get_card", card_id);
    script.append(")");
    script.append(PRINT_CARD);
    script
}

/// The script that changes the card `card_id` as `card_data`, a JSON
/// object, says.
pub open spec fn update_card_script_of(card_id: Seq<char>, card_data: Seq<char>) -> Seq<char> {
    SCRIPT_HEAD@ + "card = "@ + call_with("update_card"@, card_id) + ", "@ + card_data + ")"@
        + PRINT_CARD@
}

/// Writes the script that changes the card `card_id` as `card_data` says.
pub fn update_card_script(card_id: &str, card_data: &str) -> (script: String)
    ensures
        script@ == update_card_script_of(card_id@, card_data@),
{
    let mut script = concat(SCRIPT_HEAD, "card = ");
    call(&mut script, "update_card", card_id);
    script.append(", ");
    script.append(card_data);
    script.append(")");
    script.append(PRINT_CARD);
    script
}

/// The script that moves the card `card_id` to the column `new_status`.
pub open spec fn move_card_script_of(card_id: Seq<char>, new_status: Seq<char>) -> Seq<char> {
    SCRIPT_HEAD@ + "card = "@ + call_with("move_card"@, card_id) + ", '"@ + new_status + "')"@
        + PRINT_CARD@
}

/// Writes the script that moves the card `card_id` to `new_status`.
pub fn move_card_script(card_id: &str, new_status: &str) -> (script: String)
    ensures
        script@ == move_card_script_of(card_id@, new_status@),
{
    let mut script = concat(SCRIPT_HEAD, "card = ");
    call(&mut script, "move_card", card_id);
    script.append(", '");
    script.append(new_status);
    script.append("')");
    script.append(PRINT_CARD);
    script
}

/// The script that deletes the card `card_id`.
pub open spec fn delete_card_script_of(card_id: Seq<char>) -> Seq<char> {
    QUIET_SCRIPT_HEAD@ + call_with("delete_card"@, card_id) + ")\n"@
}

/// Writes the script that deletes the card `card_id`.
pub fn delete_card_script(card_id: &str) -> (script: String)
    ensures
        script@ == delete_card_script_of(card_id@),
{
    let mut script = QUIET_SCRIPT_HEAD.to_owned();
    call(&mut script, "delete_card", card_id);
    script.append(")\n");
    script
}

/// How the script that searches the jobs begins, up to the keywords.
pub const SEARCH_UP_TO_KEYWORDS: &'static str = "
from modules.job_scraper import JobScraper
import json
from datetime import datetime

scraper = JobScraper('jobs.db')
results = scraper.search_jobs(
    keywords=";

/// What stands between the keywords and the location.
pub const SEARCH_UP_TO_LOCATION: &'static str = ",
    location='";

/// What stands between the location and the kinds of contract.
pub const SEARCH_UP_TO_JOB_TYPE: &'static str = "',
    job_type=";

/// What stands between the kinds of contract and the remote flag.
pub const SEARCH_UP_TO_REMOTE: &'static str = ",
    is_remote=";

/// What stands between the remote flag and the skills.
pub const SEARCH_UP_TO_SKILLS: &'static str = ",
    skills=";

/// What stands between the skills and the date.
pub const SEARCH_UP_TO_DATE_POSTED: &'static str = ",
    date_posted=";

/// What stands between the date and the ordering.
pub const SEARCH_UP_TO_SORT_BY: &'static str = ",
    sort_by='";

/// What stands between the ordering and the page.
pub const SEARCH_UP_TO_PAGE: &'static str = "',
    page=";

/// How the script that searches the jobs ends: it prints the jobs and
/// their count as JSON.
pub const SEARCH_PRINT: &'static str = ",
    hours_old=72
)

print(json.dumps({
    'jobs': [{ 
        'id': str(job.id),
        'title': job.title,
        'company': job.company_name,
        'location': job.location,
        'description': job.description,
        'url': job.url,
        'date_posted': job.date_posted.isoformat() if job.date_posted else '',
        'salary': f\"{job.salary_min}-{job.salary_max} {job.salary_currency}\" if job.salary_min else None,
        'matching_score': job.matching_score,
        'skills': job.skills,
        'job_type': job.job_type,
        'experience_level': job.experience_level,
        'remote': job.is_remote
    } for job in results['jobs']],
    'stats': {
        'total': results['stats']['total'],
        'new': results['stats']['new'],
        'updated': results['stats']['updated']
    }
}))
";

/// What a search of the jobs asks of the back end. The keywords, the kinds
/// of contract, the skills and the date are given as they are written into
/// the script.
#[derive(Debug)]
pub struct SearchCriteria {
    pub keywords: String,
    pub location: String,
    pub contract_types: Option<String>,
    pub remote: Option<bool>,
    pub skills: Option<String>,
    pub date_posted: Option<String>,
    pub sort_by: Option<String>,
    pub page: Option<u32>,
}

/// A flag as it is written into a script.
pub open spec fn flag_text(flag: bool) -> Seq<char> {
    if flag {
        "true"@
    } else {
        "false"@
    }
}

/// The text of an optional string, or `default` where there is none.
pub open spec fn text_or(value: Option<String>, default: Seq<char>) -> Seq<char> {
    match value {
        Some(text) => text@,
        None => default,
    }
}

/// The script that searches the jobs as `criteria` asks. What is not
/// asked for is written as the empty text, but for the remote flag, which
/// is then false, the ordering, which is then by relevance, and the page,
/// which is then the first.
pub open spec fn search_jobs_script_of(criteria: SearchCriteria) -> Seq<char> {
    SEARCH_UP_TO_KEYWORDS@ + criteria.keywords@ + SEARCH_UP_TO_LOCATION@ + criteria.location@
        + SEARCH_UP_TO_JOB_TYPE@ + text_or(criteria.contract_types, ""@)
        + SEARCH_UP_TO_REMOTE@ + flag_text(
        match criteria.remote {
            Some(flag) => flag,
            None => false,
        },
    ) + SEARCH_UP_TO_SKILLS@ + text_or(criteria.skills, ""@) + SEARCH_UP_TO_DATE_POSTED@
        + text_or(criteria.date_posted, ""@) + SEARCH_UP_TO_SORT_BY@ + text_or(
        criteria.sort_by,
        "relevance"@,
    ) + SEARCH_UP_TO_PAGE@ + decimal_of(
        match criteria.page {
            Some(page) => page as nat,
            None => 1,
        },
    ) + SEARCH_PRINT@
}

fn flag_str(flag: bool) -> (text: &'static str)
    ensures
        text@ == flag_text(flag),
{
    if flag {
        "true"
    } else {
        "false"
    }
}

fn append_or(script: &mut String, value: &Option<String>, default: &str)
    ensures
        final(script)@ == old(script)@ + text_or(*value, default@),
{
    match value {
        Some(text) => script.append(text.as_str()),
        None => script.append(default),
    }
}

/// Writes the script that searches the jobs as `criteria` asks.
pub fn search_jobs_script(criteria: &SearchCriteria) -> (script: String)
    ensures
        script@ == search_jobs_script_of(*criteria),
{
    let mut script = concat(SEARCH_UP_TO_KEYWORDS, criteria.keywords.as_str());
    script.append(SEARCH_UP_TO_LOCATION);
    script.append(criteria.location.as_str());
    script.append(SEARCH_UP_TO_JOB_TYPE);
    append_or(&mut script, &criteria.contract_types, "");
    script.append(SEARCH_UP_TO_REMOTE);
    let remote = match criteria.remote {
        Some(flag) => flag,
        None => false,
    };
    script.append(flag_str(remote));
    script.append(SEARCH_UP_TO_SKILLS);
    append_or(&mut script, &criteria.skills, "");
    script.append(SEARCH_UP_TO_DATE_POSTED);
    append_or(&mut script, &criteria.date_posted, "");
    script.append(SEARCH_UP_TO_SORT_BY);
    append_or(&mut script, &criteria.sort_by, "relevance");
    script.append(SEARCH_UP_TO_PAGE);
    let page: u64 = match criteria.page {
        Some(page) => page as u64,
        None => 1,
    };
    let page_text = decimal(page);
    script.append(page_text.as_str());
    script.append(SEARCH_PRINT);
    script
}

/// What is said when the script's answer is no list of jobs.
pub fn search_parse_failure(why: &str) -> (msg: String)
    ensures
        msg@ == "Failed to parse search results: "@ + why@,
{
    concat("Failed to parse search results: ", why)
}

/// What a run of a script comes to: its output if it succeeded and wrote
/// valid text, and otherwise what went wrong, in words. `success` says
/// whether the script ended well, `stdout` is what it wrote, or why that
/// could not be read as text, and `stderr` is what it wrote of errors.
pub fn script_outcome(success: bool, stdout: Result<String, String>, stderr: &str) -> (res: Result<
    String,
    String,
>)
    ensures
        !success ==> (res matches Err(msg) && msg@ == "Python script error: "@ + stderr@),
        success ==> match stdout {
            Ok(text) => res == Ok::<String, String>(text),
            Err(why) => res matches Err(msg) && msg@ == "Failed to read Python output: "@ + why@,
        },
{
    if !success {
        return Err(concat("Python script error: ", stderr));
    }
    match stdout {
        Ok(text) => Ok(text),
        Err(why) => Err(concat("Failed to read Python output: ", why.as_str())),
    }
}

/// What is said when the script could not be started.
pub fn launch_failure(why: &str) -> (msg: String)
    ensures
        msg@ == "Failed to execute Python script: "@ + why@,
{
    concat("Failed to execute Python script: ", why)
}

/// What is said when the script's answer is no card.
pub fn card_parse_failure(why: &str) -> (msg: String)
    ensures
        msg@ == "Failed to parse card data: "@ + why@,
{
    concat("Failed to parse card data: ", why)
}

} // verus!

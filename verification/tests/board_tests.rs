use job_tracker::board::{
    card_parse_failure, delete_card_script, get_card_script, launch_failure, move_card_script,
    script_outcome, search_jobs_script, search_parse_failure, update_card_script, SearchCriteria,
};

#[test]
fn script_that_reads_a_card() {
    assert_eq!(
        get_card_script("C1"),
        r#"
from modules.kanban import KanbanManager
import json

manager = KanbanManager('jobs.db')
card = manager.get_card('C1')

print(json.dumps({
    'id': str(card.id),
    'title': card.title,
    'description': card.description,
    'status': card.status,
    'job_id': str(card.job_id),
    'created_at': card.created_at.isoformat(),
    'updated_at': card.updated_at.isoformat(),
    'notes': card.notes,
    'interviews': [{ 
        'date': i.date.isoformat(),
        'interview_type': i.interview_type,
        'notes': i.notes
    } for i in card.interviews] if card.interviews else None
}))
"#
    );
}

#[test]
fn script_that_changes_a_card() {
    assert_eq!(
        update_card_script("C1", r#"{"a": 1}"#),
        r#"
from modules.kanban import KanbanManager
import json

manager = KanbanManager('jobs.db')
card = manager.update_card('C1', {"a": 1})

print(json.dumps({
    'id': str(card.id),
    'title': card.title,
    'description': card.description,
    'status': card.status,
    'job_id': str(card.job_id),
    'created_at': card.created_at.isoformat(),
    'updated_at': card.updated_at.isoformat(),
    'notes': card.notes,
    'interviews': [{ 
        'date': i.date.isoformat(),
        'interview_type': i.interview_type,
        'notes': i.notes
    } for i in card.interviews] if card.interviews else None
}))
"#
    );
}

#[test]
fn script_that_moves_a_card() {
    assert_eq!(
        move_card_script("C1", "applied"),
        r#"
from modules.kanban import KanbanManager
import json

manager = KanbanManager('jobs.db')
card = manager.move_card('C1', 'applied')

print(json.dumps({
    'id': str(card.id),
    'title': card.title,
    'description': card.description,
    'status': card.status,
    'job_id': str(card.job_id),
    'created_at': card.created_at.isoformat(),
    'updated_at': card.updated_at.isoformat(),
    'notes': card.notes,
    'interviews': [{ 
        'date': i.date.isoformat(),
        'interview_type': i.interview_type,
        'notes': i.notes
    } for i in card.interviews] if card.interviews else None
}))
"#
    );
}

#[test]
fn script_that_deletes_a_card() {
    assert_eq!(
        delete_card_script("C1"),
        r#"
from modules.kanban import KanbanManager

manager = KanbanManager('jobs.db')
manager.delete_card('C1')
"#
    );
}

#[test]
fn scripts_name_the_card_as_given() {
    assert!(get_card_script("").contains("manager.get_card('')"));
    assert!(move_card_script("a'b", "x").contains("manager.move_card('a'b', 'x')"));
}

#[test]
fn failed_script_reports_its_errors() {
    assert_eq!(
        script_outcome(false, Ok("out".to_string()), "Traceback").unwrap_err(),
        "Python script error: Traceback"
    );
    assert_eq!(
        script_outcome(false, Err("bad".to_string()), "").unwrap_err(),
        "Python script error: "
    );
}

#[test]
fn successful_script_gives_its_output() {
    assert_eq!(script_outcome(true, Ok("{}".to_string()), "warning").unwrap(), "{}");
    assert_eq!(
        script_outcome(true, Err("invalid utf-8".to_string()), "").unwrap_err(),
        "Failed to read Python output: invalid utf-8"
    );
}

#[test]
fn failures_around_the_script_are_worded() {
    assert_eq!(launch_failure("not found"), "Failed to execute Python script: not found");
    assert_eq!(card_parse_failure("EOF"), "Failed to parse card data: EOF");
}

#[test]
fn script_that_searches_with_every_criterion() {
    let criteria = SearchCriteria {
        keywords: r#"["rust", "sql"]"#.to_string(),
        location: "Paris".to_string(),
        contract_types: Some(r#"["CDI"]"#.to_string()),
        remote: Some(true),
        skills: Some(r#"["Rust"]"#.to_string()),
        date_posted: Some("2024-03-21".to_string()),
        sort_by: Some("date".to_string()),
        page: Some(3),
    };
    assert_eq!(
        search_jobs_script(&criteria),
        r#"
from modules.job_scraper import JobScraper
import json
from datetime import datetime

scraper = JobScraper('jobs.db')
results = scraper.search_jobs(
    keywords=["rust", "sql"],
    location='Paris',
    job_type=["CDI"],
    is_remote=true,
    skills=["Rust"],
    date_posted=2024-03-21,
    sort_by='date',
    page=3,
    hours_old=72
)

print(json.dumps({
    'jobs': [{ 
        'id': str(job.id),
        'title': job.title,
        'company': job.company_name,
        'location': job.location,
        'description': job.description,
        'url': job.url,
        'date_posted': job.date_posted.isoformat() if job.date_posted else '',
        'salary': f"{job.salary_min}-{job.salary_max} {job.salary_currency}" if job.salary_min else None,
        'matching_score': job.matching_score,
        'skills': job.skills,
        'job_type': job.job_type,
        'experience_level': job.experience_level,
        'remote': job.is_remote
    } for job in results['jobs']],
    'stats': {
        'total': results['stats']['total'],
        'new': results['stats']['new'],
        'updated': results['stats']['updated']
    }
}))
"#
    );
}

#[test]
fn script_that_searches_with_the_least() {
    let criteria = SearchCriteria {
        keywords: "[]".to_string(),
        location: String::new(),
        contract_types: None,
        remote: None,
        skills: None,
        date_posted: None,
        sort_by: None,
        page: None,
    };
    assert_eq!(
        search_jobs_script(&criteria),
        r#"
from modules.job_scraper import JobScraper
import json
from datetime import datetime

scraper = JobScraper('jobs.db')
results = scraper.search_jobs(
    keywords=[],
    location='',
    job_type=,
    is_remote=false,
    skills=,
    date_posted=,
    sort_by='relevance',
    page=1,
    hours_old=72
)

print(json.dumps({
    'jobs': [{ 
        'id': str(job.id),
        'title': job.title,
        'company': job.company_name,
        'location': job.location,
        'description': job.description,
        'url': job.url,
        'date_posted': job.date_posted.isoformat() if job.date_posted else '',
        'salary': f"{job.salary_min}-{job.salary_max} {job.salary_currency}" if job.salary_min else None,
        'matching_score': job.matching_score,
        'skills': job.skills,
        'job_type': job.job_type,
        'experience_level': job.experience_level,
        'remote': job.is_remote
    } for job in results['jobs']],
    'stats': {
        'total': results['stats']['total'],
        'new': results['stats']['new'],
        'updated': results['stats']['updated']
    }
}))
"#
    );
}

#[test]
fn search_script_writes_the_page_in_decimal() {
    let criteria = |page| SearchCriteria {
        keywords: "[]".to_string(),
        location: String::new(),
        contract_types: None,
        remote: Some(false),
        skills: None,
        date_posted: None,
        sort_by: None,
        page,
    };
    assert!(search_jobs_script(&criteria(Some(0))).contains("page=0,"));
    assert!(search_jobs_script(&criteria(Some(120))).contains("page=120,"));
    assert!(search_jobs_script(&criteria(Some(u32::MAX))).contains("page=4294967295,"));
    assert!(search_jobs_script(&criteria(None)).contains("is_remote=false,"));
}

#[test]
fn failure_to_read_the_search_results_is_worded() {
    assert_eq!(search_parse_failure("EOF"), "Failed to parse search results: EOF");
}

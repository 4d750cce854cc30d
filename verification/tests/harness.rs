use sophia_bench::clock::duration_ns;
use sophia_bench::dispatch::{plan_run, HarnessError, TaskPlan};
use sophia_bench::driver::{load_timed, run_parse, run_query, QueryTiming};
use sophia_bench::report::{parse_result_line, query_result_line};
use sophia_bench::store::{Backend, LoadFailure, Store};
use sophia_bench::vmsize::{mem_delta_kb, parse_vmsize_kb};

const RDF_TYPE: &str = "<http://www.w3.org/1999/02/22-rdf-syntax-ns#type>";
const PERSON: &str = "<http://dbpedia.org/ontology/Person>";

fn person_line(subject: &str) -> String {
    format!("<http://example.org/{}> {} {} .\n", subject, RDF_TYPE, PERSON)
}

fn city_line(subject: &str) -> String {
    format!(
        "<http://example.org/{}> {} <http://dbpedia.org/ontology/City> .\n",
        subject, RDF_TYPE
    )
}

fn mixed_input() -> Vec<u8> {
    let mut text = String::new();
    text.push_str(&person_line("alice"));
    text.push_str(&person_line("bob"));
    // the same triple twice: a set-semantics graph keeps it once
    text.push_str(&person_line("bob"));
    text.push_str(&city_line("lyon"));
    text.into_bytes()
}

fn no_person_input() -> Vec<u8> {
    let mut text = String::new();
    text.push_str(&city_line("lyon"));
    text.push_str(&city_line("paris"));
    text.into_bytes()
}

fn large_input() -> Vec<u8> {
    let mut text = String::new();
    for i in 0..200 {
        text.push_str(&person_line(&format!("p{}", i)));
        text.push_str(&city_line(&format!("c{}", i)));
    }
    text.into_bytes()
}

#[test]
fn parse_task_time_positive() {
    let data = large_input();
    let ns = run_parse(&data).expect("well-formed input must parse");
    assert!(ns > 0, "parse time of a non-empty file is strictly positive");
}

#[test]
fn parse_task_rejects_malformed() {
    let data = b"this is not an n-triples line\n".to_vec();
    match run_parse(&data) {
        Err(LoadFailure::Syntax(detail)) => assert!(!detail.is_empty()),
        other => panic!("malformed input must fail the parser, got {:?}", other.is_ok()),
    }
}

#[test]
fn dispatch_parse_without_variant() {
    assert_eq!(plan_run("parse", None), Ok(TaskPlan::RunParse));
}

#[test]
fn dispatch_parse_with_variant_is_fatal() {
    match plan_run("parse", Some("light")) {
        Err(e @ HarnessError::VariantOnParse) => {
            assert_eq!(e.message(), "no variant expected for the 'parse' task");
        }
        _ => panic!("a variant token on the parse task must be rejected"),
    }
}

#[test]
fn dispatch_query_default_variant() {
    assert_eq!(plan_run("query", None), Ok(TaskPlan::RunQuery(Backend::Fast)));
}

#[test]
fn dispatch_query_light_variant() {
    assert_eq!(plan_run("query", Some("light")), Ok(TaskPlan::RunQuery(Backend::Light)));
}

#[test]
fn dispatch_query_unknown_variant() {
    match plan_run("query", Some("heavy")) {
        Err(e) => {
            assert_eq!(e.message(), "Unknown variant heavy");
        }
        Ok(_) => panic!("an unknown variant must be rejected"),
    }
}

#[test]
fn dispatch_unknown_task() {
    match plan_run("sleep", None) {
        Err(e) => {
            assert_eq!(e.message(), "Unknown task sleep");
        }
        Ok(_) => panic!("an unknown task must be rejected"),
    }
}

#[test]
fn query_counts_person_matches_fast() {
    let data = mixed_input();
    let mut store = Store::new(Backend::Fast);
    let stats = load_timed(&mut store, &data).expect("well-formed input must load");
    assert_eq!(stats.inserted, 3, "the duplicate triple is stored once");
    let q = run_query(&store);
    assert_eq!(q.count, 2, "two distinct Person-typed subjects");
}

#[test]
fn query_counts_person_matches_light() {
    let data = mixed_input();
    let mut store = Store::new(Backend::Light);
    let stats = load_timed(&mut store, &data).expect("well-formed input must load");
    assert_eq!(stats.inserted, 3);
    let q = run_query(&store);
    assert_eq!(q.count, 2, "both variants agree on the match count");
}

#[test]
fn query_load_rejects_malformed() {
    let mut store = Store::new(Backend::Fast);
    match load_timed(&mut store, b"garbage\n") {
        Err(LoadFailure::Syntax(_)) => {}
        _ => panic!("malformed input must fail the load"),
    }
}

#[test]
fn query_without_matches_reports_zero_times() {
    let data = no_person_input();
    let mut store = Store::new(Backend::Fast);
    load_timed(&mut store, &data).expect("well-formed input must load");
    let q = run_query(&store);
    assert_eq!(q.count, 0);
    assert_eq!(q.first_ns, 0, "no match ever found: the first-match branch never triggers");
    assert_eq!(q.rest_ns, 0);
    let line = query_result_line(0, 0, q.first_ns, q.rest_ns);
    assert_eq!(line, "0.000000000,0,0.000000000,0.000000000");
}

#[test]
fn query_rerun_reports_same_count() {
    let data = mixed_input();
    let mut store = Store::new(Backend::Fast);
    load_timed(&mut store, &data).expect("well-formed input must load");
    let first = run_query(&store);
    let second = run_query(&store);
    assert_eq!(first.count, second.count, "the count depends on the store alone");
}

#[test]
fn query_line_has_four_numeric_fields() {
    let data = mixed_input();
    let mut store = Store::new(Backend::Light);
    let stats = load_timed(&mut store, &data).expect("well-formed input must load");
    let q = run_query(&store);
    let line = query_result_line(stats.parse_ns, 12, q.first_ns, q.rest_ns);
    let fields: Vec<&str> = line.split(',').collect();
    assert_eq!(fields.len(), 4);
    for f in fields {
        assert!(!f.is_empty());
        assert!(f.chars().all(|c| c.is_ascii_digit() || c == '.'));
    }
}

#[test]
fn seconds_rendering_is_exact() {
    assert_eq!(parse_result_line(0), "0.000000000");
    assert_eq!(parse_result_line(1), "0.000000001");
    assert_eq!(parse_result_line(1_500_000_000), "1.500000000");
    assert_eq!(parse_result_line(987_654_321), "0.987654321");
    assert_eq!(parse_result_line(61_000_000_007), "61.000000007");
}

#[test]
fn query_line_rendering_is_exact() {
    assert_eq!(
        query_result_line(1_000_000_000, 42, 0, 999_999_999),
        "1.000000000,42,0.000000000,0.999999999"
    );
}

#[test]
fn timer_fixes_first_match_time_once() {
    let mut timing = QueryTiming::begin(100);
    timing.mark_first(150, 160);
    timing.tally();
    assert_eq!(timing.first_ns, 50);
    timing.tally();
    timing.tally();
    assert_eq!(timing.first_ns, 50, "later matches never alter the first-match time");
    let q = timing.finish(200);
    assert_eq!(q.count, 3);
    assert_eq!(q.first_ns, 50);
    assert_eq!(q.rest_ns, 40);
}

#[test]
fn durations_clamp_at_zero() {
    assert_eq!(duration_ns(3, 8), 5);
    assert_eq!(duration_ns(8, 3), 0);
    assert_eq!(mem_delta_kb(100, 175), 75);
    assert_eq!(mem_delta_kb(175, 100), 0);
}

#[test]
fn vmsize_field_is_found() {
    let status = "Name:\tbench\nVmPeak:\t  999 kB\nVmSize:\t  4321 kB\nVmLck:\t0 kB\n";
    assert_eq!(parse_vmsize_kb(status), Some(4321));
}

#[test]
fn vmsize_first_occurrence_wins() {
    let status = "VmSize:  7 kB\nVmSize:  8 kB\n";
    assert_eq!(parse_vmsize_kb(status), Some(7));
}

#[test]
fn vmsize_skips_incomplete_occurrence() {
    let status = "VmSize: x\nVmSize: 5 kB\n";
    assert_eq!(parse_vmsize_kb(status), Some(5));
}

#[test]
fn vmsize_requires_unit() {
    assert_eq!(parse_vmsize_kb("VmSize: 12kB\n"), None);
    assert_eq!(parse_vmsize_kb("VmSize: 12 MB\n"), None);
    assert_eq!(parse_vmsize_kb("VmRSS: 12 kB\n"), None);
    assert_eq!(parse_vmsize_kb(""), None);
}

#[test]
fn vmsize_rejects_oversized_value() {
    let status = "VmSize: 99999999999999999999999999 kB\n";
    assert_eq!(parse_vmsize_kb(status), None);
}

#[test]
fn count_hint_is_present_after_load() {
    let data = mixed_input();
    let mut store = Store::new(Backend::Fast);
    load_timed(&mut store, &data).expect("well-formed input must load");
    let (lower, _upper) = store.triple_count_hint();
    // diagnostic only: nothing exact is promised of it
    assert!(lower <= 3);
}

#[test]
fn parse_task_accepts_empty_input() {
    assert!(run_parse(b"").is_ok(), "an empty stream is well-formed, with zero triples");
}

#[test]
fn query_on_empty_input_counts_nothing() {
    let mut store = Store::new(Backend::Fast);
    let stats = load_timed(&mut store, b"").expect("an empty stream must load");
    assert_eq!(stats.inserted, 0);
    let q = run_query(&store);
    assert_eq!(q.count, 0);
    assert_eq!(q.first_ns, 0);
    assert_eq!(q.rest_ns, 0);
}

#[test]
fn blank_node_subject_counts_as_match() {
    let data = format!("_:someone {} {} .\n{}", RDF_TYPE, PERSON, person_line("carol")).into_bytes();
    let mut store = Store::new(Backend::Fast);
    let stats = load_timed(&mut store, &data).expect("blank-node input must load");
    assert_eq!(stats.inserted, 2);
    let q = run_query(&store);
    assert_eq!(q.count, 2, "the subject is wildcarded, so a blank subject matches too");
}

#[test]
fn blank_node_loads_are_deterministic() {
    // the parser is made to keep blank-node labels verbatim, so two loads of
    // the same bytes fill two stores identically
    let data = format!(
        "_:a {} {} .\n_:a <http://example.org/knows> _:b .\n_:a {} {} .\n",
        RDF_TYPE, PERSON, RDF_TYPE, PERSON
    )
    .into_bytes();
    let mut first_store = Store::new(Backend::Fast);
    let first = load_timed(&mut first_store, &data).expect("must load");
    let mut second_store = Store::new(Backend::Fast);
    let second = load_timed(&mut second_store, &data).expect("must load");
    assert_eq!(first.inserted, 2, "the repeated blank-node triple is stored once");
    assert_eq!(first.inserted, second.inserted);
    assert_eq!(run_query(&first_store).count, run_query(&second_store).count);
}

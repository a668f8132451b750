use retrieve::fetch::Retrieve;
use retrieve::lines::split_lines;
use retrieve::uris::benchmark_uris;
use retrieve::uris::uri_text_string;

fn uris(v: &[&str]) -> Vec<String> {
    v.iter().map(|s| s.to_string()).collect()
}

fn fresh(list: &[&str]) -> Retrieve {
    Retrieve::new("./rsc".to_string(), false, false, uris(list)).expect("fresh target accepted")
}

#[test]
fn target_regular_file_is_fatal() {
    let r = Retrieve::new("./rsc".to_string(), true, false, uris(&["https://x/a"]));
    let e = r.err().expect("a regular file as target must be refused");
    assert_eq!(e.path, "./rsc");
    assert_eq!(
        e.message(),
        "target directory for benchmarks is not a directory: ./rsc"
    );
}

#[test]
fn missing_target_is_accepted() {
    let r = Retrieve::new("./rsc".to_string(), false, false, uris(&["https://x/a"]));
    assert!(r.is_ok());
}

#[test]
fn rerun_on_populated_directory_is_accepted() {
    // The target already exists as a directory (a previous run created and
    // filled it): constructing the retriever again succeeds.
    let first = Retrieve::new("./rsc".to_string(), true, true, uris(&["https://x/a"]));
    assert!(first.is_ok());
    let again = Retrieve::new("./rsc".to_string(), true, true, uris(&["https://x/a"]));
    assert!(again.is_ok());
}

#[test]
fn empty_uri_list_trivially_succeeds() {
    let f = fresh(&[]);
    assert!(f.run(Vec::new()).is_ok());
}

#[test]
fn all_successes_give_ok() {
    let f = fresh(&["https://x/a", "https://x/b", "https://x/c"]);
    let outcomes = vec![None, None, None];
    assert!(f.run(outcomes).is_ok());
}

#[test]
fn failures_are_collected_exactly() {
    let f = fresh(&[
        "https://x/0",
        "https://x/1",
        "https://x/2",
        "https://x/3",
        "https://x/4",
    ]);
    let outcomes = vec![
        None,
        Some("connection refused".to_string()),
        None,
        Some("status 404".to_string()),
        None,
    ];
    let errs = f.run(outcomes).err().expect("two failures must give Err");
    assert_eq!(errs.len(), 2);
    assert_eq!(errs[0].uri, "https://x/1");
    assert_eq!(errs[0].reason, "connection refused");
    assert_eq!(errs[1].uri, "https://x/3");
    assert_eq!(errs[1].reason, "status 404");
}

#[test]
fn every_failure_gives_err() {
    let f = fresh(&["https://x/a", "https://x/b"]);
    let outcomes = vec![Some("a down".to_string()), Some("b down".to_string())];
    let errs = f.run(outcomes).err().expect("all failures must give Err");
    assert_eq!(errs.len(), 2);
    assert_eq!(errs[0].uri, "https://x/a");
    assert_eq!(errs[1].uri, "https://x/b");
}

#[test]
fn step_functions_walk_the_list() {
    let mut f = fresh(&["https://x/a", "https://x/b"]);
    assert_eq!(f.target_dir().as_str(), "./rsc");
    assert_eq!(f.pending().expect("first URI pending").as_str(), "https://x/a");
    f.record_success();
    assert_eq!(f.pending().expect("second URI pending").as_str(), "https://x/b");
    f.record_failure("timed out".to_string());
    assert!(f.pending().is_none());
    let errs = f.finish().err().expect("one failure must give Err");
    assert_eq!(errs.len(), 1);
    assert_eq!(errs[0].uri, "https://x/b");
    assert_eq!(errs[0].reason, "timed out");
}

#[test]
fn split_lines_basic() {
    assert_eq!(split_lines("ab\ncd"), vec!["ab", "cd"]);
}

#[test]
fn split_lines_empty_text_has_no_lines() {
    assert_eq!(split_lines(""), Vec::<String>::new());
}

#[test]
fn split_lines_drops_final_empty_segment() {
    assert_eq!(split_lines("x\n"), vec!["x"]);
}

#[test]
fn split_lines_keeps_inner_empty_lines() {
    assert_eq!(split_lines("a\n\nb"), vec!["a", "", "b"]);
}

#[test]
fn split_lines_strips_carriage_returns() {
    assert_eq!(split_lines("a\r\nb\n\nc\n"), vec!["a", "b", "", "c"]);
}

#[test]
fn split_lines_matches_std_lines() {
    let text = "one\r\ntwo\n\nthree\rtail";
    let expected: Vec<String> = text.lines().map(|l| l.to_string()).collect();
    assert_eq!(split_lines(text), expected);
}

#[test]
fn benchmark_list_has_every_uri() {
    let list = benchmark_uris();
    assert_eq!(list.len(), 400);
    assert_eq!(
        list[0],
        "https://gbd.iti.kit.edu/file/0151bedac526ee195bc52e4134cd80e7"
    );
    assert_eq!(
        list[399],
        "https://gbd.iti.kit.edu/file/b26e88b9b0d4b6f9e6ae95efe0b8df02"
    );
    for uri in &list {
        assert!(uri.starts_with("https://gbd.iti.kit.edu/file/"));
    }
    let expected: Vec<String> = uri_text_string().lines().map(|l| l.to_string()).collect();
    assert_eq!(list, expected);
}

#[test]
fn file_name_is_the_uri_tail() {
    assert_eq!(
        retrieve::names::file_name_for("https://gbd.iti.kit.edu/file/0151bedac526ee195bc52e4134cd80e7"),
        "0151bedac526ee195bc52e4134cd80e7"
    );
}

#[test]
fn file_name_without_slash_is_the_whole_uri() {
    assert_eq!(retrieve::names::file_name_for("plain"), "plain");
}

#[test]
fn file_name_after_trailing_slash_is_empty() {
    assert_eq!(retrieve::names::file_name_for("https://x/dir/"), "");
    assert_eq!(retrieve::names::file_name_for(""), "");
}

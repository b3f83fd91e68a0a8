use service_launcher::paths::{entry_script, fallback, marker_path};
use service_launcher::search::{resolve_root, RootSearch, SearchStep};

fn probe(step: SearchStep) -> RootSearch {
    match step {
        SearchStep::Probe(search) => search,
        SearchStep::Resolved(root) => panic!("resolved to {} too early", root),
    }
}

fn resolved(step: SearchStep) -> String {
    match step {
        SearchStep::Resolved(root) => root,
        SearchStep::Probe(search) => panic!("still probing {}", search.candidate()),
    }
}

#[test]
fn override_is_taken_verbatim_without_probing() {
    let step = RootSearch::begin(Some("relative/../odd path".to_string()), "/a/b/c".to_string());
    assert_eq!(resolved(step), "relative/../odd path");
}

#[test]
fn override_wins_over_every_mark() {
    let root = resolve_root(Some("/elsewhere".to_string()), "/a/b/c".to_string(), &vec![true; 5]);
    assert_eq!(root, "/elsewhere");
}

#[test]
fn empty_override_is_still_an_override() {
    let root = resolve_root(Some(String::new()), "/a/b/c".to_string(), &vec![true]);
    assert_eq!(root, "");
}

#[test]
fn search_starts_at_the_start_directory() {
    let search = probe(RootSearch::begin(None, "/r/packages/desktop/src-tauri".to_string()));
    assert_eq!(search.candidate(), "/r/packages/desktop/src-tauri");
    assert_eq!(search.level(), 0);
}

#[test]
fn marked_start_directory_is_the_root() {
    let search = probe(RootSearch::begin(None, "/r/packages/desktop/src-tauri".to_string()));
    assert_eq!(resolved(search.advance(true)), "/r/packages/desktop/src-tauri");
}

#[test]
fn search_climbs_one_parent_per_step() {
    let search = probe(RootSearch::begin(None, "/r/packages/desktop/src-tauri".to_string()));
    let search = probe(search.advance(false));
    assert_eq!(search.candidate(), "/r/packages/desktop");
    assert_eq!(search.level(), 1);
    let search = probe(search.advance(false));
    assert_eq!(search.candidate(), "/r/packages");
    assert_eq!(search.level(), 2);
    let search = probe(search.advance(false));
    assert_eq!(search.candidate(), "/r");
    assert_eq!(search.level(), 3);
    assert_eq!(resolved(search.advance(true)), "/r");
}

#[test]
fn search_gives_up_after_five_directories() {
    let mut search = probe(RootSearch::begin(None, "/1/2/3/4/5/6/7".to_string()));
    let mut seen = vec![search.candidate().to_string()];
    for _ in 0..4 {
        search = probe(search.advance(false));
        seen.push(search.candidate().to_string());
    }
    assert_eq!(seen, vec!["/1/2/3/4/5/6/7", "/1/2/3/4/5/6", "/1/2/3/4/5", "/1/2/3/4", "/1/2/3"]);
    assert_eq!(search.level(), 4);
    assert_eq!(resolved(search.advance(false)), "/1/2/3/4");
}

#[test]
fn fifth_directory_can_still_be_the_root() {
    let marks = vec![false, false, false, false, true];
    assert_eq!(resolve_root(None, "/1/2/3/4/5/6/7".to_string(), &marks), "/1/2/3");
}

#[test]
fn sixth_directory_is_out_of_reach() {
    let marks = vec![false, false, false, false, false, true];
    assert_eq!(resolve_root(None, "/1/2/3/4/5/6/7".to_string(), &marks), "/1/2/3/4");
}

#[test]
fn lowest_marked_directory_wins() {
    let marks = vec![false, true, false, true, true];
    assert_eq!(resolve_root(None, "/1/2/3/4/5/6/7".to_string(), &marks), "/1/2/3/4/5/6");
}

#[test]
fn missing_reports_count_as_unmarked() {
    assert_eq!(resolve_root(None, "/1/2/3/4/5/6/7".to_string(), &vec![]), "/1/2/3/4");
    assert_eq!(resolve_root(None, "/1/2/3/4/5/6/7".to_string(), &vec![false, false]), "/1/2/3/4");
}

#[test]
fn search_ends_where_the_parents_end() {
    let search = probe(RootSearch::begin(None, "/a".to_string()));
    let search = probe(search.advance(false));
    assert_eq!(search.candidate(), "/");
    assert_eq!(resolved(search.advance(false)), "/a");
}

#[test]
fn marks_above_the_top_are_not_hits() {
    let marks = vec![false, false, true, true, true];
    assert_eq!(resolve_root(None, "/a".to_string(), &marks), "/a");
    assert_eq!(resolve_root(None, "/a/b/c".to_string(), &marks), "/a");
}

#[test]
fn fallback_is_three_levels_up() {
    assert_eq!(fallback("/r/packages/desktop/src-tauri"), "/r");
    assert_eq!(fallback("/a/b/c"), "/");
    assert_eq!(fallback("a/b/c/d"), "a");
}

#[test]
fn fallback_is_the_start_where_the_chain_is_short() {
    assert_eq!(fallback("/a/b"), "/a/b");
    assert_eq!(fallback("/"), "/");
    assert_eq!(fallback(""), "");
    assert_eq!(fallback("a/b"), "a/b");
}

#[test]
fn marker_lies_inside_the_candidate() {
    assert_eq!(marker_path("/r"), "/r/ai");
    assert_eq!(marker_path("/r/packages/"), "/r/packages/ai");
}

#[test]
fn entry_script_lies_below_the_root() {
    assert_eq!(entry_script("/srv/app"), "/srv/app/packages/core/index.js");
    assert_eq!(entry_script("rel"), "rel/packages/core/index.js");
}

use cardbot::extract::{extract_references, scan_references, Mode};
use cardbot::normalize::{collapse, normalize, tidy};
use cardbot::pipeline::{on_message, search_url};

fn raw_pairs(text: &str) -> Vec<(Mode, String)> {
    scan_references(text).into_iter().map(|r| (r.mode, r.raw)).collect()
}

fn query_pairs(text: &str) -> Vec<(Mode, String)> {
    extract_references(text).into_iter().map(|r| (r.mode, r.query)).collect()
}

#[test]
fn exact_name_reference_is_found() {
    assert_eq!(
        query_pairs("Check out {{dragon}}"),
        vec![(Mode::ExactName, "dragon".to_string())]
    );
}

#[test]
fn free_search_reference_is_found() {
    assert_eq!(
        query_pairs("{{!type:flask}}"),
        vec![(Mode::FreeSearch, "type:flask".to_string())]
    );
}

#[test]
fn references_come_in_order_of_occurrence() {
    assert_eq!(
        raw_pairs("{{!x}} then {{y}} then {{!z}}"),
        vec![
            (Mode::FreeSearch, "x".to_string()),
            (Mode::ExactName, "y".to_string()),
            (Mode::FreeSearch, "z".to_string()),
        ]
    );
}

#[test]
fn text_without_references_gives_nothing() {
    assert!(raw_pairs("").is_empty());
    assert!(raw_pairs("no braces here").is_empty());
    assert!(raw_pairs("{{never closed").is_empty());
    assert!(raw_pairs("{a}} }}{{").is_empty());
}

#[test]
fn first_closing_pair_ends_the_reference() {
    assert_eq!(raw_pairs("{{a}}b}}"), vec![(Mode::ExactName, "a".to_string())]);
    assert_eq!(raw_pairs("{{a}}}"), vec![(Mode::ExactName, "a".to_string())]);
    assert_eq!(raw_pairs("{{}}"), vec![(Mode::ExactName, String::new())]);
}

#[test]
fn whole_run_of_bangs_is_dropped() {
    assert_eq!(raw_pairs("{{!!foo}}"), vec![(Mode::FreeSearch, "foo".to_string())]);
    assert_eq!(raw_pairs("{{!}}"), vec![(Mode::FreeSearch, String::new())]);
    assert_eq!(raw_pairs("{{! !a}}"), vec![(Mode::FreeSearch, " !a".to_string())]);
}

#[test]
fn bang_inside_the_content_keeps_exact_name() {
    assert_eq!(raw_pairs("{{a!b}}"), vec![(Mode::ExactName, "a!b".to_string())]);
    assert_eq!(raw_pairs("{{ !a}}"), vec![(Mode::ExactName, " !a".to_string())]);
}

#[test]
fn kinds_are_scanned_independently() {
    assert_eq!(
        raw_pairs("{{!x {{a}}"),
        vec![
            (Mode::FreeSearch, "x {{a".to_string()),
            (Mode::ExactName, "a".to_string()),
        ]
    );
    assert_eq!(
        raw_pairs("{{{!a}}"),
        vec![
            (Mode::ExactName, "{!a".to_string()),
            (Mode::FreeSearch, "a".to_string()),
        ]
    );
}

#[test]
fn same_kind_does_not_overlap() {
    assert_eq!(raw_pairs("{{a {{b}} c}}"), vec![(Mode::ExactName, "a {{b".to_string())]);
    assert_eq!(
        raw_pairs("{{a}}{{b}}"),
        vec![
            (Mode::ExactName, "a".to_string()),
            (Mode::ExactName, "b".to_string()),
        ]
    );
}

#[test]
fn repeated_references_are_all_kept() {
    assert_eq!(
        query_pairs("{{Imp}} {{imp}}"),
        vec![
            (Mode::ExactName, "imp".to_string()),
            (Mode::ExactName, "imp".to_string()),
        ]
    );
}

#[test]
fn content_may_span_lines_and_hold_other_scripts() {
    assert_eq!(raw_pairs("{{a\nb}}"), vec![(Mode::ExactName, "a\nb".to_string())]);
    assert_eq!(raw_pairs("é{{ñandú}}ü"), vec![(Mode::ExactName, "ñandú".to_string())]);
}

#[test]
fn collapse_cuts_runs_of_spaces() {
    assert_eq!(collapse("a   b  c"), "a b c");
    assert_eq!(collapse("  a"), " a");
    assert_eq!(collapse("a    "), "a ");
    assert_eq!(collapse(""), "");
    assert_eq!(collapse("a b"), "a b");
    assert_eq!(collapse("a \t  b"), "a \t b");
}

#[test]
fn collapse_twice_is_collapse_once() {
    for s in ["", " ", "   ", "a  b   c    d", "  x  ", "a b c"] {
        let once = collapse(s);
        assert_eq!(collapse(&once), once);
        assert!(!once.contains("  "));
    }
}

#[test]
fn tidy_trims_then_collapses() {
    assert_eq!(tidy("  a   b  "), "a b");
    assert_eq!(tidy("\t\n blood  moon \u{3000}"), "blood moon");
    assert_eq!(tidy("   "), "");
    assert_eq!(tidy("Keep Case"), "Keep Case");
}

#[test]
fn normalize_lowers_the_case() {
    assert_eq!(normalize("  Blood   MOON "), "blood moon");
    assert_eq!(normalize("ÉCLAT"), "éclat");
    assert_eq!(query_pairs("{{  Red   DRAGON }}"), vec![(Mode::ExactName, "red dragon".to_string())]);
    assert_eq!(query_pairs("{{!  C:Red  T:Imp}}"), vec![(Mode::FreeSearch, "c:red t:imp".to_string())]);
}

#[test]
fn messages_of_bots_are_ignored() {
    assert!(on_message("Check out {{dragon}}", true).is_empty());
    let refs = on_message("Check out {{dragon}}", false);
    assert_eq!(refs.len(), 1);
    assert_eq!(refs[0].mode, Mode::ExactName);
    assert_eq!(refs[0].query, "dragon");
}

#[test]
fn search_address_depends_on_the_kind() {
    let refs = extract_references("{{Dragon}} {{!type:flask}}");
    assert_eq!(search_url(&refs[0]), "https://hemolymph.net/search?query=n:\"dragon\"");
    assert_eq!(search_url(&refs[1]), "https://hemolymph.net/search?query=type:flask");
}

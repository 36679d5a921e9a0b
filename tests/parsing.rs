use simptui::equation::{assign_names, Equation};
use simptui::markdown::{equations_from_blocks, parse_markdown, BlockMatch};
use simptui::source::{confirmation_answer, detect_file_type, file_type_of_extension, normalized_answer};
use simptui::table::parse_table;

fn lines(v: &[&str]) -> Vec<String> {
    v.iter().map(|s| s.to_string()).collect()
}

fn names(eqs: &[Equation]) -> Vec<String> {
    eqs.iter().map(|e| e.name.clone()).collect()
}

#[test]
fn sanitize_replaces_disallowed_characters() {
    let e = Equation::new(true, "a b/c?.d", "x");
    assert_eq!(e.name, "a_b_c_.d");
    assert_eq!(e.body, "x");
    assert!(e.active);
}

#[test]
fn sanitize_empty_name_falls_back() {
    let e = Equation::new(false, "", " y ");
    assert_eq!(e.name, "default_equation");
    assert_eq!(e.body, " y ");
    assert!(!e.active);
}

#[test]
fn sanitize_all_disallowed_keeps_underscores() {
    let e = Equation::new(true, "???", "x");
    assert_eq!(e.name, "___");
}

#[test]
fn sanitize_non_ascii_is_one_underscore_per_character() {
    let e = Equation::new(true, "é∑x", "x");
    assert_eq!(e.name, "__x");
}

#[test]
fn sanitized_names_use_only_allowed_characters() {
    for raw in ["", "???", "a b", "ünï", "x.y_z", "\t\n"] {
        let e = Equation::new(true, raw, "b");
        assert!(!e.name.is_empty());
        assert!(e.name.chars().all(|c| c.is_ascii_alphanumeric() || c == '_' || c == '.'));
    }
}

#[test]
fn table_dedup_counts_per_base_name() {
    let eqs = parse_table(&lines(&[
        "active,body,name",
        "yes,a+b,alpha",
        "yes,c,beta",
        "no,d,alpha",
        "yes,e,alpha",
    ]));
    assert_eq!(names(&eqs), vec!["alpha", "beta", "alpha_1", "alpha_2"]);
}

#[test]
fn table_drops_short_rows_and_reads_flag_case_insensitively() {
    let eqs = parse_table(&lines(&[
        "active,body,name",
        "yes,only_two",
        "YES, x^2 , sq ,extra",
        "nope,y,z",
    ]));
    assert_eq!(eqs.len(), 2);
    assert!(eqs[0].active);
    assert_eq!(eqs[0].body, "x^2");
    assert_eq!(eqs[0].name, "sq");
    assert!(!eqs[1].active);
}

#[test]
fn table_blank_name_uses_fallback_and_counts() {
    let eqs = parse_table(&lines(&["h", "yes,a, ", "yes,b,"]));
    assert_eq!(names(&eqs), vec!["default_equation", "default_equation_1"]);
}

#[test]
fn table_header_only_or_empty_yields_nothing() {
    assert!(parse_table(&lines(&[])).is_empty());
    assert!(parse_table(&lines(&["yes,a,b"])).is_empty());
}

#[test]
fn table_dedup_before_sanitizing() {
    let eqs = parse_table(&lines(&["h", "yes,a,x y", "yes,b,x y"]));
    assert_eq!(names(&eqs), vec!["x_y", "x_y_1"]);
}

#[test]
fn dedup_suffix_reaches_two_digits() {
    let bases: Vec<String> = (0..12).map(|_| "n".to_string()).collect();
    let r = assign_names(&bases);
    assert_eq!(r[0], "n");
    assert_eq!(r[10], "n_10");
    assert_eq!(r[11], "n_11");
}

#[test]
fn markdown_markers_give_flag_and_name() {
    let eqs = parse_markdown("%%no%%\n$$ x^2 $$\n%%quad%%");
    assert_eq!(eqs.len(), 1);
    assert!(!eqs[0].active);
    assert_eq!(eqs[0].name, "quad");
    assert_eq!(eqs[0].body, "x^2");
}

#[test]
fn markdown_blocks_without_markers_use_fallback() {
    let eqs = parse_markdown("$$a$$\n$$b$$");
    assert_eq!(eqs.len(), 2);
    assert_eq!(names(&eqs), vec!["default_equation", "default_equation_1"]);
    assert!(eqs[0].active && eqs[1].active);
    assert_eq!(eqs[1].body, "b");
}

#[test]
fn markdown_multiline_body_and_yes_marker() {
    let eqs = parse_markdown("text\n%%yes%%\n$$\na = b\n + c\n$$\n%%sum%%\nmore $$ unterminated");
    assert_eq!(eqs.len(), 1);
    assert!(eqs[0].active);
    assert_eq!(eqs[0].body, "a = b\n + c");
    assert_eq!(eqs[0].name, "sum");
}

#[test]
fn markdown_without_blocks_yields_nothing() {
    assert!(parse_markdown("").is_empty());
    assert!(parse_markdown("no math here $ only").is_empty());
}

#[test]
fn blocks_to_equations() {
    let blocks = vec![
        BlockMatch { flag: Some("no".to_string()), body: " p ".to_string(), name: Some("q r".to_string()) },
        BlockMatch { flag: None, body: "s".to_string(), name: Some("q r".to_string()) },
        BlockMatch { flag: Some("yes".to_string()), body: "t".to_string(), name: None },
    ];
    let eqs = equations_from_blocks(&blocks);
    assert_eq!(names(&eqs), vec!["q_r", "q_r_1", "default_equation"]);
    assert!(!eqs[0].active && eqs[1].active && eqs[2].active);
    assert_eq!(eqs[0].body, "p");
}

#[test]
fn file_types_by_extension() {
    assert_eq!(detect_file_type("data/eqs.csv"), "csv");
    assert_eq!(detect_file_type("notes.md"), "markdown");
    assert_eq!(detect_file_type("notes.markdown"), "markdown");
    assert_eq!(detect_file_type("notes.txt"), "unknown");
    assert_eq!(detect_file_type("README"), "unknown");
    assert_eq!(file_type_of_extension(Some("csv")), "csv");
    assert_eq!(file_type_of_extension(Some("CSV")), "unknown");
    assert_eq!(file_type_of_extension(None), "unknown");
}

#[test]
fn confirmation_answers() {
    assert_eq!(confirmation_answer("  YES \n"), Some(true));
    assert_eq!(confirmation_answer("y"), Some(true));
    assert_eq!(confirmation_answer("No"), Some(false));
    assert_eq!(confirmation_answer(" n\n"), Some(false));
    assert_eq!(confirmation_answer("maybe"), None);
    assert_eq!(normalized_answer("yes"), Some(true));
    assert_eq!(normalized_answer("YES"), None);
}

#[test]
fn repeated_empty_base_names_stay_distinct() {
    let bases = vec![String::new(), String::new(), "a b".to_string(), "a b".to_string()];
    let actives = vec![true; 4];
    let bodies = vec!["x".to_string(); 4];
    let eqs = simptui::equation::build_equations(&actives, &bases, &bodies);
    assert_eq!(names(&eqs), vec!["default_equation", "_1", "a_b", "a_b_1"]);
}

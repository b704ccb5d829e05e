use raur::search::{aur_report, official_preview, plan_search, AurPackage, AurReport, AurResponse, SearchPlan};

fn pkg(name: &str, version: &str, description: Option<&str>) -> AurPackage {
    AurPackage {
        name: name.to_string(),
        version: version.to_string(),
        description: description.map(|d| d.to_string()),
    }
}

fn lines(v: Option<Vec<Vec<u8>>>) -> Vec<String> {
    v.unwrap().into_iter().map(|l| String::from_utf8(l).unwrap()).collect()
}

#[test]
fn both_filters_are_accepted_and_skip_both_sources() {
    assert_eq!(plan_search(true, true), SearchPlan { official: false, aur: false });
}

#[test]
fn pacman_only_skips_aur() {
    assert_eq!(plan_search(true, false), SearchPlan { official: true, aur: false });
}

#[test]
fn aur_only_skips_official() {
    assert_eq!(plan_search(false, true), SearchPlan { official: false, aur: true });
}

#[test]
fn no_filter_asks_both() {
    assert_eq!(plan_search(false, false), SearchPlan { official: true, aur: true });
}

#[test]
fn empty_official_output_is_not_found() {
    assert!(official_preview(&Vec::new()).is_none());
}

#[test]
fn preview_splits_lines_like_str_lines() {
    let out = b"core/a 1.0\r\n    first\n\nextra/b 2\rx\nlast".to_vec();
    assert_eq!(lines(official_preview(&out)), vec!["core/a 1.0", "    first", "", "extra/b 2\rx", "last"]);
}

#[test]
fn preview_drops_nothing_after_final_newline() {
    let out = b"one\ntwo\n".to_vec();
    assert_eq!(lines(official_preview(&out)), vec!["one", "two"]);
}

#[test]
fn preview_keeps_ten_lines() {
    let mut out = Vec::new();
    for i in 0..12 {
        out.extend_from_slice(format!("line{}\n", i).as_bytes());
    }
    let shown = lines(official_preview(&out));
    assert_eq!(shown.len(), 10);
    assert_eq!(shown[0], "line0");
    assert_eq!(shown[9], "line9");
}

#[test]
fn preview_of_a_lone_newline_is_one_empty_line() {
    assert_eq!(lines(official_preview(&b"\n".to_vec())), vec![""]);
}

#[test]
fn zero_results_is_not_found() {
    let resp = AurResponse { resultcount: 0, results: Vec::new() };
    assert!(matches!(aur_report(&resp), AurReport::NotFound));
}

#[test]
fn zero_count_shows_no_rows_even_with_results() {
    let resp = AurResponse { resultcount: 0, results: vec![pkg("a", "1", None)] };
    assert!(matches!(aur_report(&resp), AurReport::NotFound));
}

#[test]
fn three_results_give_three_rows_with_placeholder() {
    let resp = AurResponse {
        resultcount: 3,
        results: vec![
            pkg("yay", "12.3.5-1", Some("Yet another yogurt")),
            pkg("paru", "2.0.3-1", None),
            pkg("pikaur", "1.21-1", Some("AUR helper")),
        ],
    };
    match aur_report(&resp) {
        AurReport::Found { count, rows } => {
            assert_eq!(count, 3);
            assert_eq!(rows.len(), 3);
            assert_eq!(rows[0].name, "yay");
            assert_eq!(rows[0].version, "12.3.5-1");
            assert_eq!(rows[0].description, "Yet another yogurt");
            assert_eq!(rows[1].name, "paru");
            assert_eq!(rows[1].description, "No description");
            assert_eq!(rows[2].description, "AUR helper");
        }
        AurReport::NotFound => panic!("expected rows"),
    }
}

#[test]
fn more_than_ten_results_are_capped() {
    let results: Vec<AurPackage> = (0..15).map(|i| pkg(&format!("p{}", i), "1", None)).collect();
    let resp = AurResponse { resultcount: 15, results };
    match aur_report(&resp) {
        AurReport::Found { count, rows } => {
            assert_eq!(count, 15);
            assert_eq!(rows.len(), 10);
            assert_eq!(rows[9].name, "p9");
        }
        AurReport::NotFound => panic!("expected rows"),
    }
}

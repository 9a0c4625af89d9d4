use cortex::cache::cache_worker_pass;
use cortex::cache::{
    category_cache_keys, queue_changed, refreshed_severity_list, refreshes_categories,
    severity_cache_keys, skipped_by_cache_worker,
};
use cortex::report::{
    aux_pagination_globals, aux_severity_highlight, cache_base_key, report_cache_keys,
    report_globals, report_page, report_source, ReportParams, ReportSettings, ReportSlot,
    ReportSource,
};
use cortex::strmap::StrMap;

fn s(x: &str) -> Option<String> {
    Some(x.to_string())
}

#[test]
fn settings_defaults() {
    let d = ReportSettings::from_params(&None);
    assert!(!d.all_messages);
    assert_eq!(d.offset, 0);
    assert_eq!(d.page_size, 100);
    let p = ReportSettings::from_params(&Some(ReportParams { all: Some(true), offset: None, page_size: Some(50) }));
    assert!(p.all_messages);
    assert_eq!(p.offset, 0);
    assert_eq!(p.page_size, 50);
}

#[test]
fn highlights() {
    assert_eq!(aux_severity_highlight("no_problem"), "success");
    assert_eq!(aux_severity_highlight("warning"), "warning");
    assert_eq!(aux_severity_highlight("error"), "error");
    assert_eq!(aux_severity_highlight("fatal"), "danger");
    assert_eq!(aux_severity_highlight("invalid"), "info");
    assert_eq!(aux_severity_highlight("info"), "unknown");
}

#[test]
fn report_metadata_entries() {
    let g = report_globals("arXMLiv", "arXiv in XML", "tex_to_html", "LaTeXML", "tex", "html", &None, true);
    assert_eq!(g.get("title").unwrap(), "Corpus Report for arXMLiv");
    assert_eq!(
        g.get("description").unwrap(),
        "An analysis framework for corpora of TeX/LaTeX documents - statistical reports for arXMLiv"
    );
    assert_eq!(g.get("type").unwrap(), "Conversion");
    assert_eq!(g.get("all_messages").unwrap(), "true");
    assert_eq!(g.get("all_messages_true").unwrap(), "true");
    assert_eq!(g.get("inputconverter").unwrap(), "missing?");
    let g2 = report_globals("c", "d", "s", "e", "tex", "html", &s("import"), false);
    assert_eq!(g2.get("all_messages").unwrap(), "false");
    assert!(g2.get("all_messages_true").is_none());
    assert_eq!(g2.get("inputconverter").unwrap(), "import");
}

#[test]
fn report_levels() {
    let mut g = StrMap::new();
    let p = report_page(&mut g, &None, &None, &None);
    assert_eq!(p.template, "report");
    assert!(matches!(p.slot, ReportSlot::Progress));
    assert_eq!(g.len(), 0);

    let mut g = StrMap::new();
    let p = report_page(&mut g, &s("fatal"), &None, &None);
    assert_eq!(p.template, "severity-report");
    assert!(matches!(p.slot, ReportSlot::Categories));
    assert_eq!(g.get("highlight").unwrap(), "danger");

    let mut g = StrMap::new();
    let p = report_page(&mut g, &s("no_problem"), &None, &None);
    assert_eq!(p.template, "task-list-report");
    assert!(matches!(p.slot, ReportSlot::Entries));

    let mut g = StrMap::new();
    let p = report_page(&mut g, &s("error"), &s("no_messages"), &None);
    assert_eq!(p.template, "task-list-report");
    assert!(matches!(p.slot, ReportSlot::Entries));
    assert_eq!(g.get("category").unwrap(), "no_messages");

    let mut g = StrMap::new();
    let p = report_page(&mut g, &s("error"), &s("missing_file"), &None);
    assert_eq!(p.template, "category-report");
    assert!(matches!(p.slot, ReportSlot::Whats));

    let mut g = StrMap::new();
    let p = report_page(&mut g, &s("error"), &s("missing_file"), &s("foo.sty"));
    assert_eq!(p.template, "task-list-report");
    assert!(matches!(p.slot, ReportSlot::Entries));
    assert_eq!(g.get("what").unwrap(), "foo.sty");
}

#[test]
fn cache_keys_of_reports() {
    assert_eq!(cache_base_key(1, 2), "1_2");
    assert_eq!(
        report_cache_keys(1, 2, &s("warning"), &None, &None, false),
        Some(("1_2_warning".to_string(), "1_2_warning_time".to_string()))
    );
    assert_eq!(
        report_cache_keys(1, 2, &s("warning"), &s("missing_file"), &None, true),
        Some((
            "1_2_warning_missing_file_all_messages".to_string(),
            "1_2_warning_missing_file_all_messages_time".to_string()
        ))
    );
    assert_eq!(report_cache_keys(1, 2, &None, &None, &None, false).unwrap().0, "1_2");
    assert_eq!(report_cache_keys(1, 2, &s("no_problem"), &None, &None, false), None);
    assert_eq!(report_cache_keys(1, 2, &s("error"), &s("c"), &s("w"), false), None);
    assert_eq!(report_cache_keys(-3, 20, &None, &None, &None, false).unwrap().0, "-3_20");
}

#[test]
fn report_sources() {
    let keys = Some(("k".to_string(), "k_time".to_string()));
    assert!(matches!(report_source(&keys, 3), ReportSource::Cache));
    assert!(matches!(report_source(&keys, 0), ReportSource::FetchAndCache));
    assert!(matches!(report_source(&None, 3), ReportSource::Fetch));
}

#[test]
fn pagination_first_full_page() {
    let mut g = StrMap::new();
    aux_pagination_globals(&mut g, 0, 100, 100, "now".to_string());
    assert_eq!(g.get("from_offset").unwrap(), "0");
    assert!(g.get("offset_min_false").is_none());
    assert!(g.get("prev_offset").is_none());
    assert_eq!(g.get("offset_max_false").unwrap(), "true");
    assert_eq!(g.get("next_offset").unwrap(), "100");
    assert_eq!(g.get("to_offset").unwrap(), "100");
    assert_eq!(g.get("page_size").unwrap(), "100");
    assert_eq!(g.get("offset").unwrap(), "0");
    assert_eq!(g.get("report_time").unwrap(), "now");
}

#[test]
fn pagination_later_partial_page() {
    let mut g = StrMap::new();
    aux_pagination_globals(&mut g, 200, 100, 7, "t".to_string());
    assert_eq!(g.get("offset_min_false").unwrap(), "true");
    assert_eq!(g.get("prev_offset").unwrap(), "100");
    assert!(g.get("offset_max_false").is_none());
    assert_eq!(g.get("next_offset").unwrap(), "300");
}

#[test]
fn cache_worker_keys() {
    let sev: Vec<String> = refreshed_severity_list();
    assert_eq!(sev, vec!["invalid", "fatal", "error", "warning", "no_problem", "info"]);
    assert!(skipped_by_cache_worker("import"));
    assert!(!skipped_by_cache_worker("tex_to_html"));
    assert_eq!(
        severity_cache_keys("1_2", "error"),
        ("1_2_error".to_string(), "1_2_error_all_messages".to_string())
    );
    assert!(refreshes_categories("error"));
    assert!(!refreshes_categories("no_problem"));
    let mut rec = StrMap::new();
    rec.insert("name".to_string(), "missing_file".to_string());
    assert_eq!(
        category_cache_keys("1_2_error", &rec),
        Some(("1_2_error_missing_file".to_string(), "1_2_error_missing_file_all_messages".to_string()))
    );
    let mut total = StrMap::new();
    total.insert("name".to_string(), "total".to_string());
    assert_eq!(category_cache_keys("1_2_error", &total), None);
    assert_eq!(category_cache_keys("1_2_error", &StrMap::new()), None);
}

#[test]
fn invalidation_keys_match_report_keys() {
    let (k, all) = severity_cache_keys(&cache_base_key(4, 9), "fatal");
    assert_eq!(report_cache_keys(4, 9, &s("fatal"), &None, &None, false).unwrap().0, k);
    assert_eq!(report_cache_keys(4, 9, &s("fatal"), &None, &None, true).unwrap().0, all);
}

#[test]
fn queue_change_detection() {
    let mut seen: StrMap<usize> = StrMap::new();
    assert!(queue_changed(&seen, "1_2", 0));
    assert!(!queue_changed(&seen, "1_2", 999_999));
    seen.insert("1_2".to_string(), 5);
    assert!(!queue_changed(&seen, "1_2", 5));
    assert!(queue_changed(&seen, "1_2", 4));
}

#[test]
fn pagination_links_of_consecutive_pages_agree() {
    let mut here = StrMap::new();
    aux_pagination_globals(&mut here, 100, 50, 50, "t".to_string());
    let mut next = StrMap::new();
    aux_pagination_globals(&mut next, 150, 50, 10, "t".to_string());
    assert_eq!(next.get("offset"), here.get("next_offset"));
    assert_eq!(next.get("prev_offset"), here.get("offset"));
    assert_eq!(next.get("from_offset"), here.get("to_offset"));
}

#[test]
fn cache_worker_passes() {
    let mut seen: StrMap<usize> = StrMap::new();
    let first = cache_worker_pass(&mut seen, "tex_to_html", 1, 2, 10);
    assert_eq!(first.len(), 6);
    assert_eq!(first[0].severity, "invalid");
    assert_eq!(first[0].key, "1_2_invalid");
    assert_eq!(first[0].key_all_messages, "1_2_invalid_all_messages");
    assert!(first[0].refresh_categories);
    assert_eq!(first[4].severity, "no_problem");
    assert!(!first[4].refresh_categories);
    assert_eq!(seen.get("1_2"), Some(&10));
    let again = cache_worker_pass(&mut seen, "tex_to_html", 1, 2, 10);
    assert!(again.is_empty());
    let changed = cache_worker_pass(&mut seen, "tex_to_html", 1, 2, 3);
    assert_eq!(changed.len(), 6);
    assert_eq!(seen.get("1_2"), Some(&3));
    let import = cache_worker_pass(&mut seen, "import", 1, 5, 3);
    assert!(import.is_empty());
    assert!(seen.get("1_5").is_none());
    let unseen = cache_worker_pass(&mut seen, "svc", 7, 8, 999_999);
    assert!(unseen.is_empty());
}

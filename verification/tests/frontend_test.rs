use cortex::captcha::captcha_reply_text;
use cortex::pages::{
    dashboard_login_redirect, dashboard_registration, rerun_answer, rerun_corpus_name,
    worker_report_answer,
};
use cortex::captcha::{
    captcha_quota_step, captcha_remote_outcome, captcha_verification_body,
    captcha_verification_url, denied_redirect, entry_zip_path, recaptcha_response, QuotaStep,
};
use cortex::cors::CORS;
use cortex::dispatcher::{Finalize, ManagerError, TaskManager};
use cortex::pages::{
    add_corpus_message, add_corpus_permission, authorize_rerun, corpus_does_not_exist,
    corpus_globals, corpus_lookup_name, corpus_not_registered, count_finished_runs,
    dashboard_globals, dashboard_message, dashboard_visit, expire_captcha_globals, history_globals,
    root_globals, service_does_not_exist, worker_globals, DashboardVisit,
};
use cortex::strmap::StrMap;

#[test]
fn recaptcha_response_extraction() {
    assert_eq!(recaptcha_response(b"g-recaptcha-response=03AGdBq"), "03AGdBq");
    assert_eq!(recaptcha_response(b"g-recaptcha-response=a&g-recaptcha-response=b"), "ab");
    assert_eq!(recaptcha_response(b"g-recaptcha-response="), "_unknown_");
    assert_eq!(recaptcha_response(b"short"), "_unknown_");
    assert_eq!(recaptcha_response(b"g-recaptcha-response=\xff\xfe"), "_unknown_");
}

#[test]
fn quota_steps() {
    assert!(matches!(captcha_quota_step(0), QuotaStep::AskRemote));
    assert!(matches!(captcha_quota_step(1), QuotaStep::Grant { remaining: None }));
    assert!(matches!(captcha_quota_step(19), QuotaStep::Grant { remaining: Some(18) }));
    assert_eq!(captcha_remote_outcome(Some(true)), (true, Some(19)));
    assert_eq!(captcha_remote_outcome(Some(false)), (false, None));
    assert_eq!(captcha_remote_outcome(None), (false, None));
    assert_eq!(denied_redirect("abc"), "/expire_captcha");
    assert_eq!(denied_redirect("_unknown_"), "/");
}

#[test]
fn captcha_request() {
    assert_eq!(
        captcha_verification_url("s3cr3t", "tok"),
        "https://www.google.com/recaptcha/api/siteverify?secret=s3cr3t&response=tok"
    );
    assert_eq!(
        captcha_verification_body("s3cr3t", "t\"k"),
        "{\"secret\":\"\"s3cr3t\"\",\"response\":\"\"t\\\"k\"\"}"
    );
}

#[test]
fn zip_paths() {
    assert_eq!(entry_zip_path("import", "/data/arxiv/1234/paper.zip"), "/data/arxiv/1234/paper.zip");
    assert_eq!(
        entry_zip_path("tex_to_html", "/data/arxiv/1234/paper.zip"),
        "/data/arxiv/1234/tex_to_html.zip"
    );
    assert_eq!(entry_zip_path("tex_to_html", "/data/1501/1501.tex"), "/data/1501/tex_to_html.zip");
    assert_eq!(entry_zip_path("svc", "/data/dir/"), "/data/dir//svc.zip");
    assert_eq!(entry_zip_path("svc", "plain"), "plain/svc.zip");
    assert_eq!(entry_zip_path("svc", "a/b\nc"), "a/svc.zip");
}

#[test]
fn cors_headers() {
    let cors = CORS();
    assert_eq!(cors.name(), "Add CORS headers to requests");
    let r = cors.on_response(false, true);
    assert_eq!(r.headers.len(), 5);
    assert_eq!(r.headers[0], ("Access-Control-Allow-Origin".to_string(), "*".to_string()));
    assert_eq!(r.headers[1].1, "POST, GET, OPTIONS");
    assert!(!r.plain_empty_body);
    let p = cors.on_response(true, false);
    assert_eq!(p.headers.len(), 5);
    assert!(p.plain_empty_body);
    let n = cors.on_response(false, false);
    assert!(n.headers.is_empty());
}

#[test]
fn task_manager_defaults() {
    let m = TaskManager::with_backend_address("postgres://db".to_string());
    assert_eq!(m.source_port, 5555);
    assert_eq!(m.result_port, 5556);
    assert_eq!(m.queue_size, 100);
    assert_eq!(m.message_size, 100_000);
    assert_eq!(m.backend_address, "postgres://db");
    let v = m.ventilator_config();
    assert_eq!(v.port, 5555);
    let s = m.sink_config();
    assert_eq!(s.port, 5556);
    let f = m.finalize_config(Some(3));
    assert_eq!(f.job_limit, Some(3));
    assert_eq!(f.backend_address, m.backend_address);
}

#[test]
fn manager_outcomes() {
    let o = TaskManager::outcome(true, true, true);
    assert_eq!(o.message, "Manager successfully terminated!");
    assert!(o.result.is_ok());
    let o = TaskManager::outcome(false, false, true);
    assert_eq!(o.message, "Ventilator thread died unexpectedly!");
    assert!(matches!(o.result, Err(ManagerError::Terminated)));
    assert_eq!(TaskManager::outcome(true, false, false).message, "Sink thread died unexpectedly!");
    assert_eq!(TaskManager::outcome(true, true, false).message, "DB thread died unexpectedly!");
}

#[test]
fn finalize_steps() {
    let f = Finalize { backend_address: "db".to_string(), job_limit: Some(2) };
    let s = f.step(0, true);
    assert_eq!(s.jobs_count, 1);
    assert!(!s.sleep && !s.stop);
    let s = f.step(1, false);
    assert_eq!(s.jobs_count, 1);
    assert!(s.sleep && !s.stop);
    let s = f.step(1, true);
    assert_eq!(s.jobs_count, 2);
    assert!(s.stop);
    let unlimited = Finalize { backend_address: "db".to_string(), job_limit: None };
    assert!(!unlimited.step(1000, true).stop);
    let zero = Finalize { backend_address: "db".to_string(), job_limit: Some(0) };
    assert!(zero.step(0, false).stop);
    assert_eq!(Finalize::limit_message(5), "Manager job limit of 5 reached, terminating IO thread...");
}

#[test]
fn page_globals() {
    let mut g = StrMap::new();
    root_globals(&mut g);
    assert_eq!(g.get("title").unwrap(), "Overview of available Corpora");
    let mut g = StrMap::new();
    corpus_globals(&mut g, "arXMLiv", "desc");
    assert_eq!(g.get("title").unwrap(), "Registered services for arXMLiv");
    assert_eq!(g.get("corpus_description").unwrap(), "desc");
    let mut g = StrMap::new();
    worker_globals(&mut g, "tex_to_html", "d");
    assert_eq!(g.get("title").unwrap(), "Worker report for service tex_to_html ");
    assert_eq!(g.get("corpus_name_uri").unwrap(), "../");
    let mut g = StrMap::new();
    history_globals(&mut g, "tex_to_html", "arxmliv", Some(3));
    assert_eq!(g.get("history_length").unwrap(), "3");
    assert_eq!(g.get("description").unwrap(), "Historical runs of service tex_to_html over corpus arxmliv");
    let mut g = StrMap::new();
    history_globals(&mut g, "s", "c", None);
    assert!(g.get("history_length").is_none());
    let mut g = StrMap::new();
    expire_captcha_globals(&mut g);
    assert_eq!(g.get("description").unwrap(), "Expire captcha cache for CorTeX.");
    assert_eq!(corpus_not_registered("x"), "Corpus x is not registered");
    assert_eq!(corpus_does_not_exist("x"), "Corpus x does not exist.");
    assert_eq!(service_does_not_exist("y"), "Service y does not exist.");
}

#[test]
fn finished_runs_count() {
    let ends = vec!["2020-01-01".to_string(), String::new(), "x".to_string()];
    assert_eq!(count_finished_runs(&ends), 2);
    assert_eq!(count_finished_runs(&Vec::new()), 0);
}

#[test]
fn dashboard() {
    assert!(matches!(dashboard_visit(true, Some(true)), DashboardVisit::FirstAdmin));
    assert!(matches!(dashboard_visit(false, Some(false)), DashboardVisit::KnownUser { admin: false }));
    assert!(matches!(dashboard_visit(false, None), DashboardVisit::NewViewer));
    assert_eq!(
        dashboard_message(&DashboardVisit::FirstAdmin, "a@b.c", true),
        "Registered admin user for \"a@b.c\""
    );
    assert_eq!(
        dashboard_message(&DashboardVisit::FirstAdmin, "a@b.c", false),
        "Failed to create user for \"a@b.c\""
    );
    assert_eq!(
        dashboard_message(&DashboardVisit::KnownUser { admin: true }, "a@b.c", false),
        "Signed in as \"a@b.c\" (admin)"
    );
    assert_eq!(
        dashboard_message(&DashboardVisit::KnownUser { admin: false }, "a@b.c", false),
        "Signed in as \"a@b.c\" "
    );
    assert_eq!(
        dashboard_message(&DashboardVisit::NewViewer, "a@b.c", true),
        "Registered viewer-level user for \"a@b.c\""
    );
    let mut g = StrMap::new();
    dashboard_globals(&mut g, "hi".to_string());
    assert_eq!(g.get("title").unwrap(), "Admin Interface");
    assert_eq!(g.get("message").unwrap(), "hi");
}

#[test]
fn add_corpus_decisions() {
    assert_eq!(add_corpus_permission(false, Some(true)), Err("could not verify OAuth login"));
    assert_eq!(add_corpus_permission(true, None), Err("no registered user for your email"));
    assert_eq!(
        add_corpus_permission(true, Some(false)),
        Err("User must be admin to execute dashboard actions")
    );
    assert_eq!(add_corpus_permission(true, Some(true)), Ok(()));
    assert_eq!(add_corpus_message(true), "successfully added corpus to DB");
    assert_eq!(add_corpus_message(false), "failed to create corpus in DB");
}

#[test]
fn rerun_authorization() {
    let mut tokens = StrMap::new();
    tokens.insert("secret-token".to_string(), "admin".to_string());
    assert_eq!(authorize_rerun(&tokens, b"secret-token"), Ok("admin".to_string()));
    assert_eq!(authorize_rerun(&tokens, b"other"), Err("Access Denied".to_string()));
    assert_eq!(authorize_rerun(&tokens, b"\xff"), Err("Access Denied".to_string()));
    tokens.insert("_unknown_".to_string(), "anyone".to_string());
    assert_eq!(authorize_rerun(&tokens, b"\xff"), Ok("anyone".to_string()));
}

#[test]
fn corpus_names_are_lowercased() {
    assert_eq!(corpus_lookup_name("ArXMLiv"), "arxmliv");
}

#[test]
fn message_texts_from_given_parts() {
    assert_eq!(
        cortex::pages::dashboard_message_text(&DashboardVisit::KnownUser { admin: true }, "E", true),
        "Signed in as E (admin)"
    );
    assert_eq!(
        cortex::pages::dashboard_message_text(&DashboardVisit::NewViewer, "E", false),
        "Failed to create user for E"
    );
    assert_eq!(
        cortex::captcha::verification_body_text("S", "R"),
        "{\"secret\":\"S\",\"response\":\"R\"}"
    );
}

#[test]
fn twenty_downloads_per_verified_response() {
    let (verified, stored) = captcha_remote_outcome(Some(true));
    assert!(verified);
    let mut quota = stored.unwrap();
    let mut downloads = 1;
    loop {
        match captcha_quota_step(quota) {
            QuotaStep::AskRemote => break,
            QuotaStep::Grant { remaining } => {
                downloads += 1;
                quota = remaining.unwrap_or(0);
            },
        }
    }
    assert_eq!(downloads, 20);
}

#[test]
fn dashboard_registrations() {
    assert_eq!(dashboard_registration(&dashboard_visit(true, None)), Some(true));
    assert_eq!(dashboard_registration(&dashboard_visit(false, None)), Some(false));
    assert_eq!(dashboard_registration(&dashboard_visit(false, Some(true))), None);
    assert_eq!(dashboard_login_redirect(false), Some("/"));
    assert_eq!(dashboard_login_redirect(true), None);
}

#[test]
fn rerun_and_worker_answers() {
    assert_eq!(worker_report_answer(false), Err("no such service"));
    assert_eq!(worker_report_answer(true), Ok(()));
    assert_eq!(rerun_answer(true, true, true), Ok(()));
    assert_eq!(rerun_answer(false, true, true), Err("Access Denied"));
    assert_eq!(rerun_answer(true, false, true), Err("Access Denied"));
    assert_eq!(rerun_answer(true, true, false), Err("Access Denied"));
    assert_eq!(rerun_corpus_name("ArXMLiv", &None), "arxmliv");
    assert_eq!(rerun_corpus_name("ArXMLiv", &Some("error".to_string())), "ArXMLiv");
}

#[test]
fn captcha_reply_texts() {
    assert_eq!(captcha_reply_text(b"{\"success\": true}"), Some("{\"success\": true}".to_string()));
    assert_eq!(captcha_reply_text(b"\xff"), None);
}

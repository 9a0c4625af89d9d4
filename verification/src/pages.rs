//! The global entries, messages and access decisions of the frontend's pages.
use vstd::prelude::*;
use crate::captcha::{debug_text, utf8_text, UNKNOWN};
use crate::strmap::StrMap;
use crate::text::{join_text, decimal_string, push_str, string_from};

verus! {

/// The description every page of the analysis framework starts with.
pub open spec fn framework_description() -> Seq<char> {
    "An analysis framework for corpora of TeX/LaTeX documents - "@
}

/// Fills the global entries of the overview page.
pub fn root_globals(global: &mut StrMap<String>)
    ensures
        final(global)@ == old(global)@.insert("title"@, "Overview of available Corpora"@).insert(
            "description"@,
            "An analysis framework for corpora of TeX/LaTeX documents - overview page"@,
        ),
{
    global.insert(string_from("title"), string_from("Overview of available Corpora"));
    global.insert(
        string_from("description"),
        string_from("An analysis framework for corpora of TeX/LaTeX documents - overview page"),
    );
}

/// Fills the global entries of the page listing a corpus's services.
pub fn corpus_globals(global: &mut StrMap<String>, corpus_name: &str, corpus_description: &str)
    ensures
        final(global)@ == old(global)@.insert(
            "title"@,
            "Registered services for "@ + corpus_name@,
        ).insert(
            "description"@,
            "An analysis framework for corpora of TeX/LaTeX documents - registered services for "@
                + corpus_name@,
        ).insert("corpus_name"@, corpus_name@).insert("corpus_description"@, corpus_description@),
{
    global.insert(string_from("title"), join_text("Registered services for ", corpus_name));
    global.insert(
        string_from("description"),
        join_text(
            "An analysis framework for corpora of TeX/LaTeX documents - registered services for ",
            corpus_name,
        ),
    );
    global.insert(string_from("corpus_name"), string_from(corpus_name));
    global.insert(string_from("corpus_description"), string_from(corpus_description));
}

/// The answer for a corpus that is not registered.
pub fn corpus_not_registered(corpus_name: &str) -> (r: String)
    ensures
        r@ == "Corpus "@ + corpus_name@ + " is not registered"@,
{
    let mut r = join_text("Corpus ", corpus_name);
    push_str(&mut r, " is not registered");
    r
}

/// The answer of a report for a corpus that does not exist.
pub fn corpus_does_not_exist(corpus_name: &str) -> (r: String)
    ensures
        r@ == "Corpus "@ + corpus_name@ + " does not exist."@,
{
    let mut r = join_text("Corpus ", corpus_name);
    push_str(&mut r, " does not exist.");
    r
}

/// The answer of a report for a service that does not exist.
pub fn service_does_not_exist(service_name: &str) -> (r: String)
    ensures
        r@ == "Service "@ + service_name@ + " does not exist."@,
{
    let mut r = join_text("Service ", service_name);
    push_str(&mut r, " does not exist.");
    r
}

/// Fills the global entries of a service's worker report. Its links lead to the
/// overview, since the report covers all corpora.
pub fn worker_globals(global: &mut StrMap<String>, service_name: &str, service_description: &str)
    ensures
        final(global)@ == old(global)@.insert(
            "title"@,
            "Worker report for service "@ + service_name@ + " "@,
        ).insert(
            "description"@,
            "Worker report for service "@ + service_name@
                + " as registered by the CorTeX dispatcher"@,
        ).insert("corpus_name"@, "all"@).insert("service_name"@, service_name@).insert(
            "service_description"@,
            service_description@,
        ).insert("corpus_name_uri"@, "../"@).insert("service_name_uri"@, "../"@),
{
    let mut title = join_text("Worker report for service ", service_name);
    push_str(&mut title, " ");
    global.insert(string_from("title"), title);
    let mut description = join_text("Worker report for service ", service_name);
    push_str(&mut description, " as registered by the CorTeX dispatcher");
    global.insert(string_from("description"), description);
    global.insert(string_from("corpus_name"), string_from("all"));
    global.insert(string_from("service_name"), string_from(service_name));
    global.insert(string_from("service_description"), string_from(service_description));
    global.insert(string_from("corpus_name_uri"), string_from("../"));
    global.insert(string_from("service_name_uri"), string_from("../"));
}

/// The number of runs that have ended (a non-empty end time).
pub open spec fn finished_runs(end_times: Seq<Seq<char>>) -> nat
    decreases end_times.len(),
{
    if end_times.len() == 0 {
        0
    } else {
        finished_runs(end_times.drop_last()) + if end_times.last().len() > 0 {
            1nat
        } else {
            0nat
        }
    }
}

/// Counting finished runs adds up over consecutive lists of runs, and a single
/// run counts one when it has an end time and none otherwise; so no more runs
/// finish than there are.
pub proof fn law_finished_runs_count(a: Seq<Seq<char>>, b: Seq<Seq<char>>, t: Seq<char>)
    ensures
        finished_runs(a + b) == finished_runs(a) + finished_runs(b),
        finished_runs(seq![t]) == (if t.len() > 0 {
            1nat
        } else {
            0nat
        }),
        finished_runs(a) <= a.len(),
    decreases b.len(),
{
    if b.len() == 0 {
        assert(a + b =~= a);
    } else {
        law_finished_runs_count(a, b.drop_last(), t);
        assert((a + b).drop_last() =~= a + b.drop_last());
        assert((a + b).last() == b.last());
        assert(finished_runs(a + b) == finished_runs(a + b.drop_last()) + (if b.last().len() > 0 {
            1nat
        } else {
            0nat
        }));
        assert(finished_runs(b) == finished_runs(b.drop_last()) + (if b.last().len() > 0 {
            1nat
        } else {
            0nat
        }));
    }
    assert(seq![t].drop_last() =~= Seq::<Seq<char>>::empty());
    assert(finished_runs(Seq::<Seq<char>>::empty()) == 0);
    assert(seq![t].last() == t);
    lemma_finished_runs_bounded(a);
}

proof fn lemma_finished_runs_bounded(a: Seq<Seq<char>>)
    ensures
        finished_runs(a) <= a.len(),
    decreases a.len(),
{
    if a.len() > 0 {
        lemma_finished_runs_bounded(a.drop_last());
    }
}

/// Counts the runs that have ended.
pub fn count_finished_runs(end_times: &Vec<String>) -> (n: usize)
    ensures
        n == finished_runs(end_times@.map_values(|s: String| s@)),
{
    let ghost views = end_times@.map_values(|s: String| s@);
    let mut n: usize = 0;
    for i in 0..end_times.len()
        invariant
            views == end_times@.map_values(|s: String| s@),
            n == finished_runs(views.take(i as int)),
            n <= i,
    {
        assert(views.take(i + 1).drop_last() == views.take(i as int));
        if !end_times[i].as_str().is_empty() {
            n = n + 1;
        }
    }
    assert(views.take(end_times@.len() as int) == views);
    n
}

/// Fills the global entries of the page of historical runs: the number of
/// finished runs when the runs could be loaded, then the description and names.
pub fn history_globals(
    global: &mut StrMap<String>,
    service_name: &str,
    corpus_name: &str,
    finished: Option<usize>,
)
    ensures
        final(global)@ == (match finished {
            Some(n) => old(global)@.insert("history_length"@, crate::text::decimal(n as int)),
            None => old(global)@,
        }).insert(
            "description"@,
            "Historical runs of service "@ + service_name@ + " over corpus "@ + corpus_name@,
        ).insert("service_name"@, service_name@).insert("corpus_name"@, corpus_name@),
{
    match finished {
        Some(n) => {
            global.insert(string_from("history_length"), decimal_string(n as i128));
        },
        None => {},
    }
    let mut description = join_text("Historical runs of service ", service_name);
    push_str(&mut description, " over corpus ");
    push_str(&mut description, corpus_name);
    global.insert(string_from("description"), description);
    global.insert(string_from("service_name"), string_from(service_name));
    global.insert(string_from("corpus_name"), string_from(corpus_name));
}

/// Fills the global entries of the page that expires the captcha cache.
pub fn expire_captcha_globals(global: &mut StrMap<String>)
    ensures
        final(global)@ == old(global)@.insert("description"@, "Expire captcha cache for CorTeX."@),
{
    global.insert(string_from("description"), string_from("Expire captcha cache for CorTeX."));
}

/// Who signs in to the admin dashboard.
pub enum DashboardVisit {
    /// The first user of an empty user table, registered as admin.
    FirstAdmin,
    /// A registered user.
    KnownUser { admin: bool },
    /// A new user, registered as viewer.
    NewViewer,
}

/// Who a visitor is, from whether the user table is empty and, if the visitor
/// is registered, whether as admin.
pub open spec fn visit_of(no_users: bool, registered_admin: Option<bool>) -> DashboardVisit {
    if no_users {
        DashboardVisit::FirstAdmin
    } else {
        match registered_admin {
            Some(admin) => DashboardVisit::KnownUser { admin },
            None => DashboardVisit::NewViewer,
        }
    }
}

/// The user a visit registers, by its admin flag: an admin for the first user,
/// a viewer for a new one, nobody for a registered one.
pub open spec fn registration(visit: DashboardVisit) -> Option<bool> {
    match visit {
        DashboardVisit::FirstAdmin => Some(true),
        DashboardVisit::NewViewer => Some(false),
        DashboardVisit::KnownUser { .. } => None,
    }
}

/// The user a visit registers, by its admin flag, if any.
pub fn dashboard_registration(visit: &DashboardVisit) -> (r: Option<bool>)
    ensures
        r == registration(*visit),
{
    match visit {
        DashboardVisit::FirstAdmin => Some(true),
        DashboardVisit::NewViewer => Some(false),
        DashboardVisit::KnownUser { .. } => None,
    }
}

/// Where a dashboard request without a verified login is sent: the front page.
pub fn dashboard_login_redirect(login_verified: bool) -> (r: Option<&'static str>)
    ensures
        login_verified ==> r is None,
        !login_verified ==> (r matches Some(to) && to@ == "/"@),
{
    if login_verified {
        None
    } else {
        Some("/")
    }
}

/// A visit to the dashboard registers at most one user, and only one that was
/// not registered: an admin exactly when the user table was empty, a viewer
/// otherwise; a registered user is registered again never, so no admin flag
/// changes. The message says which.
pub proof fn law_dashboard_registers_at_most_one(
    no_users: bool,
    registered_admin: Option<bool>,
    email: Seq<char>,
)
    ensures
        registration(visit_of(no_users, registered_admin)) == (if no_users {
            Some(true)
        } else if registered_admin is Some {
            None::<bool>
        } else {
            Some(false)
        }),
        no_users ==> dashboard_message_of(visit_of(no_users, registered_admin), email, true)
            == "Registered admin user for "@ + crate::captcha::debug_repr(email),
        !no_users && registered_admin is None ==> dashboard_message_of(
            visit_of(no_users, registered_admin),
            email,
            true,
        ) == "Registered viewer-level user for "@ + crate::captcha::debug_repr(email),
{
}

/// The first user ever becomes admin; a registered user signs in; anyone else is
/// registered as a viewer.
pub fn dashboard_visit(no_users: bool, registered_admin: Option<bool>) -> (r: DashboardVisit)
    ensures
        r == visit_of(no_users, registered_admin),
{
    if no_users {
        DashboardVisit::FirstAdmin
    } else {
        match registered_admin {
            Some(admin) => DashboardVisit::KnownUser { admin },
            None => DashboardVisit::NewViewer,
        }
    }
}

/// The message of the admin dashboard, with `e` standing for the email.
pub open spec fn dashboard_text(visit: DashboardVisit, e: Seq<char>, created: bool) -> Seq<char> {
    match visit {
        DashboardVisit::FirstAdmin => if created {
            "Registered admin user for "@ + e
        } else {
            "Failed to create user for "@ + e
        },
        DashboardVisit::KnownUser { admin } => "Signed in as "@ + e + " "@ + if admin {
            "(admin)"@
        } else {
            Seq::empty()
        },
        DashboardVisit::NewViewer => if created {
            "Registered viewer-level user for "@ + e
        } else {
            "Failed to create user for "@ + e
        },
    }
}

/// The message of the admin dashboard, with the email in its `Debug` form.
pub open spec fn dashboard_message_of(visit: DashboardVisit, email: Seq<char>, created: bool) -> Seq<char> {
    dashboard_text(visit, crate::captcha::debug_repr(email), created)
}

/// The message of the admin dashboard for a visit, given the text that stands
/// for the user; `created` tells whether registering a new user succeeded.
pub fn dashboard_message_text(visit: &DashboardVisit, email_text: &str, created: bool) -> (r: String)
    ensures
        r@ == dashboard_text(*visit, email_text@, created),
{
    match visit {
        DashboardVisit::FirstAdmin => {
            if created {
                join_text("Registered admin user for ", email_text)
            } else {
                join_text("Failed to create user for ", email_text)
            }
        },
        DashboardVisit::KnownUser { admin } => {
            let mut m = join_text("Signed in as ", email_text);
            push_str(&mut m, " ");
            if *admin {
                push_str(&mut m, "(admin)");
            } else {
                proof {
                    assert(""@ =~= Seq::<char>::empty()) by {
                        reveal_strlit("");
                    }
                }
                push_str(&mut m, "");
            }
            m
        },
        DashboardVisit::NewViewer => {
            if created {
                join_text("Registered viewer-level user for ", email_text)
            } else {
                join_text("Failed to create user for ", email_text)
            }
        },
    }
}

/// The message of the admin dashboard, with the email in its `Debug` form; `created`
/// tells whether registering a new user succeeded.
pub fn dashboard_message(visit: &DashboardVisit, email: &str, created: bool) -> (r: String)
    ensures
        r@ == dashboard_message_of(*visit, email@, created),
{
    let e = debug_text(email);
    dashboard_message_text(visit, e.as_str(), created)
}

/// Fills the global entries of the admin dashboard.
pub fn dashboard_globals(global: &mut StrMap<String>, message: String)
    ensures
        final(global)@ == old(global)@.insert("message"@, message@).insert(
            "title"@,
            "Admin Interface"@,
        ).insert(
            "description"@,
            "An analysis framework for corpora of TeX/LaTeX documents - admin interface."@,
        ),
{
    global.insert(string_from("message"), message);
    global.insert(string_from("title"), string_from("Admin Interface"));
    global.insert(
        string_from("description"),
        string_from("An analysis framework for corpora of TeX/LaTeX documents - admin interface."),
    );
}

/// Whether a dashboard request may add a corpus: it needs a verified login of a
/// registered admin; otherwise the reason it is refused.
pub fn add_corpus_permission(login_verified: bool, registered_admin: Option<bool>) -> (r: Result<
    (),
    &'static str,
>)
    ensures
        !login_verified ==> (r matches Err(m) && m@ == "could not verify OAuth login"@),
        login_verified && registered_admin is None ==> (r matches Err(m) && m@
            == "no registered user for your email"@),
        login_verified && registered_admin == Some(false) ==> (r matches Err(m) && m@
            == "User must be admin to execute dashboard actions"@),
        login_verified && registered_admin == Some(true) ==> r is Ok,
{
    if !login_verified {
        return Err("could not verify OAuth login");
    }
    match registered_admin {
        None => Err("no registered user for your email"),
        Some(false) => Err("User must be admin to execute dashboard actions"),
        Some(true) => Ok(()),
    }
}

/// The answer to adding a corpus, by whether it was stored.
pub fn add_corpus_message(created: bool) -> (r: &'static str)
    ensures
        r@ == (if created {
            "successfully added corpus to DB"@
        } else {
            "failed to create corpus in DB"@
        }),
{
    if created {
        "successfully added corpus to DB"
    } else {
        "failed to create corpus in DB"
    }
}

/// The answer to a refused rerun request.
pub const ACCESS_DENIED: &'static str = "Access Denied";

/// The answer of the worker report of a service, by whether the service exists.
pub fn worker_report_answer(service_found: bool) -> (r: Result<(), &'static str>)
    ensures
        service_found ==> r is Ok,
        !service_found ==> (r matches Err(m) && m@ == "no such service"@),
{
    if service_found {
        Ok(())
    } else {
        Err("no such service")
    }
}

/// The answer to an authorized rerun request: accepted when the corpus and the
/// service exist and the tasks were marked; `Access Denied` otherwise.
pub fn rerun_answer(corpus_found: bool, service_found: bool, marked: bool) -> (r: Result<(), &'static str>)
    ensures
        corpus_found && service_found && marked ==> r is Ok,
        !(corpus_found && service_found && marked) ==> (r matches Err(m) && m@ == ACCESS_DENIED@),
{
    if corpus_found && service_found && marked {
        Ok(())
    } else {
        Err(ACCESS_DENIED)
    }
}

/// The name under which a rerun request looks up its corpus: in lower case for
/// a rerun of a whole corpus (no severity given), as sent for the others.
pub fn rerun_corpus_name(corpus_name: &str, severity: &Option<String>) -> (r: String)
    ensures
        severity is None ==> r@ == lowercase_of(corpus_name@),
        severity is Some ==> r@ == corpus_name@,
{
    match severity {
        None => lowercase(corpus_name),
        Some(_) => string_from(corpus_name),
    }
}

/// The rerun token sent in a request body: its UTF-8 text, or `_unknown_`.
pub open spec fn rerun_token_of(token_bytes: Seq<u8>) -> Seq<char> {
    crate::captcha::text_or_unknown(token_bytes)
}

/// The user a rerun token belongs to, or `Access Denied` for a token that is
/// not among the configured ones.
pub fn authorize_rerun(rerun_tokens: &StrMap<String>, token_bytes: &[u8]) -> (r: Result<String, String>)
    ensures
        rerun_tokens@.contains_key(rerun_token_of(token_bytes@)) ==> (r matches Ok(user) && user@
            == rerun_tokens@[rerun_token_of(token_bytes@)]),
        !rerun_tokens@.contains_key(rerun_token_of(token_bytes@)) ==> (r matches Err(m) && m@
            == ACCESS_DENIED@),
{
    let token = match utf8_text(token_bytes) {
        Some(t) => t,
        None => string_from(UNKNOWN),
    };
    match rerun_tokens.get(token.as_str()) {
        Some(user) => Ok(user.clone()),
        None => Err(string_from(ACCESS_DENIED)),
    }
}

/// The frontend's secrets: the reCAPTCHA secret and the rerun tokens, each
/// mapped to the user it belongs to.
pub struct CortexConfig {
    pub captcha_secret: String,
    pub rerun_tokens: StrMap<String>,
}

/// What `str::to_lowercase` gives for a string (Unicode lower case).
pub uninterp spec fn lowercase_of(s: Seq<char>) -> Seq<char>;

/// Calls `str::to_lowercase`. Claimed: the result depends on `s` alone (it is
/// named, not described).
#[verifier::external_body]
fn lowercase(s: &str) -> (r: String)
    ensures
        r@ == lowercase_of(s@),
{
    s.to_lowercase()
}

/// The name under which a corpus is looked up for its history and its reruns:
/// the name in lower case.
pub fn corpus_lookup_name(corpus_name: &str) -> (r: String)
    ensures
        r@ == lowercase_of(corpus_name@),
{
    lowercase(corpus_name)
}

} // verus!

//! Report pages: which level and template a request selects, the metadata of a
//! report, its cache keys and its pagination.
use vstd::prelude::*;
use crate::strmap::StrMap;
use crate::text::{decimal_string, push_str, same_text, string_from};

verus! {

/// The view of an optional string.
pub open spec fn opt_text(o: Option<String>) -> Option<Seq<char>> {
    match o {
        Some(s) => Some(s@),
        None => None,
    }
}

/// Whether an optional string holds exactly `t`.
pub fn opt_is(o: &Option<String>, t: &str) -> (r: bool)
    ensures
        r == (opt_text(*o) == Some(t@)),
{
    match o {
        Some(s) => same_text(s.as_str(), t),
        None => false,
    }
}

/// Query parameters of a report page.
pub struct ReportParams {
    pub all: Option<bool>,
    pub offset: Option<i64>,
    pub page_size: Option<i64>,
}

/// Whether a report lists all messages, and which page of it is shown.
pub struct ReportSettings {
    pub all_messages: bool,
    pub offset: i64,
    pub page_size: i64,
}

impl ReportSettings {
    /// The settings that query parameters select: all messages only when asked for,
    /// offset 0 and page size 100 unless given.
    pub fn from_params(params: &Option<ReportParams>) -> (s: Self)
        ensures
            s.all_messages == match params {
                Some(p) => p.all == Some(true),
                None => false,
            },
            s.offset == match params {
                Some(p) => match p.offset {
                    Some(o) => o,
                    None => 0,
                },
                None => 0,
            },
            s.page_size == match params {
                Some(p) => match p.page_size {
                    Some(n) => n,
                    None => 100,
                },
                None => 100,
            },
    {
        match params {
            None => ReportSettings { all_messages: false, offset: 0, page_size: 100 },
            Some(p) => ReportSettings {
                all_messages: match p.all {
                    Some(a) => a,
                    None => false,
                },
                offset: match p.offset {
                    Some(o) => o,
                    None => 0,
                },
                page_size: match p.page_size {
                    Some(n) => n,
                    None => 100,
                },
            },
        }
    }
}

/// The text of a boolean as `to_string` writes it.
pub open spec fn bool_text(b: bool) -> Seq<char> {
    if b {
        "true"@
    } else {
        "false"@
    }
}

/// `true` or `false`.
pub fn bool_string(b: bool) -> (r: String)
    ensures
        r@ == bool_text(b),
{
    if b {
        string_from("true")
    } else {
        string_from("false")
    }
}

/// The global entries every report page starts with.
pub open spec fn report_metadata(
    corpus_name: Seq<char>,
    corpus_description: Seq<char>,
    service_name: Seq<char>,
    service_description: Seq<char>,
    inputformat: Seq<char>,
    outputformat: Seq<char>,
    inputconverter: Option<Seq<char>>,
    all_messages: bool,
) -> Map<Seq<char>, Seq<char>> {
    let m = Map::<Seq<char>, Seq<char>>::empty().insert(
        "title"@,
        "Corpus Report for "@ + corpus_name,
    ).insert(
        "description"@,
        "An analysis framework for corpora of TeX/LaTeX documents - statistical reports for "@
            + corpus_name,
    ).insert("corpus_name"@, corpus_name).insert("corpus_description"@, corpus_description).insert(
        "service_name"@,
        service_name,
    ).insert("service_description"@, service_description).insert(
        "type"@,
        "Conversion"@,
    ).insert("inputformat"@, inputformat).insert("outputformat"@, outputformat).insert(
        "all_messages"@,
        bool_text(all_messages),
    );
    let m2 = if all_messages {
        m.insert("all_messages_true"@, bool_text(all_messages))
    } else {
        m
    };
    m2.insert(
        "inputconverter"@,
        match inputconverter {
            Some(ic) => ic,
            None => "missing?"@,
        },
    )
}

/// The global map of a report on a corpus and a service: title, description,
/// names and descriptions, formats, whether all messages are listed, and the
/// input converter (`missing?` when there is none).
pub fn report_globals(
    corpus_name: &str,
    corpus_description: &str,
    service_name: &str,
    service_description: &str,
    inputformat: &str,
    outputformat: &str,
    inputconverter: &Option<String>,
    all_messages: bool,
) -> (g: StrMap<String>)
    ensures
        g@ == report_metadata(
            corpus_name@,
            corpus_description@,
            service_name@,
            service_description@,
            inputformat@,
            outputformat@,
            opt_text(*inputconverter),
            all_messages,
        ),
        g@["title"@] == "Corpus Report for "@ + corpus_name@,
        g@["corpus_name"@] == corpus_name@,
        g@["corpus_description"@] == corpus_description@,
        g@["service_name"@] == service_name@,
        g@["service_description"@] == service_description@,
        g@["inputformat"@] == inputformat@,
        g@["outputformat"@] == outputformat@,
        g@.contains_key("all_messages_true"@) == all_messages,
{
    proof {
        law_report_metadata_fields(
            corpus_name@,
            corpus_description@,
            service_name@,
            service_description@,
            inputformat@,
            outputformat@,
            opt_text(*inputconverter),
            all_messages,
        );
    }
    let mut g: StrMap<String> = StrMap::new();
    let mut title = string_from("Corpus Report for ");
    push_str(&mut title, corpus_name);
    g.insert(string_from("title"), title);
    let mut description = string_from(
        "An analysis framework for corpora of TeX/LaTeX documents - statistical reports for ",
    );
    push_str(&mut description, corpus_name);
    g.insert(string_from("description"), description);
    g.insert(string_from("corpus_name"), string_from(corpus_name));
    g.insert(string_from("corpus_description"), string_from(corpus_description));
    g.insert(string_from("service_name"), string_from(service_name));
    g.insert(string_from("service_description"), string_from(service_description));
    g.insert(string_from("type"), string_from("Conversion"));
    g.insert(string_from("inputformat"), string_from(inputformat));
    g.insert(string_from("outputformat"), string_from(outputformat));
    g.insert(string_from("all_messages"), bool_string(all_messages));
    if all_messages {
        g.insert(string_from("all_messages_true"), bool_string(all_messages));
    }
    match inputconverter {
        Some(ic) => {
            g.insert(string_from("inputconverter"), string_from(ic.as_str()));
        },
        None => {
            g.insert(string_from("inputconverter"), string_from("missing?"));
        },
    }
    g
}

/// Each field of a report's metadata holds the argument of its name: the title
/// and description name the corpus, the names, descriptions and formats of the
/// corpus and service stand under their own keys, `all_messages` says whether all
/// messages are listed (and `all_messages_true` is there exactly then), and the
/// input converter is the one given, or `missing?`.
pub proof fn law_report_metadata_fields(
    corpus_name: Seq<char>,
    corpus_description: Seq<char>,
    service_name: Seq<char>,
    service_description: Seq<char>,
    inputformat: Seq<char>,
    outputformat: Seq<char>,
    inputconverter: Option<Seq<char>>,
    all_messages: bool,
)
    ensures
        ({
            let m = report_metadata(
                corpus_name,
                corpus_description,
                service_name,
                service_description,
                inputformat,
                outputformat,
                inputconverter,
                all_messages,
            );
            &&& m.contains_key("title"@) && m["title"@] == "Corpus Report for "@ + corpus_name
            &&& m.contains_key("description"@) && m["description"@]
                == "An analysis framework for corpora of TeX/LaTeX documents - statistical reports for "@
                + corpus_name
            &&& m.contains_key("corpus_name"@) && m["corpus_name"@] == corpus_name
            &&& m.contains_key("corpus_description"@) && m["corpus_description"@] == corpus_description
            &&& m.contains_key("service_name"@) && m["service_name"@] == service_name
            &&& m.contains_key("service_description"@) && m["service_description"@]
                == service_description
            &&& m.contains_key("type"@) && m["type"@] == "Conversion"@
            &&& m.contains_key("inputformat"@) && m["inputformat"@] == inputformat
            &&& m.contains_key("outputformat"@) && m["outputformat"@] == outputformat
            &&& m.contains_key("all_messages"@) && m["all_messages"@] == (if all_messages {
                "true"@
            } else {
                "false"@
            })
            &&& m.contains_key("all_messages_true"@) == all_messages
            &&& all_messages ==> m["all_messages_true"@] == "true"@
            &&& m.contains_key("inputconverter"@) && m["inputconverter"@] == match inputconverter {
                Some(ic) => ic,
                None => "missing?"@,
            }
        }),
{
    reveal_strlit("title");
    reveal_strlit("description");
    reveal_strlit("corpus_name");
    reveal_strlit("corpus_description");
    reveal_strlit("service_name");
    reveal_strlit("service_description");
    reveal_strlit("type");
    reveal_strlit("inputformat");
    reveal_strlit("outputformat");
    reveal_strlit("all_messages");
    reveal_strlit("all_messages_true");
    reveal_strlit("inputconverter");
    assert("title"@ != "description"@) by {
        assert("title"@.len() != "description"@.len());
    }
    assert("title"@ != "corpus_name"@) by {
        assert("title"@.len() != "corpus_name"@.len());
    }
    assert("title"@ != "corpus_description"@) by {
        assert("title"@.len() != "corpus_description"@.len());
    }
    assert("title"@ != "service_name"@) by {
        assert("title"@.len() != "service_name"@.len());
    }
    assert("title"@ != "service_description"@) by {
        assert("title"@.len() != "service_description"@.len());
    }
    assert("title"@ != "type"@) by {
        assert("title"@.len() != "type"@.len());
    }
    assert("title"@ != "inputformat"@) by {
        assert("title"@.len() != "inputformat"@.len());
    }
    assert("title"@ != "outputformat"@) by {
        assert("title"@.len() != "outputformat"@.len());
    }
    assert("title"@ != "all_messages"@) by {
        assert("title"@.len() != "all_messages"@.len());
    }
    assert("title"@ != "all_messages_true"@) by {
        assert("title"@.len() != "all_messages_true"@.len());
    }
    assert("title"@ != "inputconverter"@) by {
        assert("title"@.len() != "inputconverter"@.len());
    }
    assert("description"@ != "corpus_name"@) by {
        assert("description"@[0] != "corpus_name"@[0]);
    }
    assert("description"@ != "corpus_description"@) by {
        assert("description"@.len() != "corpus_description"@.len());
    }
    assert("description"@ != "service_name"@) by {
        assert("description"@.len() != "service_name"@.len());
    }
    assert("description"@ != "service_description"@) by {
        assert("description"@.len() != "service_description"@.len());
    }
    assert("description"@ != "type"@) by {
        assert("description"@.len() != "type"@.len());
    }
    assert("description"@ != "inputformat"@) by {
        assert("description"@[0] != "inputformat"@[0]);
    }
    assert("description"@ != "outputformat"@) by {
        assert("description"@.len() != "outputformat"@.len());
    }
    assert("description"@ != "all_messages"@) by {
        assert("description"@.len() != "all_messages"@.len());
    }
    assert("description"@ != "all_messages_true"@) by {
        assert("description"@.len() != "all_messages_true"@.len());
    }
    assert("description"@ != "inputconverter"@) by {
        assert("description"@.len() != "inputconverter"@.len());
    }
    assert("corpus_name"@ != "corpus_description"@) by {
        assert("corpus_name"@.len() != "corpus_description"@.len());
    }
    assert("corpus_name"@ != "service_name"@) by {
        assert("corpus_name"@.len() != "service_name"@.len());
    }
    assert("corpus_name"@ != "service_description"@) by {
        assert("corpus_name"@.len() != "service_description"@.len());
    }
    assert("corpus_name"@ != "type"@) by {
        assert("corpus_name"@.len() != "type"@.len());
    }
    assert("corpus_name"@ != "inputformat"@) by {
        assert("corpus_name"@[0] != "inputformat"@[0]);
    }
    assert("corpus_name"@ != "outputformat"@) by {
        assert("corpus_name"@.len() != "outputformat"@.len());
    }
    assert("corpus_name"@ != "all_messages"@) by {
        assert("corpus_name"@.len() != "all_messages"@.len());
    }
    assert("corpus_name"@ != "all_messages_true"@) by {
        assert("corpus_name"@.len() != "all_messages_true"@.len());
    }
    assert("corpus_name"@ != "inputconverter"@) by {
        assert("corpus_name"@.len() != "inputconverter"@.len());
    }
    assert("corpus_description"@ != "service_name"@) by {
        assert("corpus_description"@.len() != "service_name"@.len());
    }
    assert("corpus_description"@ != "service_description"@) by {
        assert("corpus_description"@.len() != "service_description"@.len());
    }
    assert("corpus_description"@ != "type"@) by {
        assert("corpus_description"@.len() != "type"@.len());
    }
    assert("corpus_description"@ != "inputformat"@) by {
        assert("corpus_description"@.len() != "inputformat"@.len());
    }
    assert("corpus_description"@ != "outputformat"@) by {
        assert("corpus_description"@.len() != "outputformat"@.len());
    }
    assert("corpus_description"@ != "all_messages"@) by {
        assert("corpus_description"@.len() != "all_messages"@.len());
    }
    assert("corpus_description"@ != "all_messages_true"@) by {
        assert("corpus_description"@.len() != "all_messages_true"@.len());
    }
    assert("corpus_description"@ != "inputconverter"@) by {
        assert("corpus_description"@.len() != "inputconverter"@.len());
    }
    assert("service_name"@ != "service_description"@) by {
        assert("service_name"@.len() != "service_description"@.len());
    }
    assert("service_name"@ != "type"@) by {
        assert("service_name"@.len() != "type"@.len());
    }
    assert("service_name"@ != "inputformat"@) by {
        assert("service_name"@.len() != "inputformat"@.len());
    }
    assert("service_name"@ != "outputformat"@) by {
        assert("service_name"@[0] != "outputformat"@[0]);
    }
    assert("service_name"@ != "all_messages"@) by {
        assert("service_name"@[0] != "all_messages"@[0]);
    }
    assert("service_name"@ != "all_messages_true"@) by {
        assert("service_name"@.len() != "all_messages_true"@.len());
    }
    assert("service_name"@ != "inputconverter"@) by {
        assert("service_name"@.len() != "inputconverter"@.len());
    }
    assert("service_description"@ != "type"@) by {
        assert("service_description"@.len() != "type"@.len());
    }
    assert("service_description"@ != "inputformat"@) by {
        assert("service_description"@.len() != "inputformat"@.len());
    }
    assert("service_description"@ != "outputformat"@) by {
        assert("service_description"@.len() != "outputformat"@.len());
    }
    assert("service_description"@ != "all_messages"@) by {
        assert("service_description"@.len() != "all_messages"@.len());
    }
    assert("service_description"@ != "all_messages_true"@) by {
        assert("service_description"@.len() != "all_messages_true"@.len());
    }
    assert("service_description"@ != "inputconverter"@) by {
        assert("service_description"@.len() != "inputconverter"@.len());
    }
    assert("type"@ != "inputformat"@) by {
        assert("type"@.len() != "inputformat"@.len());
    }
    assert("type"@ != "outputformat"@) by {
        assert("type"@.len() != "outputformat"@.len());
    }
    assert("type"@ != "all_messages"@) by {
        assert("type"@.len() != "all_messages"@.len());
    }
    assert("type"@ != "all_messages_true"@) by {
        assert("type"@.len() != "all_messages_true"@.len());
    }
    assert("type"@ != "inputconverter"@) by {
        assert("type"@.len() != "inputconverter"@.len());
    }
    assert("inputformat"@ != "outputformat"@) by {
        assert("inputformat"@.len() != "outputformat"@.len());
    }
    assert("inputformat"@ != "all_messages"@) by {
        assert("inputformat"@.len() != "all_messages"@.len());
    }
    assert("inputformat"@ != "all_messages_true"@) by {
        assert("inputformat"@.len() != "all_messages_true"@.len());
    }
    assert("inputformat"@ != "inputconverter"@) by {
        assert("inputformat"@.len() != "inputconverter"@.len());
    }
    assert("outputformat"@ != "all_messages"@) by {
        assert("outputformat"@[0] != "all_messages"@[0]);
    }
    assert("outputformat"@ != "all_messages_true"@) by {
        assert("outputformat"@.len() != "all_messages_true"@.len());
    }
    assert("outputformat"@ != "inputconverter"@) by {
        assert("outputformat"@.len() != "inputconverter"@.len());
    }
    assert("all_messages"@ != "all_messages_true"@) by {
        assert("all_messages"@.len() != "all_messages_true"@.len());
    }
    assert("all_messages"@ != "inputconverter"@) by {
        assert("all_messages"@.len() != "inputconverter"@.len());
    }
    assert("all_messages_true"@ != "inputconverter"@) by {
        assert("all_messages_true"@.len() != "inputconverter"@.len());
    }
}

/// The Bootstrap highlight class of a severity.
pub open spec fn severity_highlight(severity: Seq<char>) -> Seq<char> {
    if severity == "no_problem"@ {
        "success"@
    } else if severity == "warning"@ {
        "warning"@
    } else if severity == "error"@ {
        "error"@
    } else if severity == "fatal"@ {
        "danger"@
    } else if severity == "invalid"@ {
        "info"@
    } else {
        "unknown"@
    }
}

/// The Bootstrap highlight class of a severity: `success`, `warning`, `error`,
/// `danger`, `info`, or `unknown` for any other severity.
pub fn aux_severity_highlight(severity: &str) -> (r: &'static str)
    ensures
        r@ == severity_highlight(severity@),
{
    if same_text(severity, "no_problem") {
        "success"
    } else if same_text(severity, "warning") {
        "warning"
    } else if same_text(severity, "error") {
        "error"
    } else if same_text(severity, "fatal") {
        "danger"
    } else if same_text(severity, "invalid") {
        "info"
    } else {
        "unknown"
    }
}

/// The highlight classes of the severities: `no_problem` shows as `success`,
/// `warning` as `warning`, `error` as `error`, `fatal` as `danger`, `invalid`
/// as `info`, and any other severity as `unknown`.
pub proof fn law_severity_highlights(other: Seq<char>)
    requires
        other != "no_problem"@,
        other != "warning"@,
        other != "error"@,
        other != "fatal"@,
        other != "invalid"@,
    ensures
        severity_highlight("no_problem"@) == "success"@,
        severity_highlight("warning"@) == "warning"@,
        severity_highlight("error"@) == "error"@,
        severity_highlight("fatal"@) == "danger"@,
        severity_highlight("invalid"@) == "info"@,
        severity_highlight(other) == "unknown"@,
{
    reveal_strlit("no_problem");
    reveal_strlit("warning");
    reveal_strlit("error");
    reveal_strlit("fatal");
    reveal_strlit("invalid");
    assert("no_problem"@ != "warning"@) by {
        assert("no_problem"@.len() != "warning"@.len());
    }
    assert("no_problem"@ != "error"@) by {
        assert("no_problem"@.len() != "error"@.len());
    }
    assert("no_problem"@ != "fatal"@) by {
        assert("no_problem"@.len() != "fatal"@.len());
    }
    assert("no_problem"@ != "invalid"@) by {
        assert("no_problem"@.len() != "invalid"@.len());
    }
    assert("warning"@ != "error"@) by {
        assert("warning"@.len() != "error"@.len());
    }
    assert("warning"@ != "fatal"@) by {
        assert("warning"@.len() != "fatal"@.len());
    }
    assert("warning"@ != "invalid"@) by {
        assert("warning"@[0] != "invalid"@[0]);
    }
    assert("error"@ != "fatal"@) by {
        assert("error"@[0] != "fatal"@[0]);
    }
    assert("error"@ != "invalid"@) by {
        assert("error"@.len() != "invalid"@.len());
    }
    assert("fatal"@ != "invalid"@) by {
        assert("fatal"@.len() != "invalid"@.len());
    }

    reveal_strlit("success");
    reveal_strlit("danger");
    reveal_strlit("info");
    reveal_strlit("unknown");
}

/// Where the rows of a report page go in the template context.
pub enum ReportSlot {
    /// The progress report, whose rows become global entries.
    Progress,
    /// A list of entries (tasks).
    Entries,
    /// A list of message categories.
    Categories,
    /// A list of message kinds within a category.
    Whats,
}

/// The template of a report page and where its rows go.
pub struct ReportPage {
    pub template: &'static str,
    pub slot: ReportSlot,
}

/// The level of a report page, as chosen by the severity, category and what selectors.
pub open spec fn report_page_of(
    severity: Option<Seq<char>>,
    category: Option<Seq<char>>,
    what: Option<Seq<char>>,
) -> (Seq<char>, ReportSlot) {
    match severity {
        None => ("report"@, ReportSlot::Progress),
        Some(sev) => match category {
            None => if sev == "no_problem"@ {
                ("task-list-report"@, ReportSlot::Entries)
            } else {
                ("severity-report"@, ReportSlot::Categories)
            },
            Some(cat) => match what {
                None => if cat == "no_messages"@ {
                    ("task-list-report"@, ReportSlot::Entries)
                } else {
                    ("category-report"@, ReportSlot::Whats)
                },
                Some(_) => ("task-list-report"@, ReportSlot::Entries),
            },
        },
    }
}

/// The global entries a report level adds: the severity with its highlight, then
/// the category, then the what, as far as they are given.
pub open spec fn report_level_globals(
    g: Map<Seq<char>, Seq<char>>,
    severity: Option<Seq<char>>,
    category: Option<Seq<char>>,
    what: Option<Seq<char>>,
) -> Map<Seq<char>, Seq<char>> {
    match severity {
        None => g,
        Some(sev) => {
            let g1 = g.insert("severity"@, sev).insert("highlight"@, severity_highlight(sev));
            match category {
                None => g1,
                Some(cat) => {
                    let g2 = g1.insert("category"@, cat);
                    match what {
                        None => g2,
                        Some(w) => g2.insert("what"@, w),
                    }
                },
            }
        },
    }
}

/// A report page records every selector it is given: the severity (with its
/// highlight) whenever a severity is given, whatever category and what are
/// given; the category when one is given with a severity; the what when one is
/// given with both. Without a severity nothing is recorded, and no other key
/// changes.
pub proof fn law_report_level_records_selectors(
    g: Map<Seq<char>, Seq<char>>,
    severity: Option<Seq<char>>,
    category: Option<Seq<char>>,
    what: Option<Seq<char>>,
    k: Seq<char>,
)
    ensures
        ({
            let r = report_level_globals(g, severity, category, what);
            &&& severity is None ==> r == g
            &&& severity matches Some(sev) ==> r.contains_key("severity"@) && r["severity"@] == sev
                && r.contains_key("highlight"@) && r["highlight"@] == severity_highlight(sev)
            &&& (severity is Some && category is Some) ==> r.contains_key("category"@)
                && r["category"@] == category->0
            &&& (severity is Some && category is Some && what is Some) ==> r.contains_key(
                "what"@,
            ) && r["what"@] == what->0
            &&& (k != "severity"@ && k != "highlight"@ && k != "category"@ && k != "what"@) ==> (
            r.contains_key(k) == g.contains_key(k) && (g.contains_key(k) ==> r[k] == g[k]))
        }),
{
    reveal_strlit("severity");
    reveal_strlit("highlight");
    reveal_strlit("category");
    reveal_strlit("what");
    assert("severity"@ != "highlight"@) by {
        assert("severity"@.len() != "highlight"@.len());
    }
    assert("severity"@ != "category"@) by {
        assert("severity"@[0] != "category"@[0]);
    }
    assert("severity"@ != "what"@) by {
        assert("severity"@.len() != "what"@.len());
    }
    assert("highlight"@ != "category"@) by {
        assert("highlight"@.len() != "category"@.len());
    }
    assert("highlight"@ != "what"@) by {
        assert("highlight"@.len() != "what"@.len());
    }
    assert("category"@ != "what"@) by {
        assert("category"@.len() != "what"@.len());
    }
}

/// The template of a report page: the progress report without a severity; the
/// task list for `no_problem` or `no_messages` or a given what; the severity
/// report for a severity alone, the category report for a category without a
/// what; rows go to the list the template shows.
pub proof fn law_report_templates(
    severity: Option<Seq<char>>,
    category: Option<Seq<char>>,
    what: Option<Seq<char>>,
)
    ensures
        ({
            let (t, slot) = report_page_of(severity, category, what);
            &&& severity is None ==> t == "report"@ && slot is Progress
            &&& (severity is Some && category is None && severity->0 != "no_problem"@) ==> t
                == "severity-report"@ && slot is Categories
            &&& (severity == Some("no_problem"@) && category is None) ==> t == "task-list-report"@
                && slot is Entries
            &&& (severity is Some && category is Some && what is None && category->0
                != "no_messages"@) ==> t == "category-report"@ && slot is Whats
            &&& (severity is Some && category == Some("no_messages"@) && what is None) ==> t
                == "task-list-report"@ && slot is Entries
            &&& (severity is Some && category is Some && what is Some) ==> t == "task-list-report"@
                && slot is Entries
        }),
{
}

/// Chooses the report level: the top-level progress report without a severity;
/// a severity report (or the task list for `no_problem`) without a category; a
/// category report (or the task list for `no_messages`) without a what; and the
/// task list of a what otherwise. Records the selectors in `global`.
pub fn report_page(
    global: &mut StrMap<String>,
    severity: &Option<String>,
    category: &Option<String>,
    what: &Option<String>,
) -> (page: ReportPage)
    ensures
        final(global)@ == report_level_globals(
            old(global)@,
            opt_text(*severity),
            opt_text(*category),
            opt_text(*what),
        ),
        (page.template@, page.slot) == report_page_of(
            opt_text(*severity),
            opt_text(*category),
            opt_text(*what),
        ),
        severity matches Some(sev) ==> final(global)@.contains_key("severity"@)
            && final(global)@["severity"@] == sev@,
        (severity is Some && category is Some) ==> final(global)@["category"@]
            == category->0@,
        (severity is Some && category is Some && what is Some) ==> final(global)@["what"@]
            == what->0@,
{
    proof {
        law_report_level_records_selectors(
            old(global)@,
            opt_text(*severity),
            opt_text(*category),
            opt_text(*what),
            "severity"@,
        );
    }
    match severity {
        None => ReportPage { template: "report", slot: ReportSlot::Progress },
        Some(sev) => {
            global.insert(string_from("severity"), string_from(sev.as_str()));
            global.insert(string_from("highlight"), string_from(aux_severity_highlight(sev.as_str())));
            match category {
                None => {
                    if same_text(sev.as_str(), "no_problem") {
                        ReportPage { template: "task-list-report", slot: ReportSlot::Entries }
                    } else {
                        ReportPage { template: "severity-report", slot: ReportSlot::Categories }
                    }
                },
                Some(cat) => {
                    global.insert(string_from("category"), string_from(cat.as_str()));
                    match what {
                        None => {
                            if same_text(cat.as_str(), "no_messages") {
                                ReportPage { template: "task-list-report", slot: ReportSlot::Entries }
                            } else {
                                ReportPage { template: "category-report", slot: ReportSlot::Whats }
                            }
                        },
                        Some(w) => {
                            global.insert(string_from("what"), string_from(w.as_str()));
                            ReportPage { template: "task-list-report", slot: ReportSlot::Entries }
                        },
                    }
                },
            }
        },
    }
}

/// The prefix of every cache key of a corpus and service: `<corpus id>_<service id>`.
pub open spec fn cache_base(corpus_id: int, service_id: int) -> Seq<char> {
    crate::text::decimal(corpus_id) + "_"@ + crate::text::decimal(service_id)
}

/// `<corpus id>_<service id>`.
pub fn cache_base_key(corpus_id: i32, service_id: i32) -> (k: String)
    ensures
        k@ == cache_base(corpus_id as int, service_id as int),
{
    let mut k = decimal_string(corpus_id as i128);
    push_str(&mut k, "_");
    let s = decimal_string(service_id as i128);
    push_str(&mut k, s.as_str());
    k
}

/// The selectors of a report as they appear in its cache key:
/// `_<severity>`, then `_<category>`, then `_<what>`, as far as they are given.
pub open spec fn cache_key_tail(
    severity: Option<Seq<char>>,
    category: Option<Seq<char>>,
    what: Option<Seq<char>>,
) -> Seq<char> {
    match severity {
        None => Seq::empty(),
        Some(sev) => "_"@ + sev + match category {
            None => Seq::empty(),
            Some(cat) => "_"@ + cat + match what {
                None => Seq::empty(),
                Some(w) => "_"@ + w,
            },
        },
    }
}

/// The cache key of a report page.
pub open spec fn report_cache_key(
    corpus_id: int,
    service_id: int,
    severity: Option<Seq<char>>,
    category: Option<Seq<char>>,
    what: Option<Seq<char>>,
    all_messages: bool,
) -> Seq<char> {
    cache_base(corpus_id, service_id) + cache_key_tail(severity, category, what) + if all_messages {
        "_all_messages"@
    } else {
        Seq::empty()
    }
}

/// Whether a report page is cached: every page but the task lists of a what
/// and of `no_problem`.
pub open spec fn is_cached_page(severity: Option<Seq<char>>, what: Option<Seq<char>>) -> bool {
    what is None && severity != Some("no_problem"@)
}

/// How the cache key of a report page is built: the top-level page's key is
/// `<corpus id>_<service id>` (a category or what without a severity is not
/// part of it); a severity page adds `_<severity>` to it, a category page adds
/// `_<category>` to its severity page's key, and a what page adds `_<what>` to
/// its category page's key; the page with all messages adds `_all_messages` to
/// the key of the same page with the listed messages.
pub proof fn law_report_cache_key_layout(
    corpus_id: int,
    service_id: int,
    severity: Seq<char>,
    category: Seq<char>,
    what: Seq<char>,
    severity_opt: Option<Seq<char>>,
    category_opt: Option<Seq<char>>,
    what_opt: Option<Seq<char>>,
)
    ensures
        report_cache_key(corpus_id, service_id, None, category_opt, what_opt, false)
            == crate::text::decimal(corpus_id) + "_"@ + crate::text::decimal(service_id),
        report_cache_key(corpus_id, service_id, Some(severity), None, what_opt, false)
            == report_cache_key(corpus_id, service_id, None, None, None, false) + "_"@ + severity,
        report_cache_key(corpus_id, service_id, Some(severity), Some(category), None, false)
            == report_cache_key(corpus_id, service_id, Some(severity), None, None, false) + "_"@
            + category,
        report_cache_key(corpus_id, service_id, Some(severity), Some(category), Some(what), false)
            == report_cache_key(corpus_id, service_id, Some(severity), Some(category), None, false)
            + "_"@ + what,
        report_cache_key(corpus_id, service_id, severity_opt, category_opt, what_opt, true)
            == report_cache_key(corpus_id, service_id, severity_opt, category_opt, what_opt, false)
            + "_all_messages"@,
{
    let b = cache_base(corpus_id, service_id);
    assert(report_cache_key(corpus_id, service_id, None, category_opt, what_opt, false) =~= b);
    assert(report_cache_key(corpus_id, service_id, None, None, None, false) =~= b);
    assert(report_cache_key(corpus_id, service_id, Some(severity), None, what_opt, false) =~= b
        + "_"@ + severity);
    assert(report_cache_key(corpus_id, service_id, Some(severity), None, None, false) =~= b + "_"@
        + severity);
    assert(report_cache_key(corpus_id, service_id, Some(severity), Some(category), None, false)
        =~= b + "_"@ + severity + "_"@ + category);
    assert(report_cache_key(corpus_id, service_id, Some(severity), Some(category), Some(what), false)
        =~= b + "_"@ + severity + "_"@ + category + "_"@ + what);
    assert(report_cache_key(corpus_id, service_id, severity_opt, category_opt, what_opt, true)
        =~= report_cache_key(corpus_id, service_id, severity_opt, category_opt, what_opt, false)
        + "_all_messages"@);
}

/// The progress report, every severity report but that of `no_problem`, and
/// every category report are cached; the task list of `no_problem` and the task
/// list of a what are not.
pub proof fn law_cached_pages(severity: Option<Seq<char>>, what: Option<Seq<char>>)
    ensures
        what is Some ==> !is_cached_page(severity, what),
        severity == Some("no_problem"@) ==> !is_cached_page(severity, what),
        severity is None && what is None ==> is_cached_page(severity, what),
        (severity is Some && severity->0 != "no_problem"@ && what is None) ==> is_cached_page(
            severity,
            what,
        ),
{
}

/// The cache key of a report page and the key of the time it was cached, or
/// `None` for a page that is not cached.
pub fn report_cache_keys(
    corpus_id: i32,
    service_id: i32,
    severity: &Option<String>,
    category: &Option<String>,
    what: &Option<String>,
    all_messages: bool,
) -> (r: Option<(String, String)>)
    ensures
        is_cached_page(opt_text(*severity), opt_text(*what)) ==> (r matches Some((k, t)) && k@
            == report_cache_key(
            corpus_id as int,
            service_id as int,
            opt_text(*severity),
            opt_text(*category),
            opt_text(*what),
            all_messages,
        ) && t@ == k@ + "_time"@),
        !is_cached_page(opt_text(*severity), opt_text(*what)) ==> r is None,
{
    if what.is_some() || opt_is(severity, "no_problem") {
        return None;
    }
    let mut key = cache_base_key(corpus_id, service_id);
    match severity {
        None => {},
        Some(sev) => {
            push_str(&mut key, "_");
            push_str(&mut key, sev.as_str());
            match category {
                None => {},
                Some(cat) => {
                    push_str(&mut key, "_");
                    push_str(&mut key, cat.as_str());
                    match what {
                        None => {},
                        Some(w) => {
                            push_str(&mut key, "_");
                            push_str(&mut key, w.as_str());
                        },
                    }
                },
            }
        },
    }
    if all_messages {
        push_str(&mut key, "_all_messages");
    }
    let mut time_key = key.clone();
    push_str(&mut time_key, "_time");
    proof {
        assert(key@ =~= report_cache_key(
            corpus_id as int,
            service_id as int,
            opt_text(*severity),
            opt_text(*category),
            opt_text(*what),
            all_messages,
        ));
    }
    Some((key, time_key))
}

/// Where the rows of a report come from.
pub enum ReportSource {
    /// The rows found in the cache.
    Cache,
    /// The task store; the rows are then cached.
    FetchAndCache,
    /// The task store, without caching.
    Fetch,
}

/// A cached page with cached rows is served from the cache; otherwise the rows
/// are fetched, and cached when the page is one that is cached.
pub fn report_source(cache_keys: &Option<(String, String)>, cached_rows: usize) -> (r: ReportSource)
    ensures
        r == (if cache_keys is Some && cached_rows > 0 {
            ReportSource::Cache
        } else if cache_keys is Some {
            ReportSource::FetchAndCache
        } else {
            ReportSource::Fetch
        }),
{
    match cache_keys {
        Some(_) => {
            if cached_rows > 0 {
                ReportSource::Cache
            } else {
                ReportSource::FetchAndCache
            }
        },
        None => ReportSource::Fetch,
    }
}

/// The paging entries of a report page.
pub open spec fn pagination(
    g: Map<Seq<char>, Seq<char>>,
    offset: i64,
    page_size: i64,
    rows: nat,
    report_time: Seq<char>,
) -> Map<Seq<char>, Seq<char>> {
    let g1 = g.insert("from_offset"@, crate::text::decimal(offset as int));
    let g2 = if offset >= page_size {
        g1.insert("offset_min_false"@, "true"@).insert(
            "prev_offset"@,
            crate::text::decimal(offset - page_size),
        )
    } else {
        g1
    };
    let g3 = if rows >= (page_size as usize) {
        g2.insert("offset_max_false"@, "true"@)
    } else {
        g2
    };
    g3.insert("next_offset"@, crate::text::decimal(offset + page_size)).insert(
        "offset"@,
        crate::text::decimal(offset as int),
    ).insert("page_size"@, crate::text::decimal(page_size as int)).insert(
        "to_offset"@,
        crate::text::decimal(offset + page_size),
    ).insert("report_time"@, report_time)
}

/// On a page without paging entries yet, `offset_max_false` (a next page is
/// offered) is there exactly when the page holds at least a page size of rows
/// (for any page size that is a valid length), and whatever the offset;
/// `offset_min_false` and `prev_offset` (a previous page) exactly when the
/// offset is at least the page size, the previous page starting a page size
/// earlier; the page shows rows from the offset to a page size later, where the
/// next page starts.
pub proof fn law_pagination_flags(
    g: Map<Seq<char>, Seq<char>>,
    offset: i64,
    page_size: i64,
    other_offset: i64,
    rows: nat,
    t: Seq<char>,
)
    requires
        !g.contains_key("offset_max_false"@),
        !g.contains_key("offset_min_false"@),
        !g.contains_key("prev_offset"@),
    ensures
        ({
            let p = pagination(g, offset, page_size, rows, t);
            &&& 0 <= page_size <= usize::MAX ==> (p.contains_key("offset_max_false"@) <==> rows
                >= page_size)
            &&& p.contains_key("offset_max_false"@) == pagination(
                g,
                other_offset,
                page_size,
                rows,
                t,
            ).contains_key("offset_max_false"@)
            &&& p.contains_key("offset_max_false"@) ==> p["offset_max_false"@] == "true"@
            &&& p.contains_key("offset_min_false"@) <==> offset >= page_size
            &&& p.contains_key("prev_offset"@) <==> offset >= page_size
            &&& offset >= page_size ==> p["prev_offset"@] == crate::text::decimal(offset - page_size)
            &&& p["next_offset"@] == crate::text::decimal(offset + page_size)
            &&& p["offset"@] == crate::text::decimal(offset as int)
            &&& p["page_size"@] == crate::text::decimal(page_size as int)
            &&& p["report_time"@] == t
            &&& p["from_offset"@] == crate::text::decimal(offset as int)
            &&& p["to_offset"@] == crate::text::decimal(offset + page_size)
        }),
{
    reveal_strlit("from_offset");
    reveal_strlit("offset_min_false");
    reveal_strlit("prev_offset");
    reveal_strlit("offset_max_false");
    reveal_strlit("next_offset");
    reveal_strlit("offset");
    reveal_strlit("page_size");
    reveal_strlit("to_offset");
    reveal_strlit("report_time");
    assert("from_offset"@ != "offset_min_false"@) by {
        assert("from_offset"@.len() != "offset_min_false"@.len());
    }
    assert("from_offset"@ != "prev_offset"@) by {
        assert("from_offset"@[0] != "prev_offset"@[0]);
    }
    assert("from_offset"@ != "offset_max_false"@) by {
        assert("from_offset"@.len() != "offset_max_false"@.len());
    }
    assert("from_offset"@ != "next_offset"@) by {
        assert("from_offset"@[0] != "next_offset"@[0]);
    }
    assert("from_offset"@ != "offset"@) by {
        assert("from_offset"@.len() != "offset"@.len());
    }
    assert("from_offset"@ != "page_size"@) by {
        assert("from_offset"@.len() != "page_size"@.len());
    }
    assert("from_offset"@ != "to_offset"@) by {
        assert("from_offset"@.len() != "to_offset"@.len());
    }
    assert("from_offset"@ != "report_time"@) by {
        assert("from_offset"@[0] != "report_time"@[0]);
    }
    assert("offset_min_false"@ != "prev_offset"@) by {
        assert("offset_min_false"@.len() != "prev_offset"@.len());
    }
    assert("offset_min_false"@ != "offset_max_false"@) by {
        assert("offset_min_false"@[8] != "offset_max_false"@[8]);
    }
    assert("offset_min_false"@ != "next_offset"@) by {
        assert("offset_min_false"@.len() != "next_offset"@.len());
    }
    assert("offset_min_false"@ != "offset"@) by {
        assert("offset_min_false"@.len() != "offset"@.len());
    }
    assert("offset_min_false"@ != "page_size"@) by {
        assert("offset_min_false"@.len() != "page_size"@.len());
    }
    assert("offset_min_false"@ != "to_offset"@) by {
        assert("offset_min_false"@.len() != "to_offset"@.len());
    }
    assert("offset_min_false"@ != "report_time"@) by {
        assert("offset_min_false"@.len() != "report_time"@.len());
    }
    assert("prev_offset"@ != "offset_max_false"@) by {
        assert("prev_offset"@.len() != "offset_max_false"@.len());
    }
    assert("prev_offset"@ != "next_offset"@) by {
        assert("prev_offset"@[0] != "next_offset"@[0]);
    }
    assert("prev_offset"@ != "offset"@) by {
        assert("prev_offset"@.len() != "offset"@.len());
    }
    assert("prev_offset"@ != "page_size"@) by {
        assert("prev_offset"@.len() != "page_size"@.len());
    }
    assert("prev_offset"@ != "to_offset"@) by {
        assert("prev_offset"@.len() != "to_offset"@.len());
    }
    assert("prev_offset"@ != "report_time"@) by {
        assert("prev_offset"@[0] != "report_time"@[0]);
    }
    assert("offset_max_false"@ != "next_offset"@) by {
        assert("offset_max_false"@.len() != "next_offset"@.len());
    }
    assert("offset_max_false"@ != "offset"@) by {
        assert("offset_max_false"@.len() != "offset"@.len());
    }
    assert("offset_max_false"@ != "page_size"@) by {
        assert("offset_max_false"@.len() != "page_size"@.len());
    }
    assert("offset_max_false"@ != "to_offset"@) by {
        assert("offset_max_false"@.len() != "to_offset"@.len());
    }
    assert("offset_max_false"@ != "report_time"@) by {
        assert("offset_max_false"@.len() != "report_time"@.len());
    }
    assert("next_offset"@ != "offset"@) by {
        assert("next_offset"@.len() != "offset"@.len());
    }
    assert("next_offset"@ != "page_size"@) by {
        assert("next_offset"@.len() != "page_size"@.len());
    }
    assert("next_offset"@ != "to_offset"@) by {
        assert("next_offset"@.len() != "to_offset"@.len());
    }
    assert("next_offset"@ != "report_time"@) by {
        assert("next_offset"@[0] != "report_time"@[0]);
    }
    assert("offset"@ != "page_size"@) by {
        assert("offset"@.len() != "page_size"@.len());
    }
    assert("offset"@ != "to_offset"@) by {
        assert("offset"@.len() != "to_offset"@.len());
    }
    assert("offset"@ != "report_time"@) by {
        assert("offset"@.len() != "report_time"@.len());
    }
    assert("page_size"@ != "to_offset"@) by {
        assert("page_size"@[0] != "to_offset"@[0]);
    }
    assert("page_size"@ != "report_time"@) by {
        assert("page_size"@.len() != "report_time"@.len());
    }
    assert("to_offset"@ != "report_time"@) by {
        assert("to_offset"@.len() != "report_time"@.len());
    }
    if 0 <= page_size <= usize::MAX {
        assert((page_size as usize) as int == page_size as int);
    }
}

proof fn lemma_offset_max_flag(
    g: Map<Seq<char>, Seq<char>>,
    offset: i64,
    page_size: i64,
    rows: nat,
    t: Seq<char>,
)
    requires
        !g.contains_key("offset_max_false"@),
    ensures
        0 <= page_size <= usize::MAX ==> (pagination(g, offset, page_size, rows, t).contains_key(
            "offset_max_false"@,
        ) <==> rows >= page_size),
{
    reveal_strlit("from_offset");
    reveal_strlit("offset_min_false");
    reveal_strlit("prev_offset");
    reveal_strlit("offset_max_false");
    reveal_strlit("next_offset");
    reveal_strlit("offset");
    reveal_strlit("page_size");
    reveal_strlit("to_offset");
    reveal_strlit("report_time");
    assert("offset_max_false"@ != "from_offset"@) by {
        assert("offset_max_false"@.len() != "from_offset"@.len());
    }
    assert("offset_max_false"@ != "offset_min_false"@) by {
        assert("offset_max_false"@[8] != "offset_min_false"@[8]);
    }
    assert("offset_max_false"@ != "prev_offset"@) by {
        assert("offset_max_false"@.len() != "prev_offset"@.len());
    }
    assert("offset_max_false"@ != "next_offset"@) by {
        assert("offset_max_false"@.len() != "next_offset"@.len());
    }
    assert("offset_max_false"@ != "offset"@) by {
        assert("offset_max_false"@.len() != "offset"@.len());
    }
    assert("offset_max_false"@ != "page_size"@) by {
        assert("offset_max_false"@.len() != "page_size"@.len());
    }
    assert("offset_max_false"@ != "to_offset"@) by {
        assert("offset_max_false"@.len() != "to_offset"@.len());
    }
    assert("offset_max_false"@ != "report_time"@) by {
        assert("offset_max_false"@.len() != "report_time"@.len());
    }
    if 0 <= page_size <= usize::MAX {
        assert((page_size as usize) as int == page_size as int);
    }
}

/// Records the paging of a report page of `rows` rows: the offsets of this,
/// the previous and the next page, whether there is a previous page
/// (`offset_min_false`) and whether the page is full (`offset_max_false`), the
/// page size and the time of the report.
pub fn aux_pagination_globals(
    global: &mut StrMap<String>,
    offset: i64,
    page_size: i64,
    rows: usize,
    report_time: String,
)
    requires
        i64::MIN <= offset + page_size <= i64::MAX,
        offset >= page_size ==> offset - page_size <= i64::MAX,
    ensures
        final(global)@ == pagination(old(global)@, offset, page_size, rows as nat, report_time@),
        0 <= page_size <= usize::MAX && !old(global)@.contains_key("offset_max_false"@)
            ==> (final(global)@.contains_key("offset_max_false"@) <==> rows >= page_size),
{
    proof {
        if !old(global)@.contains_key("offset_max_false"@) {
            lemma_offset_max_flag(old(global)@, offset, page_size, rows as nat, report_time@);
        }
    }
    let from_offset = offset;
    let to_offset = offset + page_size;
    global.insert(string_from("from_offset"), decimal_string(from_offset as i128));
    if from_offset >= page_size {
        global.insert(string_from("offset_min_false"), string_from("true"));
        global.insert(string_from("prev_offset"), decimal_string((from_offset - page_size) as i128));
    }
    if rows >= page_size as usize {
        global.insert(string_from("offset_max_false"), string_from("true"));
    }
    global.insert(string_from("next_offset"), decimal_string((from_offset + page_size) as i128));
    global.insert(string_from("offset"), decimal_string(offset as i128));
    global.insert(string_from("page_size"), decimal_string(page_size as i128));
    global.insert(string_from("to_offset"), decimal_string(to_offset as i128));
    global.insert(string_from("report_time"), report_time);
}

/// The paging links of consecutive pages agree: the page after the one at
/// `offset` starts where that page's next link points, and its previous link
/// points back to `offset`.
pub proof fn law_pagination_links_agree(
    g: Map<Seq<char>, Seq<char>>,
    offset: i64,
    page_size: i64,
    rows: nat,
    next_rows: nat,
    t: Seq<char>,
)
    requires
        offset >= 0,
        page_size > 0,
        offset + page_size + page_size <= i64::MAX,
    ensures
        ({
            let here = pagination(g, offset, page_size, rows, t);
            let next = pagination(g, (offset + page_size) as i64, page_size, next_rows, t);
            &&& next["offset"@] == here["next_offset"@]
            &&& next["prev_offset"@] == here["offset"@]
            &&& next["from_offset"@] == here["to_offset"@]
        }),
{
    reveal_strlit("offset");
    reveal_strlit("next_offset");
    reveal_strlit("prev_offset");
    reveal_strlit("from_offset");
    reveal_strlit("to_offset");
    reveal_strlit("page_size");
    reveal_strlit("report_time");
    reveal_strlit("offset_min_false");
    reveal_strlit("offset_max_false");
    assert("offset"@ != "next_offset"@) by {
        assert("offset"@.len() != "next_offset"@.len());
    }
    assert("offset"@ != "prev_offset"@) by {
        assert("offset"@.len() != "prev_offset"@.len());
    }
    assert("offset"@ != "page_size"@) by {
        assert("offset"@[0] != "page_size"@[0]);
    }
    assert("offset"@ != "to_offset"@) by {
        assert("offset"@.len() != "to_offset"@.len());
    }
    assert("offset"@ != "report_time"@) by {
        assert("offset"@[0] != "report_time"@[0]);
    }
    assert("prev_offset"@ != "next_offset"@) by {
        assert("prev_offset"@[0] != "next_offset"@[0]);
    }
    assert("prev_offset"@ != "page_size"@) by {
        assert("prev_offset"@.len() != "page_size"@.len());
    }
    assert("prev_offset"@ != "to_offset"@) by {
        assert("prev_offset"@[0] != "to_offset"@[0]);
    }
    assert("prev_offset"@ != "report_time"@) by {
        assert("prev_offset"@[0] != "report_time"@[0]);
    }
    assert("prev_offset"@ != "offset_max_false"@) by {
        assert("prev_offset"@.len() != "offset_max_false"@.len());
    }
    assert("from_offset"@ != "next_offset"@) by {
        assert("from_offset"@[0] != "next_offset"@[0]);
    }
    assert("from_offset"@ != "offset"@) by {
        assert("from_offset"@.len() != "offset"@.len());
    }
    assert("from_offset"@ != "page_size"@) by {
        assert("from_offset"@[0] != "page_size"@[0]);
    }
    assert("from_offset"@ != "to_offset"@) by {
        assert("from_offset"@[0] != "to_offset"@[0]);
    }
    assert("from_offset"@ != "report_time"@) by {
        assert("from_offset"@[0] != "report_time"@[0]);
    }
    assert("from_offset"@ != "prev_offset"@) by {
        assert("from_offset"@[0] != "prev_offset"@[0]);
    }
    assert("from_offset"@ != "offset_min_false"@) by {
        assert("from_offset"@.len() != "offset_min_false"@.len());
    }
    assert("from_offset"@ != "offset_max_false"@) by {
        assert("from_offset"@.len() != "offset_max_false"@.len());
    }
    assert("next_offset"@ != "page_size"@) by {
        assert("next_offset"@[0] != "page_size"@[0]);
    }
    assert("next_offset"@ != "to_offset"@) by {
        assert("next_offset"@[0] != "to_offset"@[0]);
    }
    assert("next_offset"@ != "report_time"@) by {
        assert("next_offset"@[0] != "report_time"@[0]);
    }
    assert("to_offset"@ != "report_time"@) by {
        assert("to_offset"@[0] != "report_time"@[0]);
    }
}

} // verus!

//! Decisions of the report cache worker: which pages to invalidate and refresh.
use vstd::prelude::*;
use crate::report::{cache_base, cache_base_key, is_cached_page, report_cache_key};
use crate::strmap::StrMap;
use crate::text::{push_str, same_text, string_from};

verus! {

/// The cache key of a severity page, from the corpus and service prefix.
pub open spec fn severity_key(base: Seq<char>, severity: Seq<char>) -> Seq<char> {
    base + "_"@ + severity
}

/// The cache key of a category page, from its severity page key.
pub open spec fn category_key(severity_key: Seq<char>, category: Seq<char>) -> Seq<char> {
    severity_key + "_"@ + category
}

/// The severities whose pages the cache worker invalidates, in order.
pub open spec fn refreshed_severities() -> Seq<Seq<char>> {
    seq!["invalid"@, "fatal"@, "error"@, "warning"@, "no_problem"@, "info"@]
}

/// `invalid`, `fatal`, `error`, `warning`, `no_problem`, `info`.
pub fn refreshed_severity_list() -> (v: Vec<String>)
    ensures
        v@.map_values(|s: String| s@) == refreshed_severities(),
{
    let v = vec![
        string_from("invalid"),
        string_from("fatal"),
        string_from("error"),
        string_from("warning"),
        string_from("no_problem"),
        string_from("info"),
    ];
    assert(v@.map_values(|s: String| s@) =~= refreshed_severities());
    v
}

/// The service whose pages the cache worker leaves alone.
pub fn skipped_by_cache_worker(service_name: &str) -> (r: bool)
    ensures
        r == (service_name@ == "import"@),
{
    same_text(service_name, "import")
}

/// The value the cache worker compares against when it has not yet seen a
/// corpus and service.
pub open spec fn unseen_queue_count() -> usize {
    999_999
}

/// Whether the number of queued tasks of a corpus and service differs from the
/// one last seen (or it was never seen), so that its cached pages are stale.
pub fn queue_changed(seen: &StrMap<usize>, key_base: &str, queued: usize) -> (r: bool)
    ensures
        r == (if seen@.contains_key(key_base@) {
            seen@[key_base@] != queued
        } else {
            unseen_queue_count() != queued
        }),
{
    match seen.get(key_base) {
        Some(n) => *n != queued,
        None => 999_999 != queued,
    }
}

/// The cache keys of a severity page, for the listed and for all messages.
pub fn severity_cache_keys(key_base: &str, severity: &str) -> (r: (String, String))
    ensures
        r.0@ == severity_key(key_base@, severity@),
        r.1@ == severity_key(key_base@, severity@) + "_all_messages"@,
{
    let mut k = string_from(key_base);
    push_str(&mut k, "_");
    push_str(&mut k, severity);
    let mut all = k.clone();
    push_str(&mut all, "_all_messages");
    (k, all)
}

/// Whether the cache worker refreshes the category pages of a severity: all
/// severities but `no_problem`.
pub fn refreshes_categories(severity: &str) -> (r: bool)
    ensures
        r == (severity@ != "no_problem"@),
{
    !same_text(severity, "no_problem")
}

/// The category a record of a severity report names, under `name` (empty when missing).
pub open spec fn record_category(record: Map<Seq<char>, Seq<char>>) -> Seq<char> {
    if record.contains_key("name"@) {
        record["name"@]
    } else {
        Seq::empty()
    }
}

/// The cache keys of the category page a record of a severity report names, or
/// `None` for a record without a name or for the `total` row.
pub fn category_cache_keys(severity_key_text: &str, record: &StrMap<String>) -> (r: Option<
    (String, String),
>)
    ensures
        ({
            let cat = record_category(record@);
            if cat.len() == 0 || cat == "total"@ {
                r is None
            } else {
                r matches Some((k, all)) && k@ == category_key(severity_key_text@, cat) && all@
                    == category_key(severity_key_text@, cat) + "_all_messages"@
            }
        }),
{
    let category = match record.get("name") {
        Some(c) => c.clone(),
        None => String::new(),
    };
    if category.as_str().is_empty() || same_text(category.as_str(), "total") {
        return None;
    }
    let mut k = string_from(severity_key_text);
    push_str(&mut k, "_");
    push_str(&mut k, category.as_str());
    let mut all = k.clone();
    push_str(&mut all, "_all_messages");
    Some((k, all))
}

/// The count recorded for `key_base`, or the unseen value when there is none.
pub open spec fn recorded_count(seen: Map<Seq<char>, usize>, key_base: Seq<char>) -> usize {
    if seen.contains_key(key_base) {
        seen[key_base]
    } else {
        unseen_queue_count()
    }
}

/// Whether a pass of the cache worker invalidates the pages of a service on a
/// corpus: never for `import`, otherwise exactly when the number of queued
/// tasks differs from the recorded one.
pub open spec fn pass_invalidates(
    seen: Map<Seq<char>, usize>,
    service_name: Seq<char>,
    key_base: Seq<char>,
    queued: usize,
) -> bool {
    service_name != "import"@ && recorded_count(seen, key_base) != queued
}

/// The recorded counts after a pass: the new count is recorded when the pass invalidates.
pub open spec fn seen_after_pass(
    seen: Map<Seq<char>, usize>,
    service_name: Seq<char>,
    key_base: Seq<char>,
    queued: usize,
) -> Map<Seq<char>, usize> {
    if pass_invalidates(seen, service_name, key_base, queued) {
        seen.insert(key_base, queued)
    } else {
        seen
    }
}

/// What an invalidating pass does for one severity, in order: the severity,
/// the two keys it deletes, and whether it then refreshes the category pages.
pub open spec fn planned_invalidations(key_base: Seq<char>) -> Seq<(Seq<char>, Seq<char>, Seq<char>, bool)> {
    refreshed_severities().map_values(
        |sev: Seq<char>|
            (
                sev,
                severity_key(key_base, sev),
                severity_key(key_base, sev) + "_all_messages"@,
                sev != "no_problem"@,
            ),
    )
}

/// An invalidating pass handles the six severities `invalid`, `fatal`, `error`,
/// `warning`, `no_problem` and `info`, in this order; for each it deletes the
/// severity page key `<base>_<severity>` and the same with `_all_messages`, and
/// refreshes the category pages of every severity whose pages are cached, that
/// is of all but `no_problem`.
pub proof fn law_planned_invalidations(key_base: Seq<char>)
    ensures
        ({
            let plan = planned_invalidations(key_base);
            &&& plan.len() == 6
            &&& plan[0].0 == "invalid"@
            &&& plan[1].0 == "fatal"@
            &&& plan[2].0 == "error"@
            &&& plan[3].0 == "warning"@
            &&& plan[4].0 == "no_problem"@
            &&& plan[5].0 == "info"@
            &&& forall|i: int|
                0 <= i < plan.len() ==> {
                    &&& (#[trigger] plan[i]).1 == key_base + "_"@ + plan[i].0
                    &&& plan[i].2 == key_base + "_"@ + plan[i].0 + "_all_messages"@
                    &&& (plan[i].3 <==> is_cached_page(Some(plan[i].0), None))
                    &&& (plan[i].3 <==> plan[i].0 != "no_problem"@)
                }
        }),
{
    reveal_strlit("invalid");
    reveal_strlit("fatal");
    reveal_strlit("error");
    reveal_strlit("warning");
    reveal_strlit("no_problem");
    reveal_strlit("info");
    assert("no_problem"@ != "invalid"@) by {
        assert("no_problem"@.len() != "invalid"@.len());
    }
    assert("no_problem"@ != "fatal"@) by {
        assert("no_problem"@.len() != "fatal"@.len());
    }
    assert("no_problem"@ != "error"@) by {
        assert("no_problem"@.len() != "error"@.len());
    }
    assert("no_problem"@ != "warning"@) by {
        assert("no_problem"@.len() != "warning"@.len());
    }
    assert("no_problem"@ != "info"@) by {
        assert("no_problem"@.len() != "info"@.len());
    }
}

/// What a pass of the cache worker does for one severity of a stale service.
pub struct SeverityInvalidation {
    pub severity: String,
    /// The cache key of the severity page, deleted.
    pub key: String,
    /// The cache key of the severity page with all messages, deleted.
    pub key_all_messages: String,
    /// Whether the category pages of the severity are refreshed afterwards.
    pub refresh_categories: bool,
}

/// The view of a list of severity invalidations.
pub open spec fn invalidations_view(v: Seq<SeverityInvalidation>) -> Seq<(Seq<char>, Seq<char>, Seq<char>, bool)> {
    v.map_values(
        |i: SeverityInvalidation| (i.severity@, i.key@, i.key_all_messages@, i.refresh_categories),
    )
}

/// One pass of the cache worker over a service on a corpus, after counting its
/// queued tasks: when the pass invalidates, records the new count and returns,
/// for each refreshed severity in order, the keys to delete and whether to
/// refresh its category pages; otherwise changes nothing and returns nothing.
pub fn cache_worker_pass(
    seen: &mut StrMap<usize>,
    service_name: &str,
    corpus_id: i32,
    service_id: i32,
    queued: usize,
) -> (r: Vec<SeverityInvalidation>)
    ensures
        final(seen)@ == seen_after_pass(
            old(seen)@,
            service_name@,
            cache_base(corpus_id as int, service_id as int),
            queued,
        ),
        invalidations_view(r@) == (if pass_invalidates(
            old(seen)@,
            service_name@,
            cache_base(corpus_id as int, service_id as int),
            queued,
        ) {
            planned_invalidations(cache_base(corpus_id as int, service_id as int))
        } else {
            Seq::empty()
        }),
        pass_invalidates(
            old(seen)@,
            service_name@,
            cache_base(corpus_id as int, service_id as int),
            queued,
        ) ==> r@.len() == 6 && forall|i: int|
            0 <= i < r@.len() ==> (#[trigger] r@[i]).key@ == cache_base(
                corpus_id as int,
                service_id as int,
            ) + "_"@ + r@[i].severity@ && (r@[i].refresh_categories <==> r@[i].severity@
                != "no_problem"@),
{
    proof {
        law_planned_invalidations(cache_base(corpus_id as int, service_id as int));
    }
    let mut out: Vec<SeverityInvalidation> = Vec::new();
    if skipped_by_cache_worker(service_name) {
        assert(invalidations_view(out@) =~= Seq::empty());
        return out;
    }
    let key_base = cache_base_key(corpus_id, service_id);
    if !queue_changed(seen, key_base.as_str(), queued) {
        assert(invalidations_view(out@) =~= Seq::empty());
        return out;
    }
    seen.insert(key_base.clone(), queued);
    let severities = refreshed_severity_list();
    let ghost sevs = severities@.map_values(|s: String| s@);
    let ghost plan = planned_invalidations(key_base@);
    assert(invalidations_view(out@) =~= plan.take(0));
    for i in 0..severities.len()
        invariant
            sevs == severities@.map_values(|s: String| s@),
            sevs == refreshed_severities(),
            plan == planned_invalidations(key_base@),
            invalidations_view(out@) == plan.take(i as int),
            out@.len() == i,
            severities@.len() == 6,
    {
        let sev = &severities[i];
        let (key, key_all_messages) = severity_cache_keys(key_base.as_str(), sev.as_str());
        let refresh = refreshes_categories(sev.as_str());
        let sev_copy = sev.clone();
        let ghost entry = (sev_copy@, key@, key_all_messages@, refresh);
        let ghost before = out@;
        out.push(
            SeverityInvalidation {
                severity: sev_copy,
                key,
                key_all_messages,
                refresh_categories: refresh,
            },
        );
        assert(sevs[i as int] == severities@[i as int]@);
        assert(plan.len() == sevs.len());
        assert(plan[i as int] == (
            sevs[i as int],
            severity_key(key_base@, sevs[i as int]),
            severity_key(key_base@, sevs[i as int]) + "_all_messages"@,
            sevs[i as int] != "no_problem"@,
        ));
        assert(out@ == before.push(out@[i as int]));
        assert(invalidations_view(out@)[i as int] == entry);
        assert(entry == plan[i as int]);
        assert(invalidations_view(out@).take(i as int) =~= invalidations_view(before));
        assert(invalidations_view(out@) =~= plan.take(i + 1));
    }
    assert(plan.take(plan.len() as int) =~= plan);
    out
}

/// The cache worker never invalidates the pages of the `import` service.
pub proof fn law_import_never_invalidated(seen: Map<Seq<char>, usize>, key_base: Seq<char>, queued: usize)
    ensures
        !pass_invalidates(seen, "import"@, key_base, queued),
        seen_after_pass(seen, "import"@, key_base, queued) == seen,
{
}

/// For any other service, a pass invalidates exactly when the queued count
/// differs from the count recorded by earlier passes (999 999 when none), and
/// afterwards the recorded count is the queued count.
pub proof fn law_invalidation_tracks_queue_count(
    seen: Map<Seq<char>, usize>,
    service_name: Seq<char>,
    key_base: Seq<char>,
    queued: usize,
)
    requires
        service_name != "import"@,
    ensures
        pass_invalidates(seen, service_name, key_base, queued) == (recorded_count(seen, key_base)
            != queued),
        recorded_count(seen_after_pass(seen, service_name, key_base, queued), key_base) == queued,
        !seen.contains_key(key_base) ==> (pass_invalidates(seen, service_name, key_base, queued)
            <==> queued != 999_999),
{
}

/// The keys the cache worker deletes are exactly the keys under which report
/// pages are cached: a severity page and a category page, each with and without
/// all messages; and it refreshes the category pages of exactly the severities
/// whose pages are cached.
pub proof fn law_invalidated_keys_are_cache_keys(
    corpus_id: int,
    service_id: int,
    severity: Seq<char>,
    category: Seq<char>,
)
    ensures
        severity_key(cache_base(corpus_id, service_id), severity) == report_cache_key(
            corpus_id,
            service_id,
            Some(severity),
            None,
            None,
            false,
        ),
        severity_key(cache_base(corpus_id, service_id), severity) + "_all_messages"@
            == report_cache_key(corpus_id, service_id, Some(severity), None, None, true),
        category_key(severity_key(cache_base(corpus_id, service_id), severity), category)
            == report_cache_key(corpus_id, service_id, Some(severity), Some(category), None, false),
        category_key(severity_key(cache_base(corpus_id, service_id), severity), category)
            + "_all_messages"@ == report_cache_key(
            corpus_id,
            service_id,
            Some(severity),
            Some(category),
            None,
            true,
        ),
        (severity != "no_problem"@) == is_cached_page(Some(severity), None),
{
    let b = cache_base(corpus_id, service_id);
    assert(severity_key(b, severity) =~= report_cache_key(
        corpus_id,
        service_id,
        Some(severity),
        None,
        None,
        false,
    ));
    assert(severity_key(b, severity) + "_all_messages"@ =~= report_cache_key(
        corpus_id,
        service_id,
        Some(severity),
        None,
        None,
        true,
    ));
    assert(category_key(severity_key(b, severity), category) =~= report_cache_key(
        corpus_id,
        service_id,
        Some(severity),
        Some(category),
        None,
        false,
    ));
    assert(category_key(severity_key(b, severity), category) + "_all_messages"@ =~= report_cache_key(
        corpus_id,
        service_id,
        Some(severity),
        Some(category),
        None,
        true,
    ));
}

} // verus!

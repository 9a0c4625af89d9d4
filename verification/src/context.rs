//! The data handed to page templates, and its link decorations.
use vstd::prelude::*;
use crate::strmap::StrMap;
use crate::text::{join_text, push_str, string_from};
use crate::uri::aux_uri_escape;

verus! {

/// What a page template is rendered with: global key/value pairs and optional
/// lists of key/value records.
pub struct TemplateContext {
    pub global: StrMap<String>,
    pub corpora: Option<Vec<StrMap<String>>>,
    pub services: Option<Vec<StrMap<String>>>,
    pub entries: Option<Vec<StrMap<String>>>,
    pub categories: Option<Vec<StrMap<String>>>,
    pub whats: Option<Vec<StrMap<String>>>,
    pub workers: Option<Vec<StrMap<String>>>,
}

impl Default for TemplateContext {
    /// An empty global map and no lists.
    fn default() -> (c: Self)
        ensures
            c.global@ == Map::<Seq<char>, Seq<char>>::empty(),
            c.corpora is None,
            c.services is None,
            c.entries is None,
            c.categories is None,
            c.whats is None,
            c.workers is None,
    {
        TemplateContext {
            global: StrMap::new(),
            corpora: None,
            services: None,
            entries: None,
            categories: None,
            whats: None,
            workers: None,
        }
    }
}

/// The key under which the escaped form of the value of `k` is stored.
pub open spec fn uri_key(k: Seq<char>) -> Seq<char> {
    k + "_uri"@
}

/// Whether `k` is the link key of some key of `m`.
pub open spec fn is_uri_key_of(m: Map<Seq<char>, Seq<char>>, k: Seq<char>) -> bool {
    exists|j: Seq<char>| m.contains_key(j) && #[trigger] uri_key(j) == k
}

/// The key of `m` whose link key is `k`.
pub open spec fn uri_key_source(m: Map<Seq<char>, Seq<char>>, k: Seq<char>) -> Seq<char> {
    choose|j: Seq<char>| m.contains_key(j) && #[trigger] uri_key(j) == k
}

/// The link decorations of `m`: for each key `k`, the key `k_uri` holding the
/// escaped value of `k`.
pub open spec fn decorations(m: Map<Seq<char>, Seq<char>>) -> Map<Seq<char>, Seq<char>> {
    Map::new(
        |k: Seq<char>| is_uri_key_of(m, k),
        |k: Seq<char>| crate::uri::uri_escaped(m[uri_key_source(m, k)]),
    )
}

/// `m` with its link decorations added; a decoration wins over an entry of the same key.
pub open spec fn decorated(m: Map<Seq<char>, Seq<char>>) -> Map<Seq<char>, Seq<char>> {
    m.union_prefer_right(decorations(m))
}

proof fn lemma_uri_key_injective(a: Seq<char>, b: Seq<char>)
    requires
        uri_key(a) == uri_key(b),
    ensures
        a == b,
{
    let s = "_uri"@;
    assert(uri_key(a).len() == a.len() + s.len());
    assert(uri_key(b).len() == b.len() + s.len());
    assert(a.len() == b.len());
    assert(a =~= uri_key(a).take(a.len() as int));
    assert(b =~= uri_key(b).take(b.len() as int));
}

/// Adds to `m`, for each of its keys `k`, the key `k_uri` with the escaped value of `k`.
pub fn decorate_map(m: &mut StrMap<String>)
    ensures
        final(m)@ == decorated(old(m)@),
{
    let ghost m0 = m@;
    let n = m.len();
    let mut pairs: Vec<(String, String)> = Vec::new();
    for i in 0..n
        invariant
            m@ == m0,
            n == m.keys().len(),
            pairs@.len() == i,
            forall|j: int|
                0 <= j < i ==> (#[trigger] pairs@[j]).0@ == uri_key(m.keys()[j]) && pairs@[j].1@
                    == crate::uri::uri_escaped(m0[m.keys()[j]]),
    {
        let k = m.key_at(i);
        let v = m.value_at(i);
        let dk = join_text(k.as_str(), "_uri");
        let ev = aux_uri_escape(Some(v.clone()));
        match ev {
            Some(e) => {
                pairs.push((dk, e));
            },
            None => {
                pairs.push((dk, String::new()));
            },
        }
    }
    let ghost keys = m.keys();
    for i in 0..n
        invariant
            pairs@.len() == n,
            n == keys.len(),
            keys.no_duplicates(),
            forall|k: Seq<char>| m0.contains_key(k) <==> keys.contains(k),
            forall|j: int|
                0 <= j < n ==> (#[trigger] pairs@[j]).0@ == uri_key(keys[j]) && pairs@[j].1@
                    == crate::uri::uri_escaped(m0[keys[j]]),
            m@ == m0.union_prefer_right(
                Map::new(|k: Seq<char>| exists|j: int| 0 <= j < i && uri_key(keys[j]) == k, |k: Seq<char>| crate::uri::uri_escaped(m0[uri_key_source(m0, k)])),
            ),
    {
        let dk = pairs[i].0.clone();
        let e = pairs[i].1.clone();
        let ghost before = Map::new(
            |k: Seq<char>| exists|j: int| 0 <= j < i && uri_key(keys[j]) == k,
            |k: Seq<char>| crate::uri::uri_escaped(m0[uri_key_source(m0, k)]),
        );
        let ghost after = Map::new(
            |k: Seq<char>| exists|j: int| 0 <= j < i + 1 && uri_key(keys[j]) == k,
            |k: Seq<char>| crate::uri::uri_escaped(m0[uri_key_source(m0, k)]),
        );
        proof {
            let ki = keys[i as int];
            assert(keys.contains(ki));
            assert(m0.contains_key(ki));
            assert(m0.contains_key(ki) && uri_key(ki) == uri_key(ki));
            let w = uri_key_source(m0, uri_key(ki));
            assert(m0.contains_key(w) && uri_key(w) == uri_key(ki));
            lemma_uri_key_injective(w, ki);
            assert(after =~= before.insert(uri_key(ki), crate::uri::uri_escaped(m0[ki]))) by {
                assert(after.contains_key(uri_key(ki)));
            }
            assert(m0.union_prefer_right(before).insert(uri_key(ki), crate::uri::uri_escaped(m0[ki]))
                =~= m0.union_prefer_right(after));
        }
        m.insert(dk, e);
    }
    proof {
        let fin = Map::new(|k: Seq<char>| exists|j: int| 0 <= j < n && uri_key(keys[j]) == k, |k: Seq<char>| crate::uri::uri_escaped(m0[uri_key_source(m0, k)]));
        assert forall|k: Seq<char>| fin.contains_key(k) == decorations(m0).contains_key(k) by {
            if fin.contains_key(k) {
                let j = choose|j: int| 0 <= j < n && uri_key(keys[j]) == k;
                assert(keys.contains(keys[j]));
                assert(m0.contains_key(keys[j]) && uri_key(keys[j]) == k);
            }
            if decorations(m0).contains_key(k) {
                let w = choose|w: Seq<char>| m0.contains_key(w) && #[trigger] uri_key(w) == k;
                assert(keys.contains(w));
                let j = choose|j: int| 0 <= j < keys.len() && keys[j] == w;
                assert(uri_key(keys[j]) == k);
            }
        }
        assert(fin =~= decorations(m0));
    }
}

/// The contents of a list of records.
pub open spec fn records(v: Seq<StrMap<String>>) -> Seq<Map<Seq<char>, Seq<char>>> {
    v.map_values(|m: StrMap<String>| m@)
}

/// The contents of an optional list of records.
pub open spec fn records_opt(o: Option<Vec<StrMap<String>>>) -> Option<Seq<Map<Seq<char>, Seq<char>>>> {
    match o {
        Some(v) => Some(records(v@)),
        None => None,
    }
}

/// Each record of an optional list, decorated.
pub open spec fn decorated_records(o: Option<Seq<Map<Seq<char>, Seq<char>>>>) -> Option<
    Seq<Map<Seq<char>, Seq<char>>>,
> {
    match o {
        Some(s) => Some(s.map_values(|m: Map<Seq<char>, Seq<char>>| decorated(m))),
        None => None,
    }
}

/// Decorating an optional list of records decorates each record in place:
/// no list stays no list, and a list keeps its length and order.
pub proof fn law_decorated_lists(o: Option<Seq<Map<Seq<char>, Seq<char>>>>)
    ensures
        o is None ==> decorated_records(o) is None,
        o is Some ==> ({
            let w = decorated_records(o)->0;
            &&& decorated_records(o) is Some
            &&& w.len() == o->0.len()
            &&& forall|i: int| 0 <= i < w.len() ==> #[trigger] w[i] == decorated(o->0[i])
        }),
{
}

fn decorate_records(list: &mut Option<Vec<StrMap<String>>>)
    ensures
        records_opt(*final(list)) == decorated_records(records_opt(*old(list))),
{
    match list.take() {
        None => {},
        Some(v) => {
            let ghost v0 = records(v@);
            let mut v = v;
            let mut out: Vec<StrMap<String>> = Vec::new();
            let n = v.len();
            while v.len() > 0
                invariant
                    n == v0.len(),
                    out@.len() + v@.len() == n,
                    forall|j: int| 0 <= j < v@.len() ==> (#[trigger] v@[j])@ == v0[out@.len() + j],
                    forall|j: int| 0 <= j < out@.len() ==> (#[trigger] out@[j])@ == decorated(v0[j]),
                decreases v@.len(),
            {
                let ghost k = out@.len();
                let ghost before = v@;
                let mut m = v.remove(0);
                assert(m@ == v0[k as int]);
                decorate_map(&mut m);
                out.push(m);
                assert forall|j: int| 0 <= j < v@.len() implies (#[trigger] v@[j])@ == v0[out@.len()
                    + j] by {
                    assert(v@[j] == before[j + 1]);
                }
            }
            assert(records(out@) =~= v0.map_values(|m: Map<Seq<char>, Seq<char>>| decorated(m)));
            *list = Some(out);
        },
    }
}

/// The link to the current report page, built from the decorated global map:
/// `/corpus/<corpus>/<service>/`, then `<severity>/`, `<category>/` and `<what>`
/// as far as they are present in turn.
pub open spec fn current_link(g: Map<Seq<char>, Seq<char>>) -> Option<Seq<char>> {
    if g.contains_key("corpus_name_uri"@) && g.contains_key("service_name_uri"@) {
        Some(
            "/corpus/"@ + g["corpus_name_uri"@] + "/"@ + g["service_name_uri"@] + "/"@ + link_tail(
                g,
            ),
        )
    } else {
        None
    }
}

/// The severity, category and what parts of the current link.
pub open spec fn link_tail(g: Map<Seq<char>, Seq<char>>) -> Seq<char> {
    if g.contains_key("severity_uri"@) {
        g["severity_uri"@] + "/"@ + if g.contains_key("category_uri"@) {
            g["category_uri"@] + "/"@ + if g.contains_key("what_uri"@) {
                g["what_uri"@]
            } else {
                Seq::empty()
            }
        } else {
            Seq::empty()
        }
    } else {
        Seq::empty()
    }
}

/// The global map with its decorations and, where one can be built, the current link.
pub open spec fn decorated_global(g: Map<Seq<char>, Seq<char>>) -> Map<Seq<char>, Seq<char>> {
    let d = decorated(g);
    match current_link(d) {
        Some(link) => d.insert("current_link_uri"@, link),
        None => d,
    }
}

/// Adds link decorations to the global map and to every record of the corpus,
/// service, entry, category and what lists, then records the current report
/// link under `current_link_uri`. The worker list is left as it is.
pub fn aux_decorate_uri_encodings(context: &mut TemplateContext)
    ensures
        final(context).global@ == decorated_global(old(context).global@),
        records_opt(final(context).corpora) == decorated_records(records_opt(old(context).corpora)),
        records_opt(final(context).services) == decorated_records(
            records_opt(old(context).services),
        ),
        records_opt(final(context).entries) == decorated_records(records_opt(old(context).entries)),
        records_opt(final(context).categories) == decorated_records(
            records_opt(old(context).categories),
        ),
        records_opt(final(context).whats) == decorated_records(records_opt(old(context).whats)),
        final(context).workers == old(context).workers,
{
    decorate_records(&mut context.corpora);
    decorate_records(&mut context.services);
    decorate_records(&mut context.entries);
    decorate_records(&mut context.categories);
    decorate_records(&mut context.whats);
    decorate_map(&mut context.global);
    let g = &context.global;
    let link = match (g.get("corpus_name_uri"), g.get("service_name_uri")) {
        (Some(corpus_name), Some(service_name)) => {
            let mut link = string_from("/corpus/");
            push_str(&mut link, corpus_name.as_str());
            push_str(&mut link, "/");
            push_str(&mut link, service_name.as_str());
            push_str(&mut link, "/");
            match g.get("severity_uri") {
                Some(severity) => {
                    push_str(&mut link, severity.as_str());
                    push_str(&mut link, "/");
                    match g.get("category_uri") {
                        Some(category) => {
                            push_str(&mut link, category.as_str());
                            push_str(&mut link, "/");
                            match g.get("what_uri") {
                                Some(what) => {
                                    push_str(&mut link, what.as_str());
                                },
                                None => {},
                            }
                        },
                        None => {},
                    }
                },
                None => {},
            }
            assert(link@ =~= current_link(g@)->0);
            Some(link)
        },
        _ => None,
    };
    match link {
        Some(l) => {
            context.global.insert(string_from("current_link_uri"), l);
        },
        None => {},
    }
}

/// Decorating a map keeps every entry whose key is not the link key of another,
/// and gives every key `k` a link key `k_uri` holding the escaped value of `k`;
/// the route that receives such a link decodes it back to the value, for every
/// value without a `%`.
pub proof fn law_decoration_links_decode(m: Map<Seq<char>, Seq<char>>, k: Seq<char>)
    requires
        m.contains_key(k),
    ensures
        !is_uri_key_of(m, k) ==> decorated(m).contains_key(k) && decorated(m)[k] == m[k],
        decorated(m).contains_key(uri_key(k)),
        decorated(m)[uri_key(k)] == crate::uri::uri_escaped(m[k]),
        !m[k].contains('%') ==> crate::uri::uri_unescaped(decorated(m)[uri_key(k)]) == m[k],
{
    assert(is_uri_key_of(m, uri_key(k)));
    let w = uri_key_source(m, uri_key(k));
    lemma_uri_key_injective(w, k);
    if !m[k].contains('%') {
        crate::uri::law_uri_unescape_inverts_escape(m[k]);
    }
}

/// The current report link has one path segment per selector present, in the
/// order corpus, service, severity, category, what: each segment is the
/// selector's link value, every segment but the last followed by `/`, and a
/// link without category or what ends with `/` after the last selector given.
pub proof fn law_current_link_segments(g: Map<Seq<char>, Seq<char>>)
    ensures
        ({
            let d = decorated(g);
            let r = decorated_global(g);
            let base = "/corpus/"@ + d["corpus_name_uri"@] + "/"@ + d["service_name_uri"@] + "/"@;
            &&& (d.contains_key("corpus_name_uri"@) && d.contains_key("service_name_uri"@) && d.contains_key("severity_uri"@) && d.contains_key(
                "category_uri"@,
            ) && d.contains_key("what_uri"@)) ==> r["current_link_uri"@] == base + d["severity_uri"@] + "/"@
                + d["category_uri"@] + "/"@ + d["what_uri"@]
            &&& (d.contains_key("corpus_name_uri"@) && d.contains_key("service_name_uri"@) && d.contains_key("severity_uri"@) && d.contains_key(
                "category_uri"@,
            ) && !d.contains_key("what_uri"@)) ==> r["current_link_uri"@] == base + d["severity_uri"@] + "/"@
                + d["category_uri"@] + "/"@
            &&& (d.contains_key("corpus_name_uri"@) && d.contains_key("service_name_uri"@) && d.contains_key("severity_uri"@) && !d.contains_key(
                "category_uri"@,
            )) ==> r["current_link_uri"@] == base + d["severity_uri"@] + "/"@
            &&& (d.contains_key("corpus_name_uri"@) && d.contains_key("service_name_uri"@) && !d.contains_key("severity_uri"@))
                ==> r["current_link_uri"@] == base
            &&& (d.contains_key("corpus_name_uri"@) && d.contains_key("service_name_uri"@)) ==> r.contains_key(
                "current_link_uri"@,
            )
            &&& !(d.contains_key("corpus_name_uri"@) && d.contains_key("service_name_uri"@)) ==> r == d
        }),
{
    let d = decorated(g);
    let base = "/corpus/"@ + d["corpus_name_uri"@] + "/"@ + d["service_name_uri"@] + "/"@;
    if d.contains_key("corpus_name_uri"@) && d.contains_key("service_name_uri"@) {
        assert(current_link(d) == Some(base + link_tail(d)));
        if d.contains_key("severity_uri"@) {
            if d.contains_key("category_uri"@) {
                if d.contains_key("what_uri"@) {
                    assert(base + link_tail(d) =~= base + d["severity_uri"@] + "/"@
                        + d["category_uri"@] + "/"@ + d["what_uri"@]);
                } else {
                    assert(base + link_tail(d) =~= base + d["severity_uri"@] + "/"@
                        + d["category_uri"@] + "/"@);
                }
            } else {
                assert(base + link_tail(d) =~= base + d["severity_uri"@] + "/"@);
            }
        } else {
            assert(base + link_tail(d) =~= base);
        }
    }
}

/// When the globals name a corpus, a service, a severity, a category and a
/// what, the current link is `/corpus/<c>/<s>/<sev>/<cat>/<what>` with each of
/// the five values escaped.
pub proof fn law_current_link_of_selectors(g: Map<Seq<char>, Seq<char>>)
    requires
        g.contains_key("corpus_name"@),
        g.contains_key("service_name"@),
        g.contains_key("severity"@),
        g.contains_key("category"@),
        g.contains_key("what"@),
    ensures
        decorated_global(g)["current_link_uri"@] == "/corpus/"@ + crate::uri::uri_escaped(
            g["corpus_name"@],
        ) + "/"@ + crate::uri::uri_escaped(g["service_name"@]) + "/"@ + crate::uri::uri_escaped(
            g["severity"@],
        ) + "/"@ + crate::uri::uri_escaped(g["category"@]) + "/"@ + crate::uri::uri_escaped(
            g["what"@],
        ),
{
    reveal_strlit("corpus_name");
    reveal_strlit("service_name");
    reveal_strlit("severity");
    reveal_strlit("category");
    reveal_strlit("what");
    reveal_strlit("corpus_name_uri");
    reveal_strlit("service_name_uri");
    reveal_strlit("severity_uri");
    reveal_strlit("category_uri");
    reveal_strlit("what_uri");
    reveal_strlit("_uri");
    reveal_strlit("current_link_uri");
    assert(uri_key("corpus_name"@) =~= "corpus_name_uri"@);
    assert(uri_key("service_name"@) =~= "service_name_uri"@);
    assert(uri_key("severity"@) =~= "severity_uri"@);
    assert(uri_key("category"@) =~= "category_uri"@);
    assert(uri_key("what"@) =~= "what_uri"@);
    law_decoration_links_decode(g, "corpus_name"@);
    law_decoration_links_decode(g, "service_name"@);
    law_decoration_links_decode(g, "severity"@);
    law_decoration_links_decode(g, "category"@);
    law_decoration_links_decode(g, "what"@);
    law_current_link_segments(g);
}

} // verus!

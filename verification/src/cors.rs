//! The CORS response fairing's decisions.
use vstd::prelude::*;
use crate::text::string_from;

verus! {

/// Adds CORS headers to responses.
pub struct CORS();

/// What the fairing does to a response.
pub struct CorsResponse {
    /// The headers to set, in order.
    pub headers: Vec<(String, String)>,
    /// Whether the response becomes an empty plain-text body (preflight requests).
    pub plain_empty_body: bool,
}

/// The CORS headers, in the order they are set.
pub open spec fn cors_headers() -> Seq<(Seq<char>, Seq<char>)> {
    seq![
        ("Access-Control-Allow-Origin"@, "*"@),
        ("Access-Control-Allow-Methods"@, "POST, GET, OPTIONS"@),
        ("Access-Control-Allow-Headers"@, "Content-Type"@),
        ("Access-Control-Allow-Credentials"@, "true"@),
        (
            "Content-Security-Policy-Report-Only"@,
            "default-src https:; report-uri /csp-violation-report-endpoint/"@,
        ),
    ]
}

/// The view of a list of headers.
pub open spec fn header_pairs(v: Seq<(String, String)>) -> Seq<(Seq<char>, Seq<char>)> {
    v.map_values(|h: (String, String)| (h.0@, h.1@))
}

impl CORS {
    /// The name of the fairing.
    pub fn name(&self) -> (r: &'static str)
        ensures
            r@ == "Add CORS headers to requests"@,
    {
        "Add CORS headers to requests"
    }

    /// The CORS headers go on preflight (`OPTIONS`) requests and on JSON
    /// responses; a preflight request is answered with an empty plain-text body.
    pub fn on_response(&self, is_options: bool, is_json: bool) -> (r: CorsResponse)
        ensures
            header_pairs(r.headers@) == (if is_options || is_json {
                cors_headers()
            } else {
                Seq::empty()
            }),
            r.plain_empty_body == is_options,
    {
        let mut headers: Vec<(String, String)> = Vec::new();
        if is_options || is_json {
            headers.push((string_from("Access-Control-Allow-Origin"), string_from("*")));
            headers.push((string_from("Access-Control-Allow-Methods"), string_from("POST, GET, OPTIONS")));
            headers.push((string_from("Access-Control-Allow-Headers"), string_from("Content-Type")));
            headers.push((string_from("Access-Control-Allow-Credentials"), string_from("true")));
            headers.push(
                (
                    string_from("Content-Security-Policy-Report-Only"),
                    string_from("default-src https:; report-uri /csp-violation-report-endpoint/"),
                ),
            );
        }
        assert(header_pairs(headers@) =~= (if is_options || is_json {
            cors_headers()
        } else {
            Seq::empty()
        }));
        CorsResponse { headers, plain_empty_body: is_options }
    }
}

} // verus!

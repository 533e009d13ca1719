use vstd::prelude::*;
use crate::domain::{ConfigError, DomainParts, has_two_labels, prefix_of, root_of};
use crate::reconcile::{Reconciler, Response, STATUS_UNAUTHORIZED, response};
use crate::records::{ClientAddr, Record, build_records, record_set, views};
use crate::subdomain::{assign_subdomain, full_subdomain, full_subdomain_of, is_generated_label, qualified_name};

verus! {

/// The process-wide settings the handler reads: the split apex domain and the
/// optional static token. Built once at startup and never changed.
#[derive(Debug)]
pub struct Config {
    pub parts: DomainParts,
    pub token: Option<String>,
}

impl Config {
    /// Builds the settings, failing where the apex domain has a single label.
    pub fn new(domain: &str, token: Option<String>) -> (r: Result<Config, ConfigError>)
        ensures
            r is Err <==> !has_two_labels(domain@),
            r matches Ok(c) ==> {
                &&& c.parts.prefix@ == prefix_of(domain@)
                &&& c.parts.root@ == root_of(domain@)
                &&& c.token == token
            },
    {
        match DomainParts::from_domain(domain) {
            Ok(parts) => Ok(Config { parts, token }),
            Err(e) => Err(e),
        }
    }
}

/// The query parameters of one request.
#[derive(Debug)]
pub struct RequestParams {
    pub token: String,
    pub subdomain: Option<String>,
    pub a: Option<String>,
    pub aaaa: Option<String>,
    pub txt: Option<String>,
    pub clear: Option<bool>,
}

/// The request only removes records; absent means false.
pub open spec fn clear_of(p: &RequestParams) -> bool {
    match p.clear {
        Some(b) => b,
        None => false,
    }
}

/// Whether the request's token passes: always when no token is configured.
pub open spec fn is_authorized(configured: Option<String>, given: Seq<char>) -> bool {
    match configured {
        Some(t) => t@ == given,
        None => true,
    }
}

/// Whether the request's token passes.
pub fn authorize(configured: &Option<String>, given: &String) -> (r: bool)
    ensures
        r == is_authorized(*configured, given@),
{
    match configured {
        Some(t) => t.eq(given),
        None => true,
    }
}

/// Whether the request only removes records.
pub fn clear_flag(params: &RequestParams) -> (r: bool)
    ensures
        r == clear_of(params),
{
    match params.clear {
        Some(b) => b,
        None => false,
    }
}

/// The answer to a request whose token does not pass.
pub fn unauthorized(clear: bool) -> (r: Response)
    ensures
        r.status == STATUS_UNAUTHORIZED,
        r.message@ == "Unauthorized: Invalid token"@,
        r.domain@ == Seq::<char>::empty(),
        r.records@.len() == 0,
        r.clear == clear,
{
    proof {
        reveal_strlit("");
    }
    response(STATUS_UNAUTHORIZED, "Unauthorized: Invalid token", "", Vec::new(), clear)
}

/// The reconciliation a request starts, for the label `assigned`: under the
/// subdomain made of that label and the apex prefix, with the record set of
/// the request, and nothing done yet.
pub open spec fn is_started(
    config: &Config,
    params: &RequestParams,
    client: &ClientAddr,
    assigned: Seq<char>,
    rec: &Reconciler,
) -> bool {
    &&& rec.wf()
    &&& rec.pos == 0
    &&& !rec.failed
    &&& rec.clear == clear_of(params)
    &&& rec.subdomain@ == full_subdomain_of(assigned, config.parts.prefix@)
    &&& rec.domain@ == rec.subdomain@ + seq!['.'] + config.parts.root@
    &&& views(rec.records@) == record_set(params.a, params.aaaa, params.txt, *client)
}

/// Authorizes a request and, where it passes, starts its reconciliation under
/// the label `assigned`. A request that fails authorization gets a `401`
/// response and no reconciliation, so no provider call is made for it.
pub fn prepare(config: &Config, params: &RequestParams, client: &ClientAddr, assigned: &str) -> (r:
    Result<Reconciler, Response>)
    ensures
        r is Err <==> !is_authorized(config.token, params.token@),
        r matches Err(resp) ==> resp.status == STATUS_UNAUTHORIZED && resp.records@.len() == 0
            && resp.clear == clear_of(params),
        r matches Ok(rec) ==> is_started(config, params, client, assigned@, &rec),
{
    let clear = clear_flag(params);
    if !authorize(&config.token, &params.token) {
        return Err(unauthorized(clear));
    }
    let subdomain = full_subdomain(assigned, config.parts.prefix.as_str());
    let domain = qualified_name(subdomain.as_str(), config.parts.root.as_str());
    let records: Vec<Record> = build_records(&params.a, &params.aaaa, &params.txt, client);
    proof {
        assert(records@.len() == views(records@).len());
    }
    Ok(Reconciler::new(subdomain, domain, records, clear))
}

/// Authorizes a request and, where it passes, starts its reconciliation under
/// the requested subdomain, or under a fresh random label when none was
/// requested.
pub fn handle_request(config: &Config, params: &RequestParams, client: &ClientAddr) -> (r: Result<
    Reconciler,
    Response,
>)
    ensures
        r is Err <==> !is_authorized(config.token, params.token@),
        r matches Err(resp) ==> resp.status == STATUS_UNAUTHORIZED && resp.records@.len() == 0
            && resp.clear == clear_of(params),
        r matches Ok(rec) ==> match params.subdomain {
            Some(s) => is_started(config, params, client, s@, &rec),
            None => exists|g: Seq<char>|
                is_generated_label(g) && #[trigger] is_started(config, params, client, g, &rec),
        },
{
    if !authorize(&config.token, &params.token) {
        return Err(unauthorized(clear_flag(params)));
    }
    let assigned = assign_subdomain(&params.subdomain);
    prepare(config, params, client, assigned.as_str())
}

} // verus!

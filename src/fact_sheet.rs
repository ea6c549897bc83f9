use vstd::prelude::*;
use vstd::string::*;

verus! {

/// What the project needs, as classified by the solution design agent.
#[derive(Debug, Clone, Copy, PartialEq, Eq, Structural)]
pub struct ProjectScope {
    pub is_crud_required: bool,
    pub is_user_login_and_logout: bool,
    pub is_external_urls_required: bool,
}

/// One HTTP endpoint of the generated server. The dynamic-path flag is kept as the
/// text the model writes (`"true"` / `"false"`).
#[derive(Debug, Clone, PartialEq, Eq)]
pub struct RouteObject {
    pub is_route_dynamic: String,
    pub method: String,
    pub route: String,
}

pub const GET_METHOD: &'static str = "get";

pub const STATIC_ROUTE_FLAG: &'static str = "false";

/// A route that is probed on the running server: a GET on a static path.
pub open spec fn is_check_endpoint(r: RouteObject) -> bool {
    r.method@ == GET_METHOD@ && r.is_route_dynamic@ == STATIC_ROUTE_FLAG@
}

/// The routes of `routes` that are probed, in their original order.
pub open spec fn check_endpoints_of(routes: Seq<RouteObject>) -> Seq<RouteObject> {
    routes.filter(|r: RouteObject| is_check_endpoint(r))
}

impl RouteObject {
    /// A copy of this route, field by field.
    pub fn copied(&self) -> (r: RouteObject)
        ensures
            r == *self,
    {
        RouteObject {
            is_route_dynamic: self.is_route_dynamic.clone(),
            method: self.method.clone(),
            route: self.route.clone(),
        }
    }

    /// Whether this route is a GET on a static path.
    pub fn is_check_endpoint(&self) -> (b: bool)
        ensures
            b == is_check_endpoint(*self),
    {
        self.method == String::from_str(GET_METHOD) && self.is_route_dynamic == String::from_str(
            STATIC_ROUTE_FLAG,
        )
    }
}

/// Keeps the routes whose method is `"get"` and whose dynamic flag is `"false"`.
pub fn check_endpoints(routes: &Vec<RouteObject>) -> (r: Vec<RouteObject>)
    ensures
        r@ == check_endpoints_of(routes@),
{
    let mut out: Vec<RouteObject> = Vec::new();
    let mut i: usize = 0;
    while i < routes.len()
        invariant
            i <= routes@.len(),
            out@ == check_endpoints_of(routes@.take(i as int)),
        decreases routes@.len() - i,
    {
        proof {
            reveal(Seq::filter);
            assert(routes@.take(i + 1).drop_last() == routes@.take(i as int));
        }
        if routes[i].is_check_endpoint() {
            out.push(routes[i].copied());
        }
        i += 1;
    }
    assert(routes@.take(i as int) == routes@);
    out
}

/// Filtering is stable: the probed routes of an already filtered sequence are
/// that same sequence.
pub proof fn lemma_check_endpoints_idempotent(routes: Seq<RouteObject>)
    ensures
        check_endpoints_of(check_endpoints_of(routes)) == check_endpoints_of(routes),
    decreases routes.len(),
{
    reveal(Seq::filter);
    if routes.len() > 0 {
        lemma_check_endpoints_idempotent(routes.drop_last());
        let prev = check_endpoints_of(routes.drop_last());
        if is_check_endpoint(routes.last()) {
            assert(prev.push(routes.last()).drop_last() == prev);
        }
    }
}

/// The shared project document that every agent reads and fills in.
#[derive(Debug)]
pub struct FactSheet {
    pub project_description: String,
    pub project_scope: Option<ProjectScope>,
    pub external_urls: Option<Vec<String>>,
    pub backend_code: Option<String>,
    pub api_endpoint_schema: Option<Vec<RouteObject>>,
}

impl FactSheet {
    /// A fact sheet that holds only the project's description.
    pub fn new(project_description: String) -> (fs: FactSheet)
        ensures
            fs.project_description == project_description,
            fs.project_scope is None,
            fs.external_urls is None,
            fs.backend_code is None,
            fs.api_endpoint_schema is None,
    {
        FactSheet {
            project_description,
            project_scope: None,
            external_urls: None,
            backend_code: None,
            api_endpoint_schema: None,
        }
    }
}


pub const NONE_TEXT: &'static str = "none";

pub const TRUE_TEXT: &'static str = "true";

pub const FALSE_TEXT: &'static str = "false";

pub const CRUD_LABEL: &'static str = "is_crud_required: ";

pub const LOGIN_LABEL: &'static str = ", is_user_login_and_logout: ";

pub const EXTERNAL_URLS_FLAG_LABEL: &'static str = ", is_external_urls_required: ";

pub const ITEM_PREFIX: &'static str = "\n  - ";

pub const ROUTE_DYNAMIC_LABEL: &'static str = " (dynamic: ";

pub const ROUTE_END: &'static str = ")";

pub const SPACE: &'static str = " ";

pub const SHEET_DESCRIPTION_LABEL: &'static str = "PROJECT_DESCRIPTION: ";

pub const SHEET_SCOPE_LABEL: &'static str = " \n PROJECT_SCOPE: ";

pub const SHEET_URLS_LABEL: &'static str = " \n EXTERNAL_URLS: ";

pub const SHEET_SCHEMA_LABEL: &'static str = " \n API_ENDPOINT_SCHEMA: ";

pub open spec fn bool_text(b: bool) -> Seq<char> {
    if b {
        TRUE_TEXT@
    } else {
        FALSE_TEXT@
    }
}

/// The project scope as text, or `none` where it is not set yet.
pub open spec fn scope_text(scope: Option<ProjectScope>) -> Seq<char> {
    match scope {
        None => NONE_TEXT@,
        Some(s) => CRUD_LABEL@ + bool_text(s.is_crud_required) + LOGIN_LABEL@ + bool_text(
            s.is_user_login_and_logout,
        ) + EXTERNAL_URLS_FLAG_LABEL@ + bool_text(s.is_external_urls_required),
    }
}

/// The URLs as a list, one item per URL.
pub open spec fn url_list_text(urls: Seq<String>) -> Seq<char>
    decreases urls.len(),
{
    if urls.len() == 0 {
        Seq::empty()
    } else {
        url_list_text(urls.drop_last()) + ITEM_PREFIX@ + urls.last()@
    }
}

/// One route as `method route (dynamic: flag)`.
pub open spec fn route_text(r: RouteObject) -> Seq<char> {
    r.method@ + SPACE@ + r.route@ + ROUTE_DYNAMIC_LABEL@ + r.is_route_dynamic@ + ROUTE_END@
}

/// The routes as a list, one item per route.
pub open spec fn route_list_text(routes: Seq<RouteObject>) -> Seq<char>
    decreases routes.len(),
{
    if routes.len() == 0 {
        Seq::empty()
    } else {
        route_list_text(routes.drop_last()) + ITEM_PREFIX@ + route_text(routes.last())
    }
}

/// The whole fact sheet but its code as text: description, scope, external URLs and
/// endpoint schema, each `none` where it is not set.
pub open spec fn fact_sheet_text(fs: FactSheet) -> Seq<char> {
    SHEET_DESCRIPTION_LABEL@ + fs.project_description@ + SHEET_SCOPE_LABEL@ + scope_text(
        fs.project_scope,
    ) + SHEET_URLS_LABEL@ + match fs.external_urls {
        None => NONE_TEXT@,
        Some(urls) => url_list_text(urls@),
    } + SHEET_SCHEMA_LABEL@ + match fs.api_endpoint_schema {
        None => NONE_TEXT@,
        Some(routes) => route_list_text(routes@),
    }
}

fn bool_str(b: bool) -> (r: &'static str)
    ensures
        r@ == bool_text(b),
{
    if b {
        TRUE_TEXT
    } else {
        FALSE_TEXT
    }
}

fn append_scope(out: &mut String, scope: &Option<ProjectScope>)
    ensures
        final(out)@ == old(out)@ + scope_text(*scope),
{
    match scope {
        None => out.append(NONE_TEXT),
        Some(s) => {
            out.append(CRUD_LABEL);
            out.append(bool_str(s.is_crud_required));
            out.append(LOGIN_LABEL);
            out.append(bool_str(s.is_user_login_and_logout));
            out.append(EXTERNAL_URLS_FLAG_LABEL);
            out.append(bool_str(s.is_external_urls_required));
        },
    }
}

fn append_url_list(out: &mut String, urls: &Vec<String>)
    ensures
        final(out)@ == old(out)@ + url_list_text(urls@),
{
    let ghost start = out@;
    let mut i: usize = 0;
    while i < urls.len()
        invariant
            i <= urls@.len(),
            out@ == start + url_list_text(urls@.take(i as int)),
        decreases urls@.len() - i,
    {
        proof {
            assert(urls@.take(i + 1).drop_last() == urls@.take(i as int));
            assert(urls@.take(i + 1).last() == urls@[i as int]);
        }
        out.append(ITEM_PREFIX);
        out.append(urls[i].as_str());
        i += 1;
    }
    assert(urls@.take(i as int) == urls@);
}

fn append_route_list(out: &mut String, routes: &Vec<RouteObject>)
    ensures
        final(out)@ == old(out)@ + route_list_text(routes@),
{
    let ghost start = out@;
    let mut i: usize = 0;
    while i < routes.len()
        invariant
            i <= routes@.len(),
            out@ == start + route_list_text(routes@.take(i as int)),
        decreases routes@.len() - i,
    {
        proof {
            assert(routes@.take(i + 1).drop_last() == routes@.take(i as int));
            assert(routes@.take(i + 1).last() == routes@[i as int]);
        }
        let r = &routes[i];
        out.append(ITEM_PREFIX);
        out.append(r.method.as_str());
        out.append(SPACE);
        out.append(r.route.as_str());
        out.append(ROUTE_DYNAMIC_LABEL);
        out.append(r.is_route_dynamic.as_str());
        out.append(ROUTE_END);
        i += 1;
    }
    assert(routes@.take(i as int) == routes@);
}

impl FactSheet {
    /// The fact sheet, all but its code, as text for a request to the model.
    pub fn summary_text(&self) -> (r: String)
        ensures
            r@ == fact_sheet_text(*self),
    {
        let mut out = String::from_str(SHEET_DESCRIPTION_LABEL);
        out.append(self.project_description.as_str());
        out.append(SHEET_SCOPE_LABEL);
        append_scope(&mut out, &self.project_scope);
        out.append(SHEET_URLS_LABEL);
        match &self.external_urls {
            None => out.append(NONE_TEXT),
            Some(urls) => append_url_list(&mut out, urls),
        }
        out.append(SHEET_SCHEMA_LABEL);
        match &self.api_endpoint_schema {
            None => out.append(NONE_TEXT),
            Some(routes) => append_route_list(&mut out, routes),
        }
        out
    }
}

} // verus!

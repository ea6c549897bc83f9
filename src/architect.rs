use vstd::prelude::*;
use vstd::string::*;

use crate::basic_agent::{AgentState, BasicAgent};
use crate::errors::AgentError;
use crate::fact_sheet::{FactSheet, ProjectScope};
use crate::message::{extend_ai_function, function_prompt, Message, SYSTEM_ROLE};
use crate::prompts::{print_project_scope, print_site_urls, PRINT_PROJECT_SCOPE, PRINT_SITE_URLS};

verus! {

#[verifier::external_type_specification]
#[verifier::external_body]
pub struct ExJsonError(serde_json::Error);

/// The strings that serde_json decodes from `text` read as a JSON array of strings,
/// or `None` where the text is no such array.
pub uninterp spec fn json_string_list(text: Seq<char>) -> Option<Seq<Seq<char>>>;

/// The character sequences held by a sequence of strings.
pub open spec fn texts_of(v: Seq<String>) -> Seq<Seq<char>> {
    v.map_values(|s: String| s@)
}

/// Relies on serde_json::from_str::<Vec<String>>: it decodes a JSON array of strings,
/// and whether it succeeds, and with what, depends on the text alone.
#[verifier::external_body]
fn decode_string_list(text: &str) -> (r: Result<Vec<String>, serde_json::Error>)
    ensures
        r is Ok <==> json_string_list(text@) is Some,
        r is Ok ==> json_string_list(text@) == Some(texts_of(r->Ok_0@)),
{
    serde_json::from_str::<Vec<String>>(text)
}

pub const ARCHITECT_OBJECTIVE: &'static str =
    "Gather information and design solutions for website development";

pub const ARCHITECT_POSITION: &'static str = "Solution Architect";

/// The status code of a URL that answers.
pub const OK_STATUS: u16 = 200;

/// Whether the check at position `j` observed the status 200. A missing entry, or a
/// transport error (`None`), counts as a failed check.
pub open spec fn answered_ok(statuses: Seq<Option<u16>>, j: int) -> bool {
    0 <= j < statuses.len() && statuses[j] == Some(OK_STATUS)
}

/// Whether some position that holds the URL `u` failed its check.
pub open spec fn url_excluded(urls: Seq<String>, statuses: Seq<Option<u16>>, u: Seq<char>) -> bool {
    exists|j: int| 0 <= j < urls.len() && urls[j]@ == u && !answered_ok(statuses, j)
}

/// The URLs that are kept after the reachability checks, in their original order.
pub open spec fn reachable_urls(urls: Seq<String>, statuses: Seq<Option<u16>>) -> Seq<String> {
    urls.filter(|u: String| !url_excluded(urls, statuses, u@))
}

/// Whether the URL `u` failed a check at any position it holds.
fn is_url_excluded(urls: &Vec<String>, statuses: &Vec<Option<u16>>, u: &String) -> (r: bool)
    ensures
        r == url_excluded(urls@, statuses@, u@),
{
    let mut j: usize = 0;
    while j < urls.len()
        invariant
            j <= urls@.len(),
            forall|k: int|
                0 <= k < j ==> !(#[trigger] urls@[k]@ == u@ && !answered_ok(statuses@, k)),
        decreases urls@.len() - j,
    {
        if urls[j] == *u {
            let ok = j < statuses.len() && match statuses[j] {
                Some(code) => code == OK_STATUS,
                None => false,
            };
            if !ok {
                assert(urls@[j as int]@ == u@ && !answered_ok(statuses@, j as int));
                return true;
            }
        }
        j += 1;
    }
    false
}

/// Removes every URL that failed one of its checks; `statuses[j]` is the outcome of
/// the check of `urls[j]`.
pub fn filter_reachable_urls(urls: &Vec<String>, statuses: &Vec<Option<u16>>) -> (r: Vec<String>)
    ensures
        r@ == reachable_urls(urls@, statuses@),
{
    let ghost pred = |u: String| !url_excluded(urls@, statuses@, u@);
    let mut out: Vec<String> = Vec::new();
    let mut i: usize = 0;
    while i < urls.len()
        invariant
            i <= urls@.len(),
            pred == (|u: String| !url_excluded(urls@, statuses@, u@)),
            out@ == urls@.take(i as int).filter(pred),
        decreases urls@.len() - i,
    {
        proof {
            reveal(Seq::filter);
            assert(urls@.take(i + 1).drop_last() == urls@.take(i as int));
        }
        if !is_url_excluded(urls, statuses, &urls[i]) {
            out.push(urls[i].clone());
        }
        i += 1;
    }
    assert(urls@.take(i as int) == urls@);
    out
}

/// Every URL that the reachability filter keeps was checked, and answered 200 at
/// every position it held.
pub proof fn lemma_reachable_urls_answered(urls: Seq<String>, statuses: Seq<Option<u16>>)
    ensures
        forall|k: int|
            0 <= k < reachable_urls(urls, statuses).len() ==> {
                let u = #[trigger] reachable_urls(urls, statuses)[k];
                &&& urls.contains(u)
                &&& forall|j: int| 0 <= j < urls.len() && urls[j]@ == u@ ==> answered_ok(statuses, j)
            },
{
    broadcast use vstd::seq_lib::group_filter_ensures;
    let pred = |u: String| !url_excluded(urls, statuses, u@);
    assert forall|k: int| 0 <= k < reachable_urls(urls, statuses).len() implies {
        let u = #[trigger] reachable_urls(urls, statuses)[k];
        &&& urls.contains(u)
        &&& forall|j: int| 0 <= j < urls.len() && urls[j]@ == u@ ==> answered_ok(statuses, j)
    } by {
        let u = reachable_urls(urls, statuses)[k];
        assert(urls.filter(pred).contains(u));
        urls.lemma_filter_contains_rev(pred, u);
        assert(pred(u));
    }
}

/// What the solution design agent needs done outside before its next step.
#[derive(Debug)]
pub enum ArchitectAction {
    /// Send this request and decode the answer as a project scope.
    ClassifyScope(Message),
    /// Send this request; its answer goes to `on_external_urls`.
    ListExternalUrls(Message),
    /// Check each of these URLs with a GET; the outcomes go to `on_url_statuses`.
    CheckUrls(Vec<String>),
    /// Nothing is left to do.
    Done,
}

/// The fields of the fact sheet other than the external URLs are those of `before`.
pub open spec fn same_except_urls(before: FactSheet, after: FactSheet) -> bool {
    &&& after.project_description == before.project_description
    &&& after.project_scope == before.project_scope
    &&& after.backend_code == before.backend_code
    &&& after.api_endpoint_schema == before.api_endpoint_schema
}

/// The request that asks the model to act as the function `function_text` on `input`.
pub open spec fn is_request(m: Message, function_text: Seq<char>, input: Seq<char>) -> bool {
    m.role@ == SYSTEM_ROLE@ && m.content@ == function_prompt(function_text, input)
}

/// Decides the project's scope and the external URLs it relies on.
#[derive(Debug)]
pub struct AgentSolutionArchitect {
    pub attributes: BasicAgent,
}

impl AgentSolutionArchitect {
    /// The agent as `new` makes it: its role, in `Discovery`, with an empty memory.
    pub open spec fn is_fresh(&self) -> bool {
        &&& self.attributes.objective@ == ARCHITECT_OBJECTIVE@
        &&& self.attributes.position@ == ARCHITECT_POSITION@
        &&& self.attributes.state == AgentState::Discovery
        &&& self.attributes.memory@.len() == 0
    }

    /// How the agent's state and the fact sheet go together: while the agent is in
    /// `Discovery` no URLs are recorded yet, and from `UnitTesting` on the project
    /// scope is set.
    pub open spec fn sheet_consistent(&self, fact_sheet: FactSheet) -> bool {
        &&& self.attributes.state == AgentState::Discovery ==> fact_sheet.external_urls is None
        &&& self.attributes.state == AgentState::UnitTesting || self.attributes.state
            == AgentState::Finished ==> fact_sheet.project_scope is Some
    }

    pub fn new() -> (a: AgentSolutionArchitect)
        ensures
            a.is_fresh(),
            a.attributes.objective@ == ARCHITECT_OBJECTIVE@,
            a.attributes.position@ == ARCHITECT_POSITION@,
            a.attributes.state == AgentState::Discovery,
            a.attributes.memory@.len() == 0,
    {
        AgentSolutionArchitect {
            attributes: BasicAgent::new(
                String::from_str(ARCHITECT_OBJECTIVE),
                String::from_str(ARCHITECT_POSITION),
            ),
        }
    }

    pub fn get_attributes_from_agent(&self) -> (r: &BasicAgent)
        ensures
            *r == self.attributes,
    {
        &self.attributes
    }

    /// The outside work that the current state calls for.
    pub fn next_action(&self, fact_sheet: &FactSheet) -> (a: ArchitectAction)
        ensures
            self.attributes.state == AgentState::Discovery ==> a is ClassifyScope && is_request(
                a->ClassifyScope_0,
                PRINT_PROJECT_SCOPE@,
                fact_sheet.project_description@,
            ),
            self.attributes.state == AgentState::UnitTesting ==> a is CheckUrls && a->CheckUrls_0@
                == match fact_sheet.external_urls {
                Some(urls) => urls@,
                None => Seq::empty(),
            },
            self.attributes.state == AgentState::Working || self.attributes.state
                == AgentState::Finished ==> a is Done,
    {
        match self.attributes.state {
            AgentState::Discovery => {
                ArchitectAction::ClassifyScope(
                    extend_ai_function(print_project_scope, fact_sheet.project_description.as_str()),
                )
            },
            AgentState::UnitTesting => {
                let urls = match &fact_sheet.external_urls {
                    Some(urls) => urls.clone(),
                    None => Vec::new(),
                };
                ArchitectAction::CheckUrls(urls)
            },
            _ => ArchitectAction::Done,
        }
    }

    /// Records the decoded project scope. Where the project needs external URLs the
    /// agent stays in `Discovery` and asks for them; else it is finished.
    pub fn on_project_scope(&mut self, fact_sheet: &mut FactSheet, scope: ProjectScope) -> (a:
        ArchitectAction)
        ensures
            final(fact_sheet).project_scope == Some(scope),
            old(self).attributes.state == AgentState::Discovery && old(fact_sheet).external_urls
                is None ==> final(self).sheet_consistent(*final(fact_sheet)),
            final(fact_sheet).project_description == old(fact_sheet).project_description,
            final(fact_sheet).external_urls == old(fact_sheet).external_urls,
            final(fact_sheet).backend_code == old(fact_sheet).backend_code,
            final(fact_sheet).api_endpoint_schema == old(fact_sheet).api_endpoint_schema,
            final(self).attributes.objective == old(self).attributes.objective,
            final(self).attributes.position == old(self).attributes.position,
            scope.is_external_urls_required ==> final(self).attributes.state
                == AgentState::Discovery && a is ListExternalUrls && is_request(
                a->ListExternalUrls_0,
                PRINT_SITE_URLS@,
                old(fact_sheet).project_description@,
            ),
            !scope.is_external_urls_required ==> final(self).attributes.state
                == AgentState::Finished && a is Done,
    {
        fact_sheet.project_scope = Some(scope);
        if scope.is_external_urls_required {
            self.attributes.state = AgentState::Discovery;
            ArchitectAction::ListExternalUrls(
                extend_ai_function(print_site_urls, fact_sheet.project_description.as_str()),
            )
        } else {
            self.attributes.state = AgentState::Finished;
            ArchitectAction::Done
        }
    }

    /// Decodes the model's list of candidate URLs into the fact sheet and moves on to
    /// checking them. An answer that is no JSON array of strings is a decode error and
    /// changes nothing.
    pub fn on_external_urls(&mut self, fact_sheet: &mut FactSheet, response: &str) -> (r: Result<
        ArchitectAction,
        AgentError,
    >)
        ensures
            same_except_urls(*old(fact_sheet), *final(fact_sheet)),
            old(self).sheet_consistent(*old(fact_sheet)) && old(fact_sheet).project_scope is Some
                ==> final(self).sheet_consistent(*final(fact_sheet)),
            final(self).attributes.objective == old(self).attributes.objective,
            final(self).attributes.position == old(self).attributes.position,
            match json_string_list(response@) {
                Some(urls) => {
                    &&& final(fact_sheet).external_urls is Some
                    &&& texts_of(final(fact_sheet).external_urls->Some_0@) == urls
                    &&& final(self).attributes.state == AgentState::UnitTesting
                    &&& r is Ok
                    &&& r->Ok_0 is CheckUrls
                    &&& r->Ok_0->CheckUrls_0@ == final(fact_sheet).external_urls->Some_0@
                },
                None => {
                    &&& r == Err::<ArchitectAction, AgentError>(AgentError::Decode)
                    &&& *final(fact_sheet) == *old(fact_sheet)
                    &&& final(self).attributes.state == old(self).attributes.state
                },
            },
    {
        match decode_string_list(response) {
            Ok(urls) => {
                let to_check = urls.clone();
                fact_sheet.external_urls = Some(urls);
                self.attributes.state = AgentState::UnitTesting;
                Ok(ArchitectAction::CheckUrls(to_check))
            },
            Err(_) => Err(AgentError::Decode),
        }
    }

    /// Drops from the fact sheet every URL whose check did not answer 200, then
    /// finishes: every URL left was checked and answered 200 at each of its checks. `statuses[j]` is the outcome of the check of the `j`-th URL, `None`
    /// for a transport error.
    pub fn on_url_statuses(&mut self, fact_sheet: &mut FactSheet, statuses: &Vec<Option<u16>>)
        ensures
            same_except_urls(*old(fact_sheet), *final(fact_sheet)),
            final(self).attributes.objective == old(self).attributes.objective,
            final(self).attributes.position == old(self).attributes.position,
            final(self).attributes.state == AgentState::Finished,
            old(self).sheet_consistent(*old(fact_sheet)) && old(self).attributes.state
                == AgentState::UnitTesting ==> final(self).sheet_consistent(*final(fact_sheet)),
            match final(fact_sheet).external_urls {
                Some(kept) => forall|k: int|
                    0 <= k < kept@.len() ==> {
                        let u = #[trigger] kept@[k];
                        &&& old(fact_sheet).external_urls is Some
                        &&& old(fact_sheet).external_urls->Some_0@.contains(u)
                        &&& forall|j: int|
                            0 <= j < old(fact_sheet).external_urls->Some_0@.len()
                                && old(fact_sheet).external_urls->Some_0@[j]@ == u@
                                ==> answered_ok(statuses@, j)
                    },
                None => true,
            },
            match old(fact_sheet).external_urls {
                Some(urls) => final(fact_sheet).external_urls is Some
                    && final(fact_sheet).external_urls->Some_0@ == reachable_urls(
                    urls@,
                    statuses@,
                ),
                None => final(fact_sheet).external_urls is None,
            },
    {
        let kept = match &fact_sheet.external_urls {
            Some(urls) => {
                proof {
                    lemma_reachable_urls_answered(urls@, statuses@);
                }
                Some(filter_reachable_urls(urls, statuses))
            },
            None => None,
        };
        fact_sheet.external_urls = kept;
        self.attributes.state = AgentState::Finished;
    }
}

} // verus!

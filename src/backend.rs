use vstd::prelude::*;
use vstd::string::*;

use crate::architect::is_request;
use crate::basic_agent::{AgentState, BasicAgent};
use crate::errors::AgentError;
use crate::fact_sheet::{
    check_endpoints, check_endpoints_of, fact_sheet_text, FactSheet, RouteObject,
};
use crate::message::{extend_ai_function, Message};
use crate::prompts::{
    print_backend_webserver_code, print_fixed_code, print_improved_webserver_code,
    print_rest_api_endpoints, PRINT_BACKEND_WEBSERVER_CODE, PRINT_FIXED_CODE,
    PRINT_IMPROVED_WEBSERVER_CODE, PRINT_REST_API_ENDPOINTS,
};

verus! {

pub const BACKEND_OBJECTIVE: &'static str = "Develop backend code for web server and json database";

pub const BACKEND_POSITION: &'static str = "Backend Developer";

/// The number of consecutive failed builds that is still repaired; one more aborts.
pub const MAX_BUG_COUNT: u8 = 2;

/// Where the generated server listens while it is probed.
pub const LOCAL_SERVER: &'static str = "http://localhost:8080";

pub const CODE_TEMPLATE_LABEL: &'static str = "CODE TEMPLATE: ";

pub const DESCRIPTION_LABEL: &'static str = " \n PROJECT_DESCRIPTION: ";

pub const LINE_END: &'static str = " \n";

pub const FACT_SHEET_LABEL: &'static str = " \n FACT_SHEET: ";

pub const BROKEN_CODE_LABEL: &'static str = "BROKEN_CODE: ";

pub const ERROR_BUGS_LABEL: &'static str = " \n ERROR_BUGS: ";

pub const CODE_ONLY_NOTE: &'static str =
    " \n THIS FUNCTION ONLY OUTPUTS CODE. JUST OUTPUT THE CODE.";

pub const CODE_INPUT_LABEL: &'static str = "CODE_INPUT: ";

/// The text held by an optional string, empty where there is none.
pub open spec fn text_or_empty(o: Option<String>) -> Seq<char> {
    match o {
        Some(s) => s@,
        None => Seq::empty(),
    }
}

/// The context of a request to write the first code: the template to start from and
/// the project's description.
pub open spec fn code_context(code: Seq<char>, description: Seq<char>) -> Seq<char> {
    CODE_TEMPLATE_LABEL@ + code + DESCRIPTION_LABEL@ + description + LINE_END@
}

/// The context of a request to improve code: the current code and the whole fact sheet.
pub open spec fn improve_context(code: Seq<char>, fact_sheet: FactSheet) -> Seq<char> {
    CODE_TEMPLATE_LABEL@ + code + FACT_SHEET_LABEL@ + fact_sheet_text(fact_sheet) + LINE_END@
}

/// The context of a request to fix code: the code and the build's diagnostics.
pub open spec fn fix_context(code: Seq<char>, errors: Seq<char>) -> Seq<char> {
    BROKEN_CODE_LABEL@ + code + ERROR_BUGS_LABEL@ + errors + CODE_ONLY_NOTE@
}

/// The context of a request to list the endpoints of the server's source.
pub open spec fn endpoints_context(source: Seq<char>) -> Seq<char> {
    CODE_INPUT_LABEL@ + source
}

/// The address at which a route of the running server is probed.
pub open spec fn probe_url_of(route: Seq<char>) -> Seq<char> {
    LOCAL_SERVER@ + route
}

fn build_code_context(code: &str, description: &str) -> (r: String)
    ensures
        r@ == code_context(code@, description@),
{
    let mut s = String::from_str(CODE_TEMPLATE_LABEL);
    s.append(code);
    s.append(DESCRIPTION_LABEL);
    s.append(description);
    s.append(LINE_END);
    s
}

fn build_improve_context(code: &str, fact_sheet: &FactSheet) -> (r: String)
    ensures
        r@ == improve_context(code@, *fact_sheet),
{
    let mut s = String::from_str(CODE_TEMPLATE_LABEL);
    s.append(code);
    s.append(FACT_SHEET_LABEL);
    let sheet = fact_sheet.summary_text();
    s.append(sheet.as_str());
    s.append(LINE_END);
    s
}

fn build_fix_context(code: &str, errors: &str) -> (r: String)
    ensures
        r@ == fix_context(code@, errors@),
{
    let mut s = String::from_str(BROKEN_CODE_LABEL);
    s.append(code);
    s.append(ERROR_BUGS_LABEL);
    s.append(errors);
    s.append(CODE_ONLY_NOTE);
    s
}

fn optional_text(o: &Option<String>) -> (r: &str)
    ensures
        r@ == text_or_empty(*o),
{
    match o {
        Some(s) => s.as_str(),
        None => {
            proof {
                reveal_strlit("");
            }
            ""
        },
    }
}

/// The address at which `route` is probed on the running server.
pub fn probe_url(route: &RouteObject) -> (r: String)
    ensures
        r@ == probe_url_of(route.route@),
{
    let mut s = String::from_str(LOCAL_SERVER);
    s.append(route.route.as_str());
    s
}

/// What the backend agent needs done outside before its next step.
#[derive(Debug)]
pub enum BackendAction {
    /// Read the code template and send `initial_code_request`; the code goes to `on_code`.
    WriteInitialCode,
    /// Send this request; the improved code goes to `on_code`.
    ImproveCode(Message),
    /// Send this request; the fixed code goes to `on_code`.
    FixCode(Message),
    /// Build the server; the outcome goes to `on_build`.
    Build,
    /// Nothing is left to do.
    Done,
}

/// What follows a build that did not abort.
#[derive(Debug, Clone, Copy, PartialEq, Eq, Structural)]
pub enum BuildOutcome {
    /// The build succeeded: extract and probe the endpoints.
    Passed,
    /// The build failed: the agent is back in `Working` to fix the code.
    Retry,
}

/// How a probe that reached the server went.
#[derive(Debug, Clone, Copy, PartialEq, Eq, Structural)]
pub enum ProbeVerdict {
    /// The endpoint answered 200.
    Answered,
    /// The endpoint answered with another status; this is only reported.
    Warn,
}

/// Writes the server's code, repairs it until it builds, and probes its endpoints.
#[derive(Debug)]
pub struct AgentBackendDeveloper {
    pub attributes: BasicAgent,
    pub bug_errors: Option<String>,
    pub bug_count: u8,
}

impl AgentBackendDeveloper {
    /// The agent's count of consecutive failed builds is still within the repair budget.
    pub open spec fn wf(&self) -> bool {
        self.bug_count <= MAX_BUG_COUNT
    }

    /// The agent as `new` makes it: its role, in `Discovery`, with an empty memory and
    /// no failed build.
    pub open spec fn is_fresh(&self) -> bool {
        &&& self.attributes.objective@ == BACKEND_OBJECTIVE@
        &&& self.attributes.position@ == BACKEND_POSITION@
        &&& self.attributes.state == AgentState::Discovery
        &&& self.attributes.memory@.len() == 0
        &&& self.bug_errors is None
        &&& self.bug_count == 0
    }

    pub fn new() -> (a: AgentBackendDeveloper)
        ensures
            a.is_fresh(),
            a.attributes.objective@ == BACKEND_OBJECTIVE@,
            a.attributes.position@ == BACKEND_POSITION@,
            a.attributes.state == AgentState::Discovery,
            a.attributes.memory@.len() == 0,
            a.bug_errors is None,
            a.bug_count == 0,
            a.wf(),
    {
        AgentBackendDeveloper {
            attributes: BasicAgent::new(
                String::from_str(BACKEND_OBJECTIVE),
                String::from_str(BACKEND_POSITION),
            ),
            bug_errors: None,
            bug_count: 0,
        }
    }

    pub fn get_attributes_from_agent(&self) -> (r: &BasicAgent)
        ensures
            *r == self.attributes,
    {
        &self.attributes
    }

    /// The outside work that the current state calls for. In `Working` the code is
    /// improved from the whole fact sheet while no build has failed, and fixed from the
    /// last diagnostics after one has.
    pub fn next_action(&self, fact_sheet: &FactSheet) -> (a: BackendAction)
        ensures
            self.attributes.state == AgentState::Discovery ==> a is WriteInitialCode,
            self.attributes.state == AgentState::Working && self.bug_count == 0 ==> a is ImproveCode
                && is_request(
                a->ImproveCode_0,
                PRINT_IMPROVED_WEBSERVER_CODE@,
                improve_context(text_or_empty(fact_sheet.backend_code), *fact_sheet),
            ),
            self.attributes.state == AgentState::Working && self.bug_count != 0 ==> a is FixCode
                && is_request(
                a->FixCode_0,
                PRINT_FIXED_CODE@,
                fix_context(text_or_empty(fact_sheet.backend_code), text_or_empty(self.bug_errors)),
            ),
            self.attributes.state == AgentState::UnitTesting ==> a is Build,
            self.attributes.state == AgentState::Finished ==> a is Done,
    {
        match self.attributes.state {
            AgentState::Discovery => BackendAction::WriteInitialCode,
            AgentState::Working => {
                let code = optional_text(&fact_sheet.backend_code);
                if self.bug_count == 0 {
                    let context = build_improve_context(code, fact_sheet);
                    BackendAction::ImproveCode(
                        extend_ai_function(print_improved_webserver_code, context.as_str()),
                    )
                } else {
                    let context = build_fix_context(code, optional_text(&self.bug_errors));
                    BackendAction::FixCode(extend_ai_function(print_fixed_code, context.as_str()))
                }
            },
            AgentState::UnitTesting => BackendAction::Build,
            AgentState::Finished => BackendAction::Done,
        }
    }

    /// The request for the first version of the server, written from `template`.
    pub fn initial_code_request(&self, fact_sheet: &FactSheet, template: &str) -> (m: Message)
        ensures
            is_request(
                m,
                PRINT_BACKEND_WEBSERVER_CODE@,
                code_context(template@, fact_sheet.project_description@),
            ),
    {
        let context = build_code_context(template, fact_sheet.project_description.as_str());
        extend_ai_function(print_backend_webserver_code, context.as_str())
    }

    /// Stores newly generated code in the fact sheet. Code written in `Discovery` is
    /// then worked on; code written in `Working` is then tested.
    pub fn on_code(&mut self, fact_sheet: &mut FactSheet, code: String)
        ensures
            final(fact_sheet).backend_code == Some(code),
            final(fact_sheet).project_description == old(fact_sheet).project_description,
            final(fact_sheet).project_scope == old(fact_sheet).project_scope,
            final(fact_sheet).external_urls == old(fact_sheet).external_urls,
            final(fact_sheet).api_endpoint_schema == old(fact_sheet).api_endpoint_schema,
            final(self).bug_count == old(self).bug_count,
            final(self).bug_errors == old(self).bug_errors,
            final(self).attributes.state == match old(self).attributes.state {
                AgentState::Discovery => AgentState::Working,
                AgentState::Working => AgentState::UnitTesting,
                s => s,
            },
    {
        fact_sheet.backend_code = Some(code);
        match self.attributes.state {
            AgentState::Discovery => {
                self.attributes.state = AgentState::Working;
            },
            AgentState::Working => {
                self.attributes.state = AgentState::UnitTesting;
            },
            _ => {},
        }
    }

    /// Records a build's outcome. A success clears the count of failures. A failure
    /// counts one more, keeps its diagnostics and goes back to `Working`, unless the
    /// count now exceeds the repair budget: then the pipeline aborts.
    pub fn on_build(&mut self, success: bool, stderr: String) -> (r: Result<
        BuildOutcome,
        AgentError,
    >)
        requires
            old(self).wf(),
        ensures
            final(self).attributes.objective == old(self).attributes.objective,
            final(self).attributes.position == old(self).attributes.position,
            success ==> {
                &&& final(self).bug_count == 0
                &&& final(self).bug_errors == old(self).bug_errors
                &&& final(self).attributes.state == old(self).attributes.state
                &&& r == Ok::<BuildOutcome, AgentError>(BuildOutcome::Passed)
            },
            !success ==> {
                &&& final(self).bug_count == old(self).bug_count + 1
                &&& final(self).bug_errors == Some(stderr)
                &&& (r is Err <==> final(self).bug_count > MAX_BUG_COUNT)
                &&& r is Err ==> r == Err::<BuildOutcome, AgentError>(AgentError::TooManyBugs)
                    && final(self).attributes.state == old(self).attributes.state
                &&& r is Ok ==> r == Ok::<BuildOutcome, AgentError>(BuildOutcome::Retry)
                    && final(self).attributes.state == AgentState::Working
            },
            r is Ok ==> final(self).wf(),
    {
        if success {
            self.bug_count = 0;
            Ok(BuildOutcome::Passed)
        } else {
            self.bug_count = self.bug_count + 1;
            self.bug_errors = Some(stderr);
            if self.bug_count > MAX_BUG_COUNT {
                Err(AgentError::TooManyBugs)
            } else {
                self.attributes.state = AgentState::Working;
                Ok(BuildOutcome::Retry)
            }
        }
    }

    /// The request to list the endpoints of the built server's source.
    pub fn endpoint_request(&self, source: &str) -> (m: Message)
        ensures
            is_request(m, PRINT_REST_API_ENDPOINTS@, endpoints_context(source@)),
    {
        let mut context = String::from_str(CODE_INPUT_LABEL);
        context.append(source);
        extend_ai_function(print_rest_api_endpoints, context.as_str())
    }

    /// Keeps the static GET routes of the extracted endpoints as the fact sheet's
    /// endpoint schema, and returns the address at which each of them is probed.
    pub fn on_endpoints(&mut self, fact_sheet: &mut FactSheet, routes: &Vec<RouteObject>) -> (urls:
        Vec<String>)
        ensures
            final(fact_sheet).api_endpoint_schema is Some,
            final(fact_sheet).api_endpoint_schema->Some_0@ == check_endpoints_of(routes@),
            final(fact_sheet).project_description == old(fact_sheet).project_description,
            final(fact_sheet).project_scope == old(fact_sheet).project_scope,
            final(fact_sheet).external_urls == old(fact_sheet).external_urls,
            final(fact_sheet).backend_code == old(fact_sheet).backend_code,
            *final(self) == *old(self),
            urls@.len() == check_endpoints_of(routes@).len(),
            forall|i: int|
                0 <= i < urls@.len() ==> #[trigger] urls@[i]@ == probe_url_of(
                    check_endpoints_of(routes@)[i].route@,
                ),
    {
        let checked = check_endpoints(routes);
        let mut urls: Vec<String> = Vec::new();
        let mut i: usize = 0;
        while i < checked.len()
            invariant
                i <= checked@.len(),
                urls@.len() == i,
                forall|k: int|
                    0 <= k < i ==> #[trigger] urls@[k]@ == probe_url_of(checked@[k].route@),
            decreases checked@.len() - i,
        {
            urls.push(probe_url(&checked[i]));
            i += 1;
        }
        fact_sheet.api_endpoint_schema = Some(checked);
        urls
    }

    /// Judges one probe of the running server: `None` is a transport error, which
    /// fails the run; a status other than 200 is only a warning.
    pub fn on_probe(&self, status: Option<u16>) -> (r: Result<ProbeVerdict, AgentError>)
        ensures
            r == match status {
                None => Err(AgentError::Probe),
                Some(code) => if code == 200 {
                    Ok(ProbeVerdict::Answered)
                } else {
                    Ok(ProbeVerdict::Warn)
                },
            },
    {
        match status {
            None => Err(AgentError::Probe),
            Some(code) => if code == 200 {
                Ok(ProbeVerdict::Answered)
            } else {
                Ok(ProbeVerdict::Warn)
            },
        }
    }

    /// Ends the agent's work once every endpoint has been probed.
    pub fn finish_testing(&mut self)
        ensures
            final(self).attributes.state == AgentState::Finished,
            final(self).attributes.objective == old(self).attributes.objective,
            final(self).attributes.position == old(self).attributes.position,
            final(self).bug_count == old(self).bug_count,
            final(self).bug_errors == old(self).bug_errors,
    {
        self.attributes.state = AgentState::Finished;
    }
}

} // verus!

//! The functions the completion model is asked to act as. Each returns the text of
//! its own description, which `extend_ai_function` wraps into an instruction.
use vstd::prelude::*;

verus! {

pub const CONVERT_USER_INPUT_TO_GOAL: &'static str = "fn convert_user_input_to_goal(_user_request: &str) {
    /// Input: Takes in a user request.
    /// Function: Converts user request into a short summarized goal.
    /// Output: Prints goal. All outputs start with \"build a website that ...\"
}";

pub const PRINT_PROJECT_SCOPE: &'static str = "fn print_project_scope(_project_description: &str) {
    /// Input: Takes in a user request to build a website project description.
    /// Function: Converts user request into JSON response of information items required for a
    /// website build.
    /// Important: At least one of the bool results must be true.
    /// Output: Prints an object response in the following format:
    ///   {
    ///     \"is_crud_required\": bool, // true if site needs CRUD functionality
    ///     \"is_user_login_and_logout\": bool // true if site needs users to be able to log in
    ///     \"is_external_urls_required\": bool // true if site needs to fetch data from third party providers
    ///   }
    /// Example 1:
    ///   user_request = \"I need a full stack website that accepts users and gets stock price data\"
    ///   prints:
    ///   {
    ///     \"is_crud_required\": true,
    ///     \"is_user_login_and_logout\": true,
    ///     \"is_external_urls_required\": true
    ///   }
    /// Example 2:
    ///   user_request = \"I need a simple TODO app\"
    ///   prints:
    ///   {
    ///     \"is_crud_required\": true,
    ///     \"is_user_login_and_logout\": false,
    ///     \"is_external_urls_required\": false
    ///   }
}";

pub const PRINT_SITE_URLS: &'static str = "fn print_site_urls(_project_description: &str) {
    /// Input: Takes in a project description of a website build.
    /// Function: Outputs a list of external public API endpoints that should be used in the
    /// building of the website. Includes only relevant endpoints that do not require API keys.
    /// Output: Prints a list in the following format:
    ///   [\"url1\", \"url2\", \"url3\", ...]
}";

pub const PRINT_BACKEND_WEBSERVER_CODE: &'static str = "fn print_backend_webserver_code(_project_description_and_template: &str) {
    /// Input: Takes in a PROJECT_DESCRIPTION and CODE_TEMPLATE for a website backend build.
    /// Function: Takes an existing set of code marked as CODE_TEMPLATE and updates or rewrites
    /// it to work for the purpose in the PROJECT_DESCRIPTION.
    /// IMPORTANT: The backend code is ONLY an example. If the project description requires it,
    /// make as many changes as you like.
    /// IMPORTANT: You do not need to follow the backend code exactly. Write functions that make
    /// sense for the users request if required.
    /// IMPORTANT: The server listens on localhost:8080.
    /// Output: Print ONLY the code, nothing else. This function ONLY prints code.
}";

pub const PRINT_IMPROVED_WEBSERVER_CODE: &'static str = "fn print_improved_webserver_code(_project_description_and_template: &str) {
    /// Input: Takes in a PROJECT_DESCRIPTION and CODE_TEMPLATE for a website backend build.
    /// Function: Performs the following tasks:
    ///   1. Removes any bugs in the code and adds minor additional functionality.
    ///   2. Makes sure everything requested in the spec from a backend standpoint was followed.
    ///      If not, add the feature. No code should be implemented later. Everything should be
    ///      written now.
    ///   3. ONLY writes the code. No commentary.
    /// Output: Print ONLY the code, nothing else. This function ONLY prints code.
}";

pub const PRINT_FIXED_CODE: &'static str = "fn print_fixed_code(_broken_code_with_bugs: &str) {
    /// Input: Takes in Rust BROKEN_CODE and the ERROR_BUGS found.
    /// Function: Removes bugs from code.
    /// Important: Only prints out the new and improved code. No commentary or anything else.
}";

pub const PRINT_REST_API_ENDPOINTS: &'static str = "fn print_rest_api_endpoints(_code_input: &str) {
    /// Input: Takes in Rust webserver CODE_INPUT based on actix-web.
    /// Function: Prints out the JSON schema for url endpoints and their respective types.
    /// Logic: Script analyses all code and can categorize into the following object keys:
    ///   \"route\": This represents the url path of the endpoint
    ///   \"is_route_dynamic\": if a route has curly braces in it such as {symbol} or {id} as an
    ///   example, then this will be set to true
    ///   \"method\": This represents the method being called
    /// IMPORTANT: Only prints out the JSON schema. No commentary or anything else.
    /// MUST READ: All keys are strings. Even bool should be wrapped in double quotes as
    /// \"bool\".
    /// Example:
    ///   [
    ///     {
    ///       \"is_route_dynamic\": \"false\",
    ///       \"method\": \"get\",
    ///       \"route\": \"/item\"
    ///     },
    ///     {
    ///       \"is_route_dynamic\": \"true\",
    ///       \"method\": \"post\",
    ///       \"route\": \"/item/{id}\"
    ///     }
    ///   ]
}";

pub fn convert_user_input_to_goal(_user_request: &str) -> (r: &'static str)
    ensures
        r@ == CONVERT_USER_INPUT_TO_GOAL@,
{
    CONVERT_USER_INPUT_TO_GOAL
}

pub fn print_project_scope(_project_description: &str) -> (r: &'static str)
    ensures
        r@ == PRINT_PROJECT_SCOPE@,
{
    PRINT_PROJECT_SCOPE
}

pub fn print_site_urls(_project_description: &str) -> (r: &'static str)
    ensures
        r@ == PRINT_SITE_URLS@,
{
    PRINT_SITE_URLS
}

pub fn print_backend_webserver_code(_project_description_and_template: &str) -> (r: &'static str)
    ensures
        r@ == PRINT_BACKEND_WEBSERVER_CODE@,
{
    PRINT_BACKEND_WEBSERVER_CODE
}

pub fn print_improved_webserver_code(_project_description_and_template: &str) -> (r: &'static str)
    ensures
        r@ == PRINT_IMPROVED_WEBSERVER_CODE@,
{
    PRINT_IMPROVED_WEBSERVER_CODE
}

pub fn print_fixed_code(_broken_code_with_bugs: &str) -> (r: &'static str)
    ensures
        r@ == PRINT_FIXED_CODE@,
{
    PRINT_FIXED_CODE
}

pub fn print_rest_api_endpoints(_code_input: &str) -> (r: &'static str)
    ensures
        r@ == PRINT_REST_API_ENDPOINTS@,
{
    PRINT_REST_API_ENDPOINTS
}

} // verus!

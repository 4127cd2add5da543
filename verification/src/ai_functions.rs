//! The tasks asked of the completion service. A task is described by the
//! text of a function that is never run: the service is asked to print
//! what the function would return.

pub mod ai_func_architect;
pub mod ai_func_backend;
pub mod ai_func_managing;

use crate::ai_functions::ai_func_architect::{
    print_project_scope, print_site_urls, PRINT_PROJECT_SCOPE, PRINT_SITE_URLS,
};
use crate::ai_functions::ai_func_backend::{
    print_backend_webserver_code, print_fixed_code, print_improved_webserver_code,
    print_rest_api_endpoints, PRINT_BACKEND_WEBSERVER_CODE, PRINT_FIXED_CODE,
    PRINT_IMPROVED_WEBSERVER_CODE, PRINT_REST_API_ENDPOINTS,
};
use crate::ai_functions::ai_func_managing::{
    convert_user_input_to_goal, CONVERT_USER_INPUT_TO_GOAL,
};
use crate::helpers::general::{extend_ai_function, extended_prompt};
use vstd::prelude::*;

verus! {

/// The tasks that the pipeline asks of the completion service, each with the
/// task function that describes it and the name it is announced under.
#[derive(Debug, Clone, Copy, PartialEq, Eq, Structural)]
pub enum AiFunction {
    ConvertUserInputToGoal,
    PrintProjectScope,
    PrintSiteUrls,
    PrintBackendWebserverCode,
    PrintImprovedWebserverCode,
    PrintFixedCode,
    PrintRestApiEndpoints,
}

impl AiFunction {
    /// The text of the task function.
    pub open spec fn spec_text(self) -> Seq<char> {
        match self {
            AiFunction::ConvertUserInputToGoal => CONVERT_USER_INPUT_TO_GOAL@,
            AiFunction::PrintProjectScope => PRINT_PROJECT_SCOPE@,
            AiFunction::PrintSiteUrls => PRINT_SITE_URLS@,
            AiFunction::PrintBackendWebserverCode => PRINT_BACKEND_WEBSERVER_CODE@,
            AiFunction::PrintImprovedWebserverCode => PRINT_IMPROVED_WEBSERVER_CODE@,
            AiFunction::PrintFixedCode => PRINT_FIXED_CODE@,
            AiFunction::PrintRestApiEndpoints => PRINT_REST_API_ENDPOINTS@,
        }
    }

    /// The name of the task function.
    pub open spec fn spec_name(self) -> Seq<char> {
        match self {
            AiFunction::ConvertUserInputToGoal => "convert_user_input_to_goal"@,
            AiFunction::PrintProjectScope => "print_project_scope"@,
            AiFunction::PrintSiteUrls => "print_site_urls"@,
            AiFunction::PrintBackendWebserverCode => "print_backend_webserver_code"@,
            AiFunction::PrintImprovedWebserverCode => "print_improved_webserver_code"@,
            AiFunction::PrintFixedCode => "print_fixed_code"@,
            AiFunction::PrintRestApiEndpoints => "print_rest_api_endpoints"@,
        }
    }

    /// The name under which the task is announced: that of its function.
    pub fn name(self) -> (name: &'static str)
        ensures
            name@ == self.spec_name(),
    {
        match self {
            AiFunction::ConvertUserInputToGoal => "convert_user_input_to_goal",
            AiFunction::PrintProjectScope => "print_project_scope",
            AiFunction::PrintSiteUrls => "print_site_urls",
            AiFunction::PrintBackendWebserverCode => "print_backend_webserver_code",
            AiFunction::PrintImprovedWebserverCode => "print_improved_webserver_code",
            AiFunction::PrintFixedCode => "print_fixed_code",
            AiFunction::PrintRestApiEndpoints => "print_rest_api_endpoints",
        }
    }

    /// The prompt that asks for the task on `input`: the input wrapped in
    /// the text of the task function.
    pub fn prompt(self, input: &str) -> (prompt: String)
        ensures
            prompt@ == extended_prompt(self.spec_text(), input@),
    {
        match self {
            AiFunction::ConvertUserInputToGoal => extend_ai_function(
                convert_user_input_to_goal,
                input,
            ),
            AiFunction::PrintProjectScope => extend_ai_function(print_project_scope, input),
            AiFunction::PrintSiteUrls => extend_ai_function(print_site_urls, input),
            AiFunction::PrintBackendWebserverCode => extend_ai_function(
                print_backend_webserver_code,
                input,
            ),
            AiFunction::PrintImprovedWebserverCode => extend_ai_function(
                print_improved_webserver_code,
                input,
            ),
            AiFunction::PrintFixedCode => extend_ai_function(print_fixed_code, input),
            AiFunction::PrintRestApiEndpoints => extend_ai_function(
                print_rest_api_endpoints,
                input,
            ),
        }
    }
}

} // verus!

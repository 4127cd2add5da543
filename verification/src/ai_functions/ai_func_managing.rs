//! The task of the goal interpretation.

use vstd::prelude::*;

verus! {

/// The text of the task that turns a user's request into a short goal.
pub const CONVERT_USER_INPUT_TO_GOAL: &'static str = "fn convert_user_input_to_goal(_user_request: &str) {
    /// Input: Takes in a user request
    /// Function: Converts user request into a short summarized goal
    /// Output: Prints goal. All outputs start with \"build a website that ...\"
    /// Example 1:
    ///   user_request = \"I need a website that lets users login and logout. It needs to look fancy and accept payments.\"
    ///   OUTPUT = \"build a website that handles users logging in and logging out and accepts payments\"
    /// Example 2:
    ///   user_request = \"Create something that stores crypto price data in a database using supabase and retrieves prices on the frontend.\"
    ///   OUTPUT = \"build a website that fetches and stores crypto price data within a supabase setup including a frontend UI to fetch the data.\"
    println!(OUTPUT)
}";

/// The task function for interpreting the goal: whatever the request, it
/// returns the task's own text.
pub fn convert_user_input_to_goal(_user_request: &str) -> (task_text: &'static str)
    ensures
        task_text@ == CONVERT_USER_INPUT_TO_GOAL@,
{
    CONVERT_USER_INPUT_TO_GOAL
}

} // verus!

//! View-model data for the rendered pages: what each page shows, free of
//! any rendering machinery. The pages for signed-out visitors come with
//! constructors that fix their guest defaults.

use vstd::prelude::*;

verus! {

/// The login page: an optional error line, shown to a guest.
#[derive(Debug)]
pub struct LoginTemplate {
    pub error: Option<String>,
    pub has_user: bool,
    pub display_name: String,
    pub is_admin: bool,
}

/// The registration page: an optional error line, shown to a guest.
#[derive(Debug)]
pub struct RegisterTemplate {
    pub error: Option<String>,
    pub has_user: bool,
    pub display_name: String,
    pub is_admin: bool,
}

impl LoginTemplate {
    /// A login page for a signed-out visitor, with an optional error line
    /// and the guest defaults.
    pub fn new(error: Option<String>) -> (t: LoginTemplate)
        ensures
            t.error == error,
            !t.has_user,
            t.display_name@ == "Guest"@,
            !t.is_admin,
    {
        LoginTemplate {
            error,
            has_user: false,
            display_name: "Guest".to_owned(),
            is_admin: false,
        }
    }
}

impl RegisterTemplate {
    /// A registration page for a signed-out visitor, with an optional
    /// error line and the guest defaults.
    pub fn new(error: Option<String>) -> (t: RegisterTemplate)
        ensures
            t.error == error,
            !t.has_user,
            t.display_name@ == "Guest"@,
            !t.is_admin,
    {
        RegisterTemplate {
            error,
            has_user: false,
            display_name: "Guest".to_owned(),
            is_admin: false,
        }
    }
}

/// One of the names on the front page's season top list.
#[derive(Debug)]
pub struct TopPlayer {
    pub display_name: String,
    pub total_points: i32,
    pub season: String,
}

/// A user's season summary as their dashboard shows it.
#[derive(Debug)]
pub struct UserStats {
    pub total_points: i32,
    pub total_exact_scores: i32,
    pub total_correct_results: i32,
    pub gameweeks_played: i32,
    pub season: String,
    pub position: i32,
}

/// One line of the dashboard's recent-gameweeks list.
#[derive(Debug)]
pub struct RecentGameweek {
    pub week_number: i32,
    pub season: String,
    pub total_points: i32,
    pub exact_scores: i32,
    pub correct_results: i32,
    pub is_completed: bool,
}

} // verus!

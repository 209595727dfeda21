//! The bot's domain values: commands, the registration dialogue's states,
//! viewing-request statuses, users, search profiles and listed properties.

use vstd::prelude::*;
use crate::text::{str_eq, concat_str};

verus! {

/// The slash commands the bot answers (`/start`, `/profile`, `/search`,
/// `/favorites`, `/help`).
#[derive(Clone, Copy, Debug, PartialEq, Eq, Structural)]
pub enum Command {
    Start,
    Profile,
    Search,
    Favorites,
    Help,
}

/// Status of a viewing request in the manager's workflow.
#[derive(Clone, Copy, Debug, PartialEq, Eq, Structural)]
pub enum RequestStatus {
    New,
    InProgress,
    Approved,
    Rejected,
    Completed,
}

/// The name under which a status is shown and stored.
pub open spec fn status_name(s: RequestStatus) -> Seq<char> {
    match s {
        RequestStatus::New => "New"@,
        RequestStatus::InProgress => "InProgress"@,
        RequestStatus::Approved => "Approved"@,
        RequestStatus::Rejected => "Rejected"@,
        RequestStatus::Completed => "Completed"@,
    }
}

/// The status a name stands for, if any.
pub open spec fn status_of_name(value: Seq<char>) -> Option<RequestStatus> {
    if value == "New"@ {
        Some(RequestStatus::New)
    } else if value == "InProgress"@ {
        Some(RequestStatus::InProgress)
    } else if value == "Approved"@ {
        Some(RequestStatus::Approved)
    } else if value == "Rejected"@ {
        Some(RequestStatus::Rejected)
    } else if value == "Completed"@ {
        Some(RequestStatus::Completed)
    } else {
        None
    }
}

/// The message with which an unknown status name is refused.
pub open spec fn unknown_status_message(value: Seq<char>) -> Seq<char> {
    "Неизвестный статус заявки: "@ + value
}

impl RequestStatus {
    /// The status's name, as `Display` writes it.
    pub fn as_str(&self) -> (r: &'static str)
        ensures
            r@ == status_name(*self),
    {
        match self {
            RequestStatus::New => "New",
            RequestStatus::InProgress => "InProgress",
            RequestStatus::Approved => "Approved",
            RequestStatus::Rejected => "Rejected",
            RequestStatus::Completed => "Completed",
        }
    }

    /// The status's name as an owned string.
    pub fn to_string(&self) -> (r: String)
        ensures
            r@ == status_name(*self),
    {
        self.as_str().to_owned()
    }

    /// Reads a status from its exact name; any other text is refused with a
    /// message that quotes it.
    pub fn parse_name(value: &str) -> (r: Result<RequestStatus, String>)
        ensures
            match status_of_name(value@) {
                Some(s) => r == Ok::<RequestStatus, String>(s),
                None => r matches Err(e) && e@ == unknown_status_message(value@),
            },
    {
        if str_eq(value, "New") {
            Ok(RequestStatus::New)
        } else if str_eq(value, "InProgress") {
            Ok(RequestStatus::InProgress)
        } else if str_eq(value, "Approved") {
            Ok(RequestStatus::Approved)
        } else if str_eq(value, "Rejected") {
            Ok(RequestStatus::Rejected)
        } else if str_eq(value, "Completed") {
            Ok(RequestStatus::Completed)
        } else {
            Err(concat_str("Неизвестный статус заявки: ", value))
        }
    }
}

/// A status's name reads back as that status: what `Display` writes,
/// `FromStr` (and so the database column) reads back unchanged.
pub proof fn status_name_reads_back(s: RequestStatus)
    ensures
        status_of_name(status_name(s)) == Some(s),
{
    reveal_strlit("New");
    reveal_strlit("InProgress");
    reveal_strlit("Approved");
    reveal_strlit("Rejected");
    reveal_strlit("Completed");
    assert("New"@.len() == 3 && "InProgress"@.len() == 10 && "Approved"@.len() == 8);
    assert("Rejected"@.len() == 8 && "Completed"@.len() == 9);
    assert("Approved"@[0] != "Rejected"@[0]);
}

impl Default for RequestStatus {
    /// A request starts as `New`.
    fn default() -> (r: Self)
        ensures
            r == RequestStatus::New,
    {
        RequestStatus::New
    }
}

impl std::str::FromStr for RequestStatus {
    type Err = String;

    /// Reads a status from its exact name, as `parse_name` does.
    fn from_str(value: &str) -> (r: Result<Self, Self::Err>)
        ensures
            match status_of_name(value@) {
                Some(s) => r == Ok::<RequestStatus, String>(s),
                None => r matches Err(e) && e@ == unknown_status_message(value@),
            },
    {
        RequestStatus::parse_name(value)
    }
}

/// Where a user stands in the registration dialogue.
#[derive(Clone, Copy, Debug, PartialEq, Eq, Structural)]
pub enum RegistrationState {
    Start,
    WaitingPhone,
    WaitingCity,
    WaitingDistrict,
    WaitingBudget,
    WaitingRooms,
    WaitingAdditionalRequirements,
    Completed,
}

impl Default for RegistrationState {
    /// A dialogue with no stored state is at its start.
    fn default() -> (r: Self)
        ensures
            r == RegistrationState::Start,
    {
        RegistrationState::Start
    }
}

/// A bot user. Ids are UUIDs held as their 128-bit value; times are
/// microseconds since the Unix epoch.
#[derive(Clone, Debug)]
pub struct User {
    pub id: u128,
    pub telegram_id: i64,
    pub username: Option<String>,
    pub first_name: String,
    pub last_name: Option<String>,
    pub phone: Option<String>,
    pub created_at: i64,
}

/// What a user is looking for: the part of the profile the dialogue fills in.
#[derive(Clone, Debug)]
pub struct SearchPreferences {
    pub city: Option<String>,
    pub district: Option<String>,
    pub budget: Option<i64>,
    pub rooms: Option<i32>,
    pub additional_requirements: Option<String>,
}

/// The preferences as plain values.
pub open spec fn opt_text(o: Option<String>) -> Option<Seq<char>> {
    match o {
        Some(s) => Some(s@),
        None => None,
    }
}

impl View for SearchPreferences {
    type V = (Option<Seq<char>>, Option<Seq<char>>, Option<i64>, Option<i32>, Option<Seq<char>>);

    open spec fn view(&self) -> Self::V {
        (opt_text(self.city), opt_text(self.district), self.budget, self.rooms, opt_text(self.additional_requirements))
    }
}

/// A user's search profile.
#[derive(Clone, Debug)]
pub struct UserProfile {
    pub id: u128,
    pub user_id: u128,
    pub preferences: SearchPreferences,
}

/// A listed property. Its floor area is a floating-point number and is kept
/// at the edge of the program together with the record.
#[derive(Clone, Debug)]
pub struct Property {
    pub id: u128,
    pub title: String,
    pub description: String,
    pub city: String,
    pub district: String,
    pub price: i64,
    pub rooms: i32,
    pub photo_url: Option<String>,
    pub is_active: bool,
    pub created_at: i64,
}

/// A property a user keeps among the favourites.
#[derive(Clone, Debug)]
pub struct Favorite {
    pub id: u128,
    pub user_id: u128,
    pub property_id: u128,
    pub created_at: i64,
}

/// A user's request to view a property.
#[derive(Clone, Debug)]
pub struct ViewingRequest {
    pub id: u128,
    pub user_id: u128,
    pub property_id: u128,
    pub status: RequestStatus,
    pub comment: Option<String>,
    pub created_at: i64,
}

} // verus!

//! The search profile the dialogue fills in, the search it leads to, and the
//! walk through the properties found.

use vstd::prelude::*;
use crate::models::{SearchPreferences, opt_text};

verus! {

/// A copy of an optional text.
pub fn copy_text(o: &Option<String>) -> (r: Option<String>)
    ensures
        opt_text(r) == opt_text(*o),
{
    match o {
        Some(s) => Some(s.clone()),
        None => None,
    }
}

/// Preferences as plain values: city, district, budget, rooms, additional
/// requirements.
pub type PreferencesView = (Option<Seq<char>>, Option<Seq<char>>, Option<i64>, Option<i32>, Option<Seq<char>>);

/// The preferences with the city chosen.
pub open spec fn set_city(p: PreferencesView, city: Seq<char>) -> PreferencesView {
    (Some(city), p.1, p.2, p.3, p.4)
}

/// The preferences with the district chosen.
pub open spec fn set_district(p: PreferencesView, district: Seq<char>) -> PreferencesView {
    (p.0, Some(district), p.2, p.3, p.4)
}

/// The preferences with the budget chosen.
pub open spec fn set_budget(p: PreferencesView, budget: i64) -> PreferencesView {
    (p.0, p.1, Some(budget), p.3, p.4)
}

/// The preferences with the number of rooms chosen.
pub open spec fn set_rooms(p: PreferencesView, rooms: i32) -> PreferencesView {
    (p.0, p.1, p.2, Some(rooms), p.4)
}

/// The preferences with the additional requirements replaced.
pub open spec fn set_requirements(p: PreferencesView, requirements: Option<Seq<char>>) -> PreferencesView {
    (p.0, p.1, p.2, p.3, requirements)
}

impl SearchPreferences {
    /// Preferences with nothing chosen yet, as a new profile has them.
    pub fn empty() -> (r: SearchPreferences)
        ensures
            r@ == (None::<Seq<char>>, None::<Seq<char>>, None::<i64>, None::<i32>, None::<Seq<char>>),
    {
        SearchPreferences { city: None, district: None, budget: None, rooms: None, additional_requirements: None }
    }

    /// The preferences with the city chosen; the rest stays.
    pub fn with_city(&self, city: &str) -> (r: SearchPreferences)
        ensures
            r@ == set_city(self@, city@),
    {
        SearchPreferences {
            city: Some(city.to_owned()),
            district: copy_text(&self.district),
            budget: self.budget,
            rooms: self.rooms,
            additional_requirements: copy_text(&self.additional_requirements),
        }
    }

    /// The preferences with the district chosen; the rest stays.
    pub fn with_district(&self, district: &str) -> (r: SearchPreferences)
        ensures
            r@ == set_district(self@, district@),
    {
        SearchPreferences {
            city: copy_text(&self.city),
            district: Some(district.to_owned()),
            budget: self.budget,
            rooms: self.rooms,
            additional_requirements: copy_text(&self.additional_requirements),
        }
    }

    /// The preferences with the budget chosen; the rest stays.
    pub fn with_budget(&self, budget: i64) -> (r: SearchPreferences)
        ensures
            r@ == set_budget(self@, budget),
    {
        SearchPreferences {
            city: copy_text(&self.city),
            district: copy_text(&self.district),
            budget: Some(budget),
            rooms: self.rooms,
            additional_requirements: copy_text(&self.additional_requirements),
        }
    }

    /// The preferences with the number of rooms chosen; the rest stays.
    pub fn with_rooms(&self, rooms: i32) -> (r: SearchPreferences)
        ensures
            r@ == set_rooms(self@, rooms),
    {
        SearchPreferences {
            city: copy_text(&self.city),
            district: copy_text(&self.district),
            budget: self.budget,
            rooms: Some(rooms),
            additional_requirements: copy_text(&self.additional_requirements),
        }
    }

    /// The preferences with the additional requirements replaced (by none
    /// when the user declined); the rest stays.
    pub fn with_requirements(&self, requirements: Option<String>) -> (r: SearchPreferences)
        ensures
            r@ == set_requirements(self@, opt_text(requirements)),
    {
        SearchPreferences {
            city: copy_text(&self.city),
            district: copy_text(&self.district),
            budget: self.budget,
            rooms: self.rooms,
            additional_requirements: requirements,
        }
    }
}

/// What a search looks for.
pub struct SearchParams {
    pub city: String,
    pub district: String,
    pub budget: i64,
    pub rooms: i32,
}

impl View for SearchParams {
    type V = (Seq<char>, Seq<char>, i64, i32);

    open spec fn view(&self) -> (Seq<char>, Seq<char>, i64, i32) {
        (self.city@, self.district@, self.budget, self.rooms)
    }
}

/// The search a profile leads to: one exists exactly when city, district,
/// budget and rooms are all chosen.
pub open spec fn search_of(p: PreferencesView) -> Option<(Seq<char>, Seq<char>, i64, i32)> {
    match (p.0, p.1, p.2, p.3) {
        (Some(c), Some(d), Some(b), Some(r)) => Some((c, d, b, r)),
        _ => None,
    }
}

/// The search the preferences lead to (`search_and_show_first`,
/// `show_next_property`).
pub fn search_params(p: &SearchPreferences) -> (r: Option<SearchParams>)
    ensures
        match r {
            Some(s) => search_of(p@) == Some(s@),
            None => search_of(p@) is None,
        },
{
    match (&p.city, &p.district, p.budget, p.rooms) {
        (Some(c), Some(d), Some(b), Some(n)) => Some(SearchParams { city: c.clone(), district: d.clone(), budget: b, rooms: n }),
        _ => None,
    }
}

/// Where the property after the one shown stands among the search results.
#[derive(Clone, Copy, Debug, PartialEq, Eq, Structural)]
pub enum NextProperty {
    /// The property shown is not among the results (any more).
    NotListed,
    /// The property shown is the last of the results.
    Last,
    /// The next property is at this index.
    At(usize),
}

/// Finds the property after the one shown, by id (`show_next_property`): the
/// first result with that id is taken as the one shown.
pub fn next_property(ids: &Vec<u128>, current: u128) -> (r: NextProperty)
    ensures
        match r {
            NextProperty::NotListed => !ids@.contains(current),
            NextProperty::Last => ids@.len() > 0 && ids@[ids@.len() - 1] == current
                && forall|j: int| 0 <= j < ids@.len() - 1 ==> ids@[j] != current,
            NextProperty::At(i) => 0 < i < ids@.len() && ids@[i - 1] == current
                && forall|j: int| 0 <= j < i - 1 ==> ids@[j] != current,
        },
{
    let mut i: usize = 0;
    while i < ids.len()
        invariant
            i <= ids.len(),
            forall|j: int| 0 <= j < i ==> ids@[j] != current,
        decreases ids.len() - i,
    {
        if ids[i] == current {
            if i + 1 < ids.len() {
                return NextProperty::At(i + 1);
            } else {
                return NextProperty::Last;
            }
        }
        i = i + 1;
    }
    NextProperty::NotListed
}

/// Answering the dialogue's questions makes a profile searchable, whatever it
/// held before: after a city, a district, a budget and a number of rooms (and
/// any answer about additional requirements) the search is for exactly those
/// four choices. The answers may come in any order; each keeps the others.
pub proof fn answered_dialogue_leads_to_search(
    p: PreferencesView,
    city: Seq<char>,
    district: Seq<char>,
    budget: i64,
    rooms: i32,
    requirements: Option<Seq<char>>,
)
    ensures
        search_of(set_requirements(set_rooms(set_budget(set_district(set_city(p, city), district), budget), rooms), requirements))
            == Some((city, district, budget, rooms)),
        search_of(set_requirements(set_city(set_district(set_budget(set_rooms(p, rooms), budget), district), city), requirements))
            == Some((city, district, budget, rooms)),
{
}

/// A profile lacking any of city, district, budget or rooms leads to no search.
pub proof fn incomplete_profile_leads_to_no_search(p: PreferencesView)
    requires
        p.0 is None || p.1 is None || p.2 is None || p.3 is None,
    ensures
        search_of(p) is None,
{
}

} // verus!

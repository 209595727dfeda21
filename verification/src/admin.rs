//! The rules of the admin HTTP API: which property data it accepts, what it
//! stores, and how it answers. The routes, the database and the JSON bodies
//! live at the edge of the program.

use vstd::prelude::*;
use crate::ids::{new_random_id, now_micros};
use crate::models::{Property, opt_text};
use crate::text::{is_blank, blank, trim, trimmed};
use crate::search::copy_text;

verus! {

/// Property data sent to the admin API to create or change a listing.
pub struct PropertyRequest {
    pub title: String,
    pub description: String,
    pub city: String,
    pub district: String,
    pub price: i64,
    pub rooms: i32,
    /// Whether the floor area sent, a floating-point number, satisfies
    /// `area <= 0.0` (false for NaN). The area itself is kept at the edge of
    /// the program and stored from there.
    pub area_at_most_zero: bool,
    pub photo_url: Option<String>,
    pub is_active: Option<bool>,
}

/// The first rule that property data breaks.
#[derive(Clone, Copy, Debug, PartialEq, Eq, Structural)]
pub enum PropertyProblem {
    EmptyTitle,
    EmptyDescription,
    EmptyCity,
    EmptyDistrict,
    PriceNotPositive,
    RoomsOutOfRange,
    AreaNotPositive,
}

/// The first rule the data breaks, checked in this order: title, description,
/// city and district are not blank, the price is above zero, the rooms are
/// from 1 to 20, the area is above zero.
pub open spec fn property_problem(r: PropertyRequest) -> Option<PropertyProblem> {
    if blank(r.title@) {
        Some(PropertyProblem::EmptyTitle)
    } else if blank(r.description@) {
        Some(PropertyProblem::EmptyDescription)
    } else if blank(r.city@) {
        Some(PropertyProblem::EmptyCity)
    } else if blank(r.district@) {
        Some(PropertyProblem::EmptyDistrict)
    } else if r.price <= 0 {
        Some(PropertyProblem::PriceNotPositive)
    } else if !(1 <= r.rooms <= 20) {
        Some(PropertyProblem::RoomsOutOfRange)
    } else if r.area_at_most_zero {
        Some(PropertyProblem::AreaNotPositive)
    } else {
        None
    }
}

/// The message with which each rule's breach is refused.
pub open spec fn problem_message(p: PropertyProblem) -> Seq<char> {
    match p {
        PropertyProblem::EmptyTitle => "Название объекта не может быть пустым"@,
        PropertyProblem::EmptyDescription => "Описание объекта не может быть пустым"@,
        PropertyProblem::EmptyCity => "Город не может быть пустым"@,
        PropertyProblem::EmptyDistrict => "Район не может быть пустым"@,
        PropertyProblem::PriceNotPositive => "Цена должна быть больше нуля"@,
        PropertyProblem::RoomsOutOfRange => "Количество комнат должно быть от 1 до 20"@,
        PropertyProblem::AreaNotPositive => "Площадь должна быть больше нуля"@,
    }
}

/// Checks property data before it is stored (`validate_property`): nothing
/// when it keeps every rule, else the message of the first rule it breaks.
pub fn validate_property(data: &PropertyRequest) -> (r: Result<(), String>)
    ensures
        match r {
            Ok(()) => property_problem(*data) is None,
            Err(e) => property_problem(*data) matches Some(p) && e@ == problem_message(p),
        },
{
    if is_blank(data.title.as_str()) {
        return Err("Название объекта не может быть пустым".to_owned());
    }
    if is_blank(data.description.as_str()) {
        return Err("Описание объекта не может быть пустым".to_owned());
    }
    if is_blank(data.city.as_str()) {
        return Err("Город не может быть пустым".to_owned());
    }
    if is_blank(data.district.as_str()) {
        return Err("Район не может быть пустым".to_owned());
    }
    if data.price <= 0 {
        return Err("Цена должна быть больше нуля".to_owned());
    }
    if !(1 <= data.rooms && data.rooms <= 20) {
        return Err("Количество комнат должно быть от 1 до 20".to_owned());
    }
    if data.area_at_most_zero {
        return Err("Площадь должна быть больше нуля".to_owned());
    }
    Ok(())
}

/// The values stored for accepted property data.
pub struct PropertyValues {
    pub title: String,
    pub description: String,
    pub city: String,
    pub district: String,
    pub price: i64,
    pub rooms: i32,
    pub photo_url: Option<String>,
    pub is_active: bool,
}

impl View for PropertyValues {
    type V = (Seq<char>, Seq<char>, Seq<char>, Seq<char>, i64, i32, Option<Seq<char>>, bool);

    open spec fn view(&self) -> Self::V {
        (self.title@, self.description@, self.city@, self.district@, self.price, self.rooms, opt_text(self.photo_url), self.is_active)
    }
}

/// What is stored of property data: the four texts trimmed, the price, the
/// rooms and the photo address as sent, and the listing active unless the
/// data says otherwise.
pub open spec fn stored_values(r: PropertyRequest) -> (Seq<char>, Seq<char>, Seq<char>, Seq<char>, i64, i32, Option<Seq<char>>, bool) {
    (trimmed(r.title@), trimmed(r.description@), trimmed(r.city@), trimmed(r.district@), r.price, r.rooms,
        opt_text(r.photo_url), match r.is_active { Some(a) => a, None => true })
}

/// The values stored for property data.
pub fn property_values(data: &PropertyRequest) -> (r: PropertyValues)
    ensures
        r@ == stored_values(*data),
{
    PropertyValues {
        title: trim(data.title.as_str()),
        description: trim(data.description.as_str()),
        city: trim(data.city.as_str()),
        district: trim(data.district.as_str()),
        price: data.price,
        rooms: data.rooms,
        photo_url: copy_text(&data.photo_url),
        is_active: match data.is_active {
            Some(a) => a,
            None => true,
        },
    }
}

/// An answer of the admin API: the HTTP status, whether the text is an error
/// (else a message), the text, and the id of a created listing.
pub struct AdminReply {
    pub status: u16,
    pub is_error: bool,
    pub text: String,
    pub id: Option<u128>,
}

impl View for AdminReply {
    type V = (u16, bool, Seq<char>, Option<u128>);

    open spec fn view(&self) -> (u16, bool, Seq<char>, Option<u128>) {
        (self.status, self.is_error, self.text@, self.id)
    }
}

/// `400 Bad Request` with the message of the rule the data breaks.
pub open spec fn rejection(p: PropertyProblem) -> (u16, bool, Seq<char>, Option<u128>) {
    (400, true, problem_message(p), None)
}

fn admin_reply(status: u16, is_error: bool, text: &str, id: Option<u128>) -> (r: AdminReply)
    ensures
        r@ == (status, is_error, text@, id),
{
    AdminReply { status, is_error, text: text.to_owned(), id }
}

/// A new listing made from property data under the given id and creation
/// time (`create_property`): refused with `400` when the data breaks a rule;
/// else the stored values with that id and time.
pub fn new_property(data: &PropertyRequest, id: u128, created_at: i64) -> (r: Result<Property, AdminReply>)
    ensures
        match r {
            Ok(p) => property_problem(*data) is None
                && (p.title@, p.description@, p.city@, p.district@, p.price, p.rooms, opt_text(p.photo_url), p.is_active) == stored_values(*data)
                && p.id == id && p.created_at == created_at,
            Err(a) => property_problem(*data) matches Some(pr) && a@ == rejection(pr),
        },
{
    match validate_property(data) {
        Err(e) => return Err(AdminReply { status: 400, is_error: true, text: e, id: None }),
        Ok(()) => {},
    }
    let v = property_values(data);
    Ok(Property {
        id,
        title: v.title,
        description: v.description,
        city: v.city,
        district: v.district,
        price: v.price,
        rooms: v.rooms,
        photo_url: v.photo_url,
        is_active: v.is_active,
        created_at,
    })
}

/// A new listing under a fresh random id and the current time
/// (`create_property`). The data is checked first; the id and the time are
/// drawn only for data that keeps the rules. Of the id it holds that it is a
/// version 4 UUID, of the time nothing.
pub fn new_listing(data: &PropertyRequest) -> (r: Result<Property, AdminReply>)
    ensures
        match r {
            Ok(p) => property_problem(*data) is None
                && (p.title@, p.description@, p.city@, p.district@, p.price, p.rooms, opt_text(p.photo_url), p.is_active) == stored_values(*data)
                && (p.id >> 76u128) & 0xfu128 == 4 && (p.id >> 62u128) & 0x3u128 == 2,
            Err(a) => property_problem(*data) matches Some(pr) && a@ == rejection(pr),
        },
{
    match validate_property(data) {
        Err(e) => return Err(AdminReply { status: 400, is_error: true, text: e, id: None }),
        Ok(()) => {},
    }
    let id = new_random_id();
    let created_at = now_micros();
    new_property(data, id, created_at)
}

/// The values that change a listing (`update_property`): refused with `400`
/// when the data breaks a rule.
pub fn property_update(data: &PropertyRequest) -> (r: Result<PropertyValues, AdminReply>)
    ensures
        match r {
            Ok(v) => property_problem(*data) is None && v@ == stored_values(*data),
            Err(a) => property_problem(*data) matches Some(pr) && a@ == rejection(pr),
        },
{
    match validate_property(data) {
        Err(e) => Err(AdminReply { status: 400, is_error: true, text: e, id: None }),
        Ok(()) => Ok(property_values(data)),
    }
}

/// The answer to a creation: `201` with the id when the listing was stored,
/// else `500`.
pub open spec fn created_view(id: u128, stored: bool) -> (u16, bool, Seq<char>, Option<u128>) {
    if stored {
        (201, false, "Объект создан"@, Some(id))
    } else {
        (500, true, "Не удалось создать объект"@, None)
    }
}

/// The answer to a creation (`create_property`).
pub fn created_reply(id: u128, stored: bool) -> (r: AdminReply)
    ensures
        r@ == created_view(id, stored),
{
    if stored {
        admin_reply(201, false, "Объект создан", Some(id))
    } else {
        admin_reply(500, true, "Не удалось создать объект", None)
    }
}

/// The answer to a change, from the number of rows changed (none when the
/// database failed): `404` when no listing has the id.
pub open spec fn updated_view(rows: Option<u64>) -> (u16, bool, Seq<char>, Option<u128>) {
    match rows {
        None => (500, true, "Не удалось изменить объект"@, None),
        Some(n) => if n == 0 {
            (404, true, "Объект не найден"@, None)
        } else {
            (200, false, "Объект обновлен"@, None)
        },
    }
}

/// The answer to a change (`update_property`).
pub fn updated_reply(rows: Option<u64>) -> (r: AdminReply)
    ensures
        r@ == updated_view(rows),
{
    match rows {
        None => admin_reply(500, true, "Не удалось изменить объект", None),
        Some(n) => if n == 0 {
            admin_reply(404, true, "Объект не найден", None)
        } else {
            admin_reply(200, false, "Объект обновлен", None)
        },
    }
}

/// The answer to a deletion, from the number of rows deleted (none when the
/// database failed): `404` when no listing has the id.
pub open spec fn deleted_view(rows: Option<u64>) -> (u16, bool, Seq<char>, Option<u128>) {
    match rows {
        None => (500, true, "Не удалось удалить объект"@, None),
        Some(n) => if n == 0 {
            (404, true, "Объект не найден"@, None)
        } else {
            (200, false, "Объект удален"@, None)
        },
    }
}

/// The answer to a deletion (`delete_property`).
pub fn deleted_reply(rows: Option<u64>) -> (r: AdminReply)
    ensures
        r@ == deleted_view(rows),
{
    match rows {
        None => admin_reply(500, true, "Не удалось удалить объект", None),
        Some(n) => if n == 0 {
            admin_reply(404, true, "Объект не найден", None)
        } else {
            admin_reply(200, false, "Объект удален", None)
        },
    }
}

/// The answer to a change of a viewing request's status.
pub open spec fn status_updated_view(stored: bool) -> (u16, bool, Seq<char>, Option<u128>) {
    if stored {
        (200, false, "Статус заявки обновлен"@, None)
    } else {
        (500, true, "Не удалось обновить статус заявки"@, None)
    }
}

/// The answer to a change of a viewing request's status (`update_request`).
pub fn status_updated_reply(stored: bool) -> (r: AdminReply)
    ensures
        r@ == status_updated_view(stored),
{
    if stored {
        admin_reply(200, false, "Статус заявки обновлен", None)
    } else {
        admin_reply(500, true, "Не удалось обновить статус заявки", None)
    }
}

/// The status of a listing of properties or requests (`list_properties`,
/// `list_requests`): `200` with the list when it was read, else `500` with an
/// empty list.
pub fn listing_status(loaded: bool) -> (r: u16)
    ensures
        r == (if loaded { 200u16 } else { 500u16 }),
{
    if loaded { 200 } else { 500 }
}

/// What the admin API stores for data it accepts keeps its rules: the four
/// texts are not empty once trimmed, the price is above zero and the rooms
/// are from 1 to 20.
pub proof fn accepted_data_is_stored_valid(r: PropertyRequest)
    requires
        property_problem(r) is None,
    ensures
        stored_values(r).0.len() > 0,
        stored_values(r).1.len() > 0,
        stored_values(r).2.len() > 0,
        stored_values(r).3.len() > 0,
        stored_values(r).4 > 0,
        1 <= stored_values(r).5 <= 20,
{
}

/// Data is accepted exactly when it keeps every rule: title, description,
/// city and district not blank, price above zero, rooms anywhere from 1 to
/// 20, area above zero. A refusal names a rule the data breaks, after all the
/// rules checked before it are kept.
pub proof fn data_is_accepted_exactly_when_it_keeps_the_rules(r: PropertyRequest)
    ensures
        (property_problem(r) is None) == (!blank(r.title@) && !blank(r.description@) && !blank(r.city@)
            && !blank(r.district@) && r.price > 0 && 1 <= r.rooms && r.rooms <= 20 && !r.area_at_most_zero),
        property_problem(r) == Some(PropertyProblem::EmptyTitle) ==> blank(r.title@),
        property_problem(r) == Some(PropertyProblem::EmptyDescription) ==> !blank(r.title@) && blank(r.description@),
        property_problem(r) == Some(PropertyProblem::EmptyCity) ==> !blank(r.title@) && !blank(r.description@) && blank(r.city@),
        property_problem(r) == Some(PropertyProblem::EmptyDistrict) ==> !blank(r.title@) && !blank(r.description@)
            && !blank(r.city@) && blank(r.district@),
        property_problem(r) == Some(PropertyProblem::PriceNotPositive) ==> !blank(r.title@) && !blank(r.description@)
            && !blank(r.city@) && !blank(r.district@) && r.price <= 0,
        property_problem(r) == Some(PropertyProblem::RoomsOutOfRange) ==> !blank(r.title@) && !blank(r.description@)
            && !blank(r.city@) && !blank(r.district@) && r.price > 0 && (r.rooms < 1 || r.rooms > 20),
        property_problem(r) == Some(PropertyProblem::AreaNotPositive) ==> !blank(r.title@) && !blank(r.description@)
            && !blank(r.city@) && !blank(r.district@) && r.price > 0 && 1 <= r.rooms && r.rooms <= 20
            && r.area_at_most_zero,
{
}

} // verus!

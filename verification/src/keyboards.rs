//! The keyboards the bot shows: reply keyboards under the input field and
//! inline keyboards under a message. They are described here as plain data
//! (labels, button data, flags); the Telegram markup is made from them at the
//! edge of the program.

use vstd::prelude::*;
use crate::numbers::{i64_from_text, i32_from_text, all_digits, digits_value, nat_decimal};
use crate::callbacks::{CallbackKind, kind_prefix, callback_data, callback_of, callback_data_reads_back};

verus! {

/// A button under a message: its label and the data it sends back.
pub struct InlineButton {
    pub label: String,
    pub data: String,
}

impl View for InlineButton {
    type V = (Seq<char>, Seq<char>);

    open spec fn view(&self) -> (Seq<char>, Seq<char>) {
        (self.label@, self.data@)
    }
}

/// Rows of buttons under a message.
pub struct InlineKeyboard {
    pub rows: Vec<Vec<InlineButton>>,
}

impl View for InlineKeyboard {
    type V = Seq<Seq<(Seq<char>, Seq<char>)>>;

    open spec fn view(&self) -> Seq<Seq<(Seq<char>, Seq<char>)>> {
        self.rows@.map_values(|row: Vec<InlineButton>| row@.map_values(|b: InlineButton| b@))
    }
}

/// A button of the reply keyboard: its label, and whether pressing it shares
/// the user's phone number.
pub struct KeyButton {
    pub label: String,
    pub request_contact: bool,
}

impl View for KeyButton {
    type V = (Seq<char>, bool);

    open spec fn view(&self) -> (Seq<char>, bool) {
        (self.label@, self.request_contact)
    }
}

/// A reply keyboard: rows of buttons, whether it is fitted to its buttons,
/// and whether it hides after one use.
pub struct ReplyKeyboard {
    pub rows: Vec<Vec<KeyButton>>,
    pub resize: bool,
    pub one_time: bool,
}

impl View for ReplyKeyboard {
    type V = (Seq<Seq<(Seq<char>, bool)>>, bool, bool);

    open spec fn view(&self) -> (Seq<Seq<(Seq<char>, bool)>>, bool, bool) {
        (self.rows@.map_values(|row: Vec<KeyButton>| row@.map_values(|b: KeyButton| b@)), self.resize, self.one_time)
    }
}

/// A button that sends `kind`'s prefix followed by `value`.
pub open spec fn choice(label: Seq<char>, kind: CallbackKind, value: Seq<char>) -> (Seq<char>, Seq<char>) {
    (label, kind_prefix(kind) + value)
}

fn inline_button(label: &str, kind: CallbackKind, value: &str) -> (b: InlineButton)
    ensures
        b@ == choice(label@, kind, value@),
{
    InlineButton { label: label.to_owned(), data: callback_data(kind, value) }
}

fn key_button(label: &str, request_contact: bool) -> (b: KeyButton)
    ensures
        b@ == (label@, request_contact),
{
    KeyButton { label: label.to_owned(), request_contact }
}

fn inline_row1(a: InlineButton) -> (r: Vec<InlineButton>)
    ensures
        r@.map_values(|b: InlineButton| b@) == seq![a@],
{
    let ghost va = a@;
    let mut r = Vec::new();
    r.push(a);
    assert(r@.map_values(|b: InlineButton| b@) =~= seq![va]);
    r
}

fn inline_row2(a: InlineButton, b: InlineButton) -> (r: Vec<InlineButton>)
    ensures
        r@.map_values(|x: InlineButton| x@) == seq![a@, b@],
{
    let ghost va = a@;
    let ghost vb = b@;
    let mut r = Vec::new();
    r.push(a);
    r.push(b);
    assert(r@.map_values(|x: InlineButton| x@) =~= seq![va, vb]);
    r
}

fn key_row1(a: KeyButton) -> (r: Vec<KeyButton>)
    ensures
        r@.map_values(|b: KeyButton| b@) == seq![a@],
{
    let ghost va = a@;
    let mut r = Vec::new();
    r.push(a);
    assert(r@.map_values(|b: KeyButton| b@) =~= seq![va]);
    r
}

fn key_row2(a: KeyButton, b: KeyButton) -> (r: Vec<KeyButton>)
    ensures
        r@.map_values(|x: KeyButton| x@) == seq![a@, b@],
{
    let ghost va = a@;
    let ghost vb = b@;
    let mut r = Vec::new();
    r.push(a);
    r.push(b);
    assert(r@.map_values(|x: KeyButton| x@) =~= seq![va, vb]);
    r
}

/// A city button: it shows the city and sends it.
pub open spec fn city_choice(name: Seq<char>) -> (Seq<char>, Seq<char>) {
    choice(name, CallbackKind::City, name)
}

/// The cities offered.
pub open spec fn city_rows() -> Seq<Seq<(Seq<char>, Seq<char>)>> {
    seq![
        seq![city_choice("Москва"@), city_choice("Санкт-Петербург"@)],
        seq![city_choice("Казань"@), city_choice("Екатеринбург"@)],
        seq![city_choice("Новосибирск"@)],
    ]
}

/// The choice of city.
pub fn city_keyboard() -> (k: InlineKeyboard)
    ensures
        k@ == city_rows(),
{
    let mut rows: Vec<Vec<InlineButton>> = Vec::new();
    let r0 = inline_row2(inline_button("Москва", CallbackKind::City, "Москва"), inline_button("Санкт-Петербург", CallbackKind::City, "Санкт-Петербург"));
    let ghost v0 = r0@.map_values(|b: InlineButton| b@);
    rows.push(r0);
    let r1 = inline_row2(inline_button("Казань", CallbackKind::City, "Казань"), inline_button("Екатеринбург", CallbackKind::City, "Екатеринбург"));
    let ghost v1 = r1@.map_values(|b: InlineButton| b@);
    rows.push(r1);
    let r2 = inline_row1(inline_button("Новосибирск", CallbackKind::City, "Новосибирск"));
    let ghost v2 = r2@.map_values(|b: InlineButton| b@);
    rows.push(r2);
    let k = InlineKeyboard { rows };
    assert(k@ =~= seq![v0, v1, v2]);
    k
}

/// A district button: it shows the district and sends it.
pub open spec fn district_choice(name: Seq<char>) -> (Seq<char>, Seq<char>) {
    choice(name, CallbackKind::District, name)
}

/// The districts offered.
pub open spec fn district_rows() -> Seq<Seq<(Seq<char>, Seq<char>)>> {
    seq![
        seq![district_choice("Центральный"@)],
        seq![district_choice("Северный"@), district_choice("Южный"@)],
        seq![district_choice("Восточный"@), district_choice("Западный"@)],
    ]
}

/// The choice of district.
pub fn district_keyboard() -> (k: InlineKeyboard)
    ensures
        k@ == district_rows(),
{
    let mut rows: Vec<Vec<InlineButton>> = Vec::new();
    let r0 = inline_row1(inline_button("Центральный", CallbackKind::District, "Центральный"));
    let ghost v0 = r0@.map_values(|b: InlineButton| b@);
    rows.push(r0);
    let r1 = inline_row2(inline_button("Северный", CallbackKind::District, "Северный"), inline_button("Южный", CallbackKind::District, "Южный"));
    let ghost v1 = r1@.map_values(|b: InlineButton| b@);
    rows.push(r1);
    let r2 = inline_row2(inline_button("Восточный", CallbackKind::District, "Восточный"), inline_button("Западный", CallbackKind::District, "Западный"));
    let ghost v2 = r2@.map_values(|b: InlineButton| b@);
    rows.push(r2);
    let k = InlineKeyboard { rows };
    assert(k@ =~= seq![v0, v1, v2]);
    k
}

/// The budgets offered: each button shows a bound and sends it in roubles.
pub open spec fn budget_rows() -> Seq<Seq<(Seq<char>, Seq<char>)>> {
    seq![
        seq![choice("До 3 млн"@, CallbackKind::Budget, "3000000"@)],
        seq![choice("До 5 млн"@, CallbackKind::Budget, "5000000"@)],
        seq![choice("До 8 млн"@, CallbackKind::Budget, "8000000"@)],
        seq![choice("До 10 млн"@, CallbackKind::Budget, "10000000"@)],
        seq![choice("Без ограничений"@, CallbackKind::Budget, "999999999"@)],
    ]
}

/// The choice of the largest budget.
pub fn budget_keyboard() -> (k: InlineKeyboard)
    ensures
        k@ == budget_rows(),
{
    let mut rows: Vec<Vec<InlineButton>> = Vec::new();
    let r0 = inline_row1(inline_button("До 3 млн", CallbackKind::Budget, "3000000"));
    let ghost v0 = r0@.map_values(|b: InlineButton| b@);
    rows.push(r0);
    let r1 = inline_row1(inline_button("До 5 млн", CallbackKind::Budget, "5000000"));
    let ghost v1 = r1@.map_values(|b: InlineButton| b@);
    rows.push(r1);
    let r2 = inline_row1(inline_button("До 8 млн", CallbackKind::Budget, "8000000"));
    let ghost v2 = r2@.map_values(|b: InlineButton| b@);
    rows.push(r2);
    let r3 = inline_row1(inline_button("До 10 млн", CallbackKind::Budget, "10000000"));
    let ghost v3 = r3@.map_values(|b: InlineButton| b@);
    rows.push(r3);
    let r4 = inline_row1(inline_button("Без ограничений", CallbackKind::Budget, "999999999"));
    let ghost v4 = r4@.map_values(|b: InlineButton| b@);
    rows.push(r4);
    let k = InlineKeyboard { rows };
    assert(k@ =~= seq![v0, v1, v2, v3, v4]);
    k
}

/// The room counts offered; the last button, `5+`, sends 5.
pub open spec fn rooms_rows() -> Seq<Seq<(Seq<char>, Seq<char>)>> {
    seq![
        seq![choice("1"@, CallbackKind::Rooms, "1"@), choice("2"@, CallbackKind::Rooms, "2"@)],
        seq![choice("3"@, CallbackKind::Rooms, "3"@), choice("4"@, CallbackKind::Rooms, "4"@)],
        seq![choice("5+"@, CallbackKind::Rooms, "5"@)],
    ]
}

/// The choice of the number of rooms.
pub fn rooms_keyboard() -> (k: InlineKeyboard)
    ensures
        k@ == rooms_rows(),
{
    let mut rows: Vec<Vec<InlineButton>> = Vec::new();
    let r0 = inline_row2(inline_button("1", CallbackKind::Rooms, "1"), inline_button("2", CallbackKind::Rooms, "2"));
    let ghost v0 = r0@.map_values(|b: InlineButton| b@);
    rows.push(r0);
    let r1 = inline_row2(inline_button("3", CallbackKind::Rooms, "3"), inline_button("4", CallbackKind::Rooms, "4"));
    let ghost v1 = r1@.map_values(|b: InlineButton| b@);
    rows.push(r1);
    let r2 = inline_row1(inline_button("5+", CallbackKind::Rooms, "5"));
    let ghost v2 = r2@.map_values(|b: InlineButton| b@);
    rows.push(r2);
    let k = InlineKeyboard { rows };
    assert(k@ =~= seq![v0, v1, v2]);
    k
}

/// The buttons under a property card.
pub open spec fn property_rows(property_id: Seq<char>) -> Seq<Seq<(Seq<char>, Seq<char>)>> {
    seq![
        seq![choice("⭐ В избранное"@, CallbackKind::AddFavorite, property_id)],
        seq![choice("📅 Записаться на просмотр"@, CallbackKind::View, property_id)],
        seq![choice("➡ Следующий"@, CallbackKind::Next, property_id)],
    ]
}

/// The buttons under a property card: add to favourites, ask for a viewing,
/// show the next property.
pub fn property_keyboard(property_id: &str) -> (k: InlineKeyboard)
    ensures
        k@ == property_rows(property_id@),
{
    let mut rows: Vec<Vec<InlineButton>> = Vec::new();
    let r0 = inline_row1(inline_button("⭐ В избранное", CallbackKind::AddFavorite, property_id));
    let ghost v0 = r0@.map_values(|b: InlineButton| b@);
    rows.push(r0);
    let r1 = inline_row1(inline_button("📅 Записаться на просмотр", CallbackKind::View, property_id));
    let ghost v1 = r1@.map_values(|b: InlineButton| b@);
    rows.push(r1);
    let r2 = inline_row1(inline_button("➡ Следующий", CallbackKind::Next, property_id));
    let ghost v2 = r2@.map_values(|b: InlineButton| b@);
    rows.push(r2);
    let k = InlineKeyboard { rows };
    assert(k@ =~= seq![v0, v1, v2]);
    k
}

/// The buttons under a favourite.
pub open spec fn favorites_rows(property_id: Seq<char>) -> Seq<Seq<(Seq<char>, Seq<char>)>> {
    seq![
        seq![choice("🗑 Удалить"@, CallbackKind::RemoveFavorite, property_id)],
        seq![choice("📅 Просмотр"@, CallbackKind::View, property_id)],
    ]
}

/// The buttons under a favourite: remove it, ask for a viewing.
pub fn favorites_keyboard(property_id: &str) -> (k: InlineKeyboard)
    ensures
        k@ == favorites_rows(property_id@),
{
    let mut rows: Vec<Vec<InlineButton>> = Vec::new();
    let r0 = inline_row1(inline_button("🗑 Удалить", CallbackKind::RemoveFavorite, property_id));
    let ghost v0 = r0@.map_values(|b: InlineButton| b@);
    rows.push(r0);
    let r1 = inline_row1(inline_button("📅 Просмотр", CallbackKind::View, property_id));
    let ghost v1 = r1@.map_values(|b: InlineButton| b@);
    rows.push(r1);
    let k = InlineKeyboard { rows };
    assert(k@ =~= seq![v0, v1]);
    k
}

/// The label of the main menu's search button.
pub open spec fn search_label() -> Seq<char> { "🏠 Подобрать недвижимость"@ }

/// The label of the main menu's favourites button.
pub open spec fn favorites_label() -> Seq<char> { "⭐ Избранное"@ }

/// The label of the main menu's profile button.
pub open spec fn profile_label() -> Seq<char> { "👤 Профиль"@ }

/// The label of the main menu's help button.
pub open spec fn help_label() -> Seq<char> { "ℹ Помощь"@ }

/// The user's main menu.
pub open spec fn main_menu_view() -> (Seq<Seq<(Seq<char>, bool)>>, bool, bool) {
    (seq![
        seq![(search_label(), false)],
        seq![(favorites_label(), false), (profile_label(), false)],
        seq![(help_label(), false)],
    ], true, false)
}

/// The user's main menu: search, favourites, profile, help.
pub fn main_menu() -> (k: ReplyKeyboard)
    ensures
        k@ == main_menu_view(),
{
    let mut rows: Vec<Vec<KeyButton>> = Vec::new();
    let r0 = key_row1(key_button("🏠 Подобрать недвижимость", false));
    let ghost v0 = r0@.map_values(|b: KeyButton| b@);
    rows.push(r0);
    let r1 = key_row2(key_button("⭐ Избранное", false), key_button("👤 Профиль", false));
    let ghost v1 = r1@.map_values(|b: KeyButton| b@);
    rows.push(r1);
    let r2 = key_row1(key_button("ℹ Помощь", false));
    let ghost v2 = r2@.map_values(|b: KeyButton| b@);
    rows.push(r2);
    let k = ReplyKeyboard { rows, resize: true, one_time: false };
    assert(k@.0 =~= seq![v0, v1, v2]);
    k
}

/// The keyboard that asks for the phone number.
pub open spec fn request_phone_view() -> (Seq<Seq<(Seq<char>, bool)>>, bool, bool) {
    (seq![seq![("📱 Отправить номер телефона"@, true)]], true, true)
}

/// One button that shares the user's phone number; it hides after use.
pub fn request_phone() -> (k: ReplyKeyboard)
    ensures
        k@ == request_phone_view(),
{
    let mut rows: Vec<Vec<KeyButton>> = Vec::new();
    let r0 = key_row1(key_button("📱 Отправить номер телефона", true));
    let ghost v0 = r0@.map_values(|b: KeyButton| b@);
    rows.push(r0);
    let k = ReplyKeyboard { rows, resize: true, one_time: true };
    assert(k@.0 =~= seq![v0]);
    k
}

/// The administrator's menu.
pub open spec fn admin_menu_view() -> (Seq<Seq<(Seq<char>, bool)>>, bool, bool) {
    (seq![
        seq![("➕ Добавить объект"@, false), ("📋 Объекты"@, false)],
        seq![("📨 Заявки"@, false), ("📊 Статистика"@, false)],
    ], true, false)
}

/// The administrator's menu: add a property, properties, requests, statistics.
pub fn admin_menu() -> (k: ReplyKeyboard)
    ensures
        k@ == admin_menu_view(),
{
    let mut rows: Vec<Vec<KeyButton>> = Vec::new();
    let r0 = key_row2(key_button("➕ Добавить объект", false), key_button("📋 Объекты", false));
    let ghost v0 = r0@.map_values(|b: KeyButton| b@);
    rows.push(r0);
    let r1 = key_row2(key_button("📨 Заявки", false), key_button("📊 Статистика", false));
    let ghost v1 = r1@.map_values(|b: KeyButton| b@);
    rows.push(r1);
    let k = ReplyKeyboard { rows, resize: true, one_time: false };
    assert(k@.0 =~= seq![v0, v1]);
    k
}

/// A city button chooses the city it shows.
pub proof fn city_buttons_read_back()
    ensures
        forall|i: int, j: int| 0 <= i < city_rows().len() && 0 <= j < city_rows()[i].len() ==>
            callback_of(#[trigger] city_rows()[i][j].1) == Some((CallbackKind::City, city_rows()[i][j].0)),
{
    assert forall|i: int, j: int| 0 <= i < city_rows().len() && 0 <= j < city_rows()[i].len() implies
        callback_of(#[trigger] city_rows()[i][j].1) == Some((CallbackKind::City, city_rows()[i][j].0)) by {
        callback_data_reads_back(CallbackKind::City, city_rows()[i][j].0);
    }
}

/// A district button chooses the district it shows.
pub proof fn district_buttons_read_back()
    ensures
        forall|i: int, j: int| 0 <= i < district_rows().len() && 0 <= j < district_rows()[i].len() ==>
            callback_of(#[trigger] district_rows()[i][j].1) == Some((CallbackKind::District, district_rows()[i][j].0)),
{
    assert forall|i: int, j: int| 0 <= i < district_rows().len() && 0 <= j < district_rows()[i].len() implies
        callback_of(#[trigger] district_rows()[i][j].1) == Some((CallbackKind::District, district_rows()[i][j].0)) by {
        callback_data_reads_back(CallbackKind::District, district_rows()[i][j].0);
    }
}

/// A budget button sends a budget that reads as its amount.
pub proof fn budget_buttons_read_back()
    ensures
        forall|i: int| 0 <= i < budget_rows().len() ==>
            (callback_of(#[trigger] budget_rows()[i][0].1) matches Some((k, v))
            && k == CallbackKind::Budget && i64_from_text(v) == Some(budget_amounts()[i])),
{
    budget_texts_read_as_amounts();
    callback_data_reads_back(CallbackKind::Budget, "3000000"@);
    callback_data_reads_back(CallbackKind::Budget, "5000000"@);
    callback_data_reads_back(CallbackKind::Budget, "8000000"@);
    callback_data_reads_back(CallbackKind::Budget, "10000000"@);
    callback_data_reads_back(CallbackKind::Budget, "999999999"@);
    assert forall|i: int| 0 <= i < budget_rows().len() implies
            (callback_of(#[trigger] budget_rows()[i][0].1) matches Some((k, v))
            && k == CallbackKind::Budget && i64_from_text(v) == Some(budget_amounts()[i])) by {
        if i == 0 {} else if i == 1 {} else if i == 2 {} else if i == 3 {} else {}
    }
}

/// A rooms button sends a count that reads as the number it shows (`5+`
/// sends 5).
pub proof fn rooms_buttons_read_back()
    ensures
        forall|i: int, j: int| 0 <= i < rooms_rows().len() && 0 <= j < rooms_rows()[i].len() ==>
            (callback_of(#[trigger] rooms_rows()[i][j].1) matches Some((k, v))
            && k == CallbackKind::Rooms && i32_from_text(v) == Some((2 * i + j + 1) as i32)),
{
    rooms_texts_read_as_counts();
    callback_data_reads_back(CallbackKind::Rooms, "1"@);
    callback_data_reads_back(CallbackKind::Rooms, "2"@);
    callback_data_reads_back(CallbackKind::Rooms, "3"@);
    callback_data_reads_back(CallbackKind::Rooms, "4"@);
    callback_data_reads_back(CallbackKind::Rooms, "5"@);
    assert forall|i: int, j: int| 0 <= i < rooms_rows().len() && 0 <= j < rooms_rows()[i].len() implies
            (callback_of(#[trigger] rooms_rows()[i][j].1) matches Some((k, v))
            && k == CallbackKind::Rooms && i32_from_text(v) == Some((2 * i + j + 1) as i32)) by {
        if i == 0 {} else if i == 1 {} else {}
    }
}

/// The buttons under a property card or a favourite act on that property.
pub proof fn card_buttons_read_back(property_id: Seq<char>)
    ensures
        callback_of(property_rows(property_id)[0][0].1) == Some((CallbackKind::AddFavorite, property_id)),
        callback_of(property_rows(property_id)[1][0].1) == Some((CallbackKind::View, property_id)),
        callback_of(property_rows(property_id)[2][0].1) == Some((CallbackKind::Next, property_id)),
        callback_of(favorites_rows(property_id)[0][0].1) == Some((CallbackKind::RemoveFavorite, property_id)),
        callback_of(favorites_rows(property_id)[1][0].1) == Some((CallbackKind::View, property_id)),
{
    callback_data_reads_back(CallbackKind::AddFavorite, property_id);
    callback_data_reads_back(CallbackKind::View, property_id);
    callback_data_reads_back(CallbackKind::Next, property_id);
    callback_data_reads_back(CallbackKind::RemoveFavorite, property_id);
}

/// The amounts, in roubles, that the budget buttons send.
pub open spec fn budget_amounts() -> Seq<i64> {
    seq![3000000, 5000000, 8000000, 10000000, 999999999]
}

proof fn budget_texts_read_as_amounts()
    ensures
        i64_from_text("3000000"@) == Some(3000000i64),
        i64_from_text("5000000"@) == Some(5000000i64),
        i64_from_text("8000000"@) == Some(8000000i64),
        i64_from_text("10000000"@) == Some(10000000i64),
        i64_from_text("999999999"@) == Some(999999999i64),
{
    reveal_with_fuel(digits_value, 10);
    reveal_strlit("3000000");
    reveal_strlit("5000000");
    reveal_strlit("8000000");
    reveal_strlit("10000000");
    reveal_strlit("999999999");
    assert(all_digits("3000000"@));
    assert(all_digits("5000000"@));
    assert(all_digits("8000000"@));
    assert(all_digits("10000000"@));
    assert(all_digits("999999999"@));
}

proof fn rooms_texts_read_as_counts()
    ensures
        i32_from_text("1"@) == Some(1i32),
        i32_from_text("2"@) == Some(2i32),
        i32_from_text("3"@) == Some(3i32),
        i32_from_text("4"@) == Some(4i32),
        i32_from_text("5"@) == Some(5i32),
{
    reveal_with_fuel(digits_value, 3);
    reveal_strlit("1");
    reveal_strlit("2");
    reveal_strlit("3");
    reveal_strlit("4");
    reveal_strlit("5");
    assert(all_digits("1"@));
    assert(all_digits("2"@));
    assert(all_digits("3"@));
    assert(all_digits("4"@));
    assert(all_digits("5"@));
}

/// The budget that button data sends, when it is a budget button whose value
/// reads as an `i64`.
pub open spec fn sent_budget(data: Seq<char>) -> Option<int> {
    match callback_of(data) {
        Some((CallbackKind::Budget, v)) => match i64_from_text(v) {
            Some(a) => Some(a as int),
            None => None,
        },
        _ => None,
    }
}

/// The number of rooms that button data sends, when it is a rooms button
/// whose value reads as an `i32`.
pub open spec fn sent_rooms(data: Seq<char>) -> Option<int> {
    match callback_of(data) {
        Some((CallbackKind::Rooms, v)) => match i32_from_text(v) {
            Some(n) => Some(n as int),
            None => None,
        },
        _ => None,
    }
}

/// A label that names an amount in millions: `До <digits> млн`, the digits
/// giving the number of millions.
pub open spec fn names_millions(label: Seq<char>, amount: int) -> bool {
    exists|d: Seq<char>| all_digits(d) && label == "До "@ + d + " млн"@ && amount == digits_value(d) * 1000000
}

proof fn lemma_million_label(d: Seq<char>)
    requires
        all_digits(d),
    ensures
        names_millions("До "@ + d + " млн"@, digits_value(d) * 1000000),
{
}

/// Each bounded budget button sends, as its budget, the amount its label
/// names: the button `До N млн` sends N million roubles. The last button,
/// `Без ограничений`, sends 999 999 999.
pub proof fn budget_labels_name_what_they_send()
    ensures
        budget_rows().len() == 5,
        forall|i: int| 0 <= i < 4 ==>
            (sent_budget(#[trigger] budget_rows()[i][0].1) matches Some(a)
            && names_millions(budget_rows()[i][0].0, a)),
        budget_rows()[4][0].0 == "Без ограничений"@,
        sent_budget(budget_rows()[4][0].1) == Some(999999999int),
{
    budget_buttons_read_back();
    reveal_strlit("До 3 млн");
    reveal_strlit("До 5 млн");
    reveal_strlit("До 8 млн");
    reveal_strlit("До 10 млн");
    reveal_strlit("До ");
    reveal_strlit(" млн");
    reveal_strlit("3");
    reveal_strlit("5");
    reveal_strlit("8");
    reveal_strlit("10");
    reveal_with_fuel(digits_value, 3);
    assert(all_digits("3"@) && all_digits("5"@) && all_digits("8"@) && all_digits("10"@));
    lemma_million_label("3"@);
    lemma_million_label("5"@);
    lemma_million_label("8"@);
    lemma_million_label("10"@);
    assert("До 3 млн"@ =~= "До "@ + "3"@ + " млн"@);
    assert("До 5 млн"@ =~= "До "@ + "5"@ + " млн"@);
    assert("До 8 млн"@ =~= "До "@ + "8"@ + " млн"@);
    assert("До 10 млн"@ =~= "До "@ + "10"@ + " млн"@);
    assert(digits_value("3"@) == 3);
    assert(digits_value("5"@) == 5);
    assert(digits_value("8"@) == 8);
    assert(digits_value("10"@) == 10) by {
        assert("10"@.drop_last() =~= seq!['1']);
    }
    assert forall|i: int| 0 <= i < 4 implies
            (sent_budget(#[trigger] budget_rows()[i][0].1) matches Some(a)
            && names_millions(budget_rows()[i][0].0, a)) by {
        if i == 0 {} else if i == 1 {} else if i == 2 {} else {}
    }
}

/// Each rooms button sends the number its label shows: a label is the
/// decimal text of the count sent, followed by `+` for the last button
/// (`5+` sends 5).
pub proof fn rooms_labels_show_what_they_send()
    ensures
        forall|i: int, j: int| 0 <= i < rooms_rows().len() && 0 <= j < rooms_rows()[i].len() ==>
            (sent_rooms(#[trigger] rooms_rows()[i][j].1) matches Some(n)
            && (rooms_rows()[i][j].0 == nat_decimal(n as nat)
                || rooms_rows()[i][j].0 == nat_decimal(n as nat) + seq!['+'])),
{
    rooms_buttons_read_back();
    reveal_strlit("1");
    reveal_strlit("2");
    reveal_strlit("3");
    reveal_strlit("4");
    reveal_strlit("5+");
    assert("1"@ =~= nat_decimal(1));
    assert("2"@ =~= nat_decimal(2));
    assert("3"@ =~= nat_decimal(3));
    assert("4"@ =~= nat_decimal(4));
    assert("5+"@ =~= nat_decimal(5) + seq!['+']);
    assert forall|i: int, j: int| 0 <= i < rooms_rows().len() && 0 <= j < rooms_rows()[i].len() implies
            (sent_rooms(#[trigger] rooms_rows()[i][j].1) matches Some(n)
            && (rooms_rows()[i][j].0 == nat_decimal(n as nat)
                || rooms_rows()[i][j].0 == nat_decimal(n as nat) + seq!['+'])) by {
        if i == 0 {} else if i == 1 {} else {}
    }
}

} // verus!

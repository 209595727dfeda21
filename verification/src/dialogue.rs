//! The decisions of the bot's conversation. Each handler of the bot reads the
//! database and Telegram at its edges; what it decides in between (which
//! state the dialogue moves to, which messages it sends, how the search
//! profile changes) is made here from plain values.

use vstd::prelude::*;
use crate::models::{RegistrationState, SearchPreferences, opt_text};
use crate::search::{SearchParams, search_params, search_of};
use crate::numbers::{format_price, price_text, parse_i64, parse_i32, i64_from_text, i32_from_text};
use crate::text::{trim, trimmed, eq_ignore_ascii_case, ascii_case_eq, ascii_lower, str_eq};
use crate::keyboards::{search_label, favorites_label, profile_label};
use crate::ids::{parse_uuid, uuid_from_text, hyphenated_text};

verus! {

/// The keyboard that goes with a message.
#[derive(Clone, Copy, Debug, PartialEq, Eq, Structural)]
pub enum Markup {
    /// None; the keyboard shown before stays.
    Keep,
    MainMenu,
    RequestPhone,
    /// Take the reply keyboard away.
    RemoveKeyboard,
    Cities,
    Districts,
    Budgets,
    Rooms,
    /// The buttons under the card of the property with this id.
    PropertyActions(u128),
    /// The buttons under the favourite with this property id.
    FavoriteActions(u128),
}

/// A message to send: its text, whether the text is HTML, and its keyboard.
pub struct Reply {
    pub text: String,
    pub html: bool,
    pub markup: Markup,
}

impl View for Reply {
    type V = (Seq<char>, bool, Markup);

    open spec fn view(&self) -> (Seq<char>, bool, Markup) {
        (self.text@, self.html, self.markup)
    }
}

/// What a handler does: the state the dialogue moves to (if it moves) and the
/// messages it sends, in order.
pub struct Step {
    pub state: Option<RegistrationState>,
    pub replies: Vec<Reply>,
}

impl View for Step {
    type V = (Option<RegistrationState>, Seq<(Seq<char>, bool, Markup)>);

    open spec fn view(&self) -> Self::V {
        (self.state, self.replies@.map_values(|r: Reply| r@))
    }
}

fn reply(text: String, html: bool, markup: Markup) -> (r: Reply)
    ensures
        r@ == (text@, html, markup),
{
    Reply { text, html, markup }
}

fn plain(text: &str, markup: Markup) -> (r: Reply)
    ensures
        r@ == (text@, false, markup),
{
    Reply { text: text.to_owned(), html: false, markup }
}

fn step1(state: Option<RegistrationState>, a: Reply) -> (r: Step)
    ensures
        r@ == (state, seq![a@]),
{
    let ghost va = a@;
    let mut replies = Vec::new();
    replies.push(a);
    let r = Step { state, replies };
    assert(r@.1 =~= seq![va]);
    r
}

fn step2(state: Option<RegistrationState>, a: Reply, b: Reply) -> (r: Step)
    ensures
        r@ == (state, seq![a@, b@]),
{
    let ghost va = a@;
    let ghost vb = b@;
    let mut replies = Vec::new();
    replies.push(a);
    replies.push(b);
    let r = Step { state, replies };
    assert(r@.1 =~= seq![va, vb]);
    r
}

/// The fixed messages of the conversation.
#[derive(Clone, Copy, Debug, PartialEq, Eq, Structural)]
pub enum Notice {
    /// A new user is greeted and asked for the phone number.
    Welcome,
    /// A known user is welcomed back to the main menu.
    WelcomeBack,
    /// A search is asked for by someone who never sent `/start`.
    SearchNeedsStart,
    /// A search is asked for before the phone number is known.
    SearchNeedsPhone,
    /// The first question of the search.
    AskCity,
    /// A message arrives after the dialogue is completed.
    UseMenu,
    /// A message arrives while a button answer is expected.
    UseButtons,
    /// The message carried no phone number.
    PhoneMissing,
    /// The phone number came from someone who never sent `/start`.
    UserNotFound,
    /// The phone number is saved.
    PhoneSaved,
    /// The city question that follows a saved phone number.
    AskCityAgain,
    /// The question for additional requirements.
    AskRequirements,
    /// The search begins.
    Searching,
    /// The search profile does not exist yet.
    NoProfile,
    /// The search profile lacks one of city, district, budget and rooms.
    IncompleteProfile,
    /// Nothing matches the search.
    NothingFound,
    /// The property shown is the last match.
    LastMatch,
    /// A property is added to the favourites.
    FavoriteAdded,
    /// A property is removed from the favourites.
    FavoriteRemoved,
    /// Profile or favourites are asked for by someone who never sent `/start`.
    StartFirst,
    /// The favourites are empty.
    NoFavorites,
    /// The property asked about is no longer listed.
    PropertyGone,
    /// A viewing request is sent to the manager.
    RequestSent,
}

/// The text and keyboard of each fixed message; none of them is HTML.
pub open spec fn notice_view(n: Notice) -> (Seq<char>, bool, Markup) {
    match n {
        Notice::Welcome => ("Здравствуйте! 👋\n\nДля начала отправьте номер телефона."@, false, Markup::RequestPhone),
        Notice::WelcomeBack => ("С возвращением! 👋\n\nВыберите нужное действие:"@, false, Markup::MainMenu),
        Notice::SearchNeedsStart => ("Сначала выполните команду /start."@, false, Markup::Keep),
        Notice::SearchNeedsPhone => ("Перед поиском необходимо указать номер телефона."@, false, Markup::RequestPhone),
        Notice::AskCity => ("🏙 Выберите город:"@, false, Markup::Cities),
        Notice::UseMenu => ("Используйте кнопки меню или команды /search, /profile, /favorites."@, false, Markup::MainMenu),
        Notice::UseButtons => ("Пожалуйста, выберите вариант с помощью кнопок."@, false, Markup::Keep),
        Notice::PhoneMissing => ("Не удалось получить номер. Отправьте его через кнопку ниже."@, false, Markup::RequestPhone),
        Notice::UserNotFound => ("Пользователь не найден. Выполните /start."@, false, Markup::Keep),
        Notice::PhoneSaved => ("Телефон сохранён ✅\n\nТеперь выберите город:"@, false, Markup::RemoveKeyboard),
        Notice::AskCityAgain => ("🏙 Город:"@, false, Markup::Cities),
        Notice::AskRequirements => ("Есть дополнительные пожелания?\n\nНапишите их сообщением или отправьте «нет»."@, false, Markup::Keep),
        Notice::Searching => ("Ищу подходящие варианты... 🔎"@, false, Markup::Keep),
        Notice::NoProfile => ("Профиль ещё не заполнен."@, false, Markup::Keep),
        Notice::IncompleteProfile => ("Не удалось определить все параметры поиска."@, false, Markup::Keep),
        Notice::NothingFound => ("К сожалению, подходящих вариантов пока нет. 😔\n\nПопробуйте изменить параметры поиска."@, false, Markup::MainMenu),
        Notice::LastMatch => ("Это последний подходящий вариант. 🏠"@, false, Markup::Keep),
        Notice::FavoriteAdded => ("⭐ Объект добавлен в избранное."@, false, Markup::Keep),
        Notice::FavoriteRemoved => ("Объект удалён из избранного."@, false, Markup::Keep),
        Notice::StartFirst => ("Выполните /start."@, false, Markup::Keep),
        Notice::NoFavorites => ("⭐ Избранное пока пустое."@, false, Markup::MainMenu),
        Notice::PropertyGone => ("Объект больше недоступен."@, false, Markup::Keep),
        Notice::RequestSent => ("✅ Заявка отправлена!\n\nМенеджер свяжется с вами для согласования просмотра."@, false, Markup::MainMenu),
    }
}

/// A fixed message.
pub fn notice(n: Notice) -> (r: Reply)
    ensures
        r@ == notice_view(n),
{
    match n {
        Notice::Welcome => plain("Здравствуйте! 👋\n\nДля начала отправьте номер телефона.", Markup::RequestPhone),
        Notice::WelcomeBack => plain("С возвращением! 👋\n\nВыберите нужное действие:", Markup::MainMenu),
        Notice::SearchNeedsStart => plain("Сначала выполните команду /start.", Markup::Keep),
        Notice::SearchNeedsPhone => plain("Перед поиском необходимо указать номер телефона.", Markup::RequestPhone),
        Notice::AskCity => plain("🏙 Выберите город:", Markup::Cities),
        Notice::UseMenu => plain("Используйте кнопки меню или команды /search, /profile, /favorites.", Markup::MainMenu),
        Notice::UseButtons => plain("Пожалуйста, выберите вариант с помощью кнопок.", Markup::Keep),
        Notice::PhoneMissing => plain("Не удалось получить номер. Отправьте его через кнопку ниже.", Markup::RequestPhone),
        Notice::UserNotFound => plain("Пользователь не найден. Выполните /start.", Markup::Keep),
        Notice::PhoneSaved => plain("Телефон сохранён ✅\n\nТеперь выберите город:", Markup::RemoveKeyboard),
        Notice::AskCityAgain => plain("🏙 Город:", Markup::Cities),
        Notice::AskRequirements => plain("Есть дополнительные пожелания?\n\nНапишите их сообщением или отправьте «нет».", Markup::Keep),
        Notice::Searching => plain("Ищу подходящие варианты... 🔎", Markup::Keep),
        Notice::NoProfile => plain("Профиль ещё не заполнен.", Markup::Keep),
        Notice::IncompleteProfile => plain("Не удалось определить все параметры поиска.", Markup::Keep),
        Notice::NothingFound => plain("К сожалению, подходящих вариантов пока нет. 😔\n\nПопробуйте изменить параметры поиска.", Markup::MainMenu),
        Notice::LastMatch => plain("Это последний подходящий вариант. 🏠", Markup::Keep),
        Notice::FavoriteAdded => plain("⭐ Объект добавлен в избранное.", Markup::Keep),
        Notice::FavoriteRemoved => plain("Объект удалён из избранного.", Markup::Keep),
        Notice::StartFirst => plain("Выполните /start.", Markup::Keep),
        Notice::NoFavorites => plain("⭐ Избранное пока пустое.", Markup::MainMenu),
        Notice::PropertyGone => plain("Объект больше недоступен.", Markup::Keep),
        Notice::RequestSent => plain("✅ Заявка отправлена!\n\nМенеджер свяжется с вами для согласования просмотра.", Markup::MainMenu),
    }
}

/// What `/start` does once the user and the profile exist: a user without a
/// phone number is asked for it; a user with one gets the main menu.
pub open spec fn start_view(has_phone: bool) -> (Option<RegistrationState>, Seq<(Seq<char>, bool, Markup)>) {
    if has_phone {
        (Some(RegistrationState::Completed), seq![notice_view(Notice::WelcomeBack)])
    } else {
        (Some(RegistrationState::WaitingPhone), seq![notice_view(Notice::Welcome)])
    }
}

/// The end of `/start` (`start`).
pub fn start_step(has_phone: bool) -> (r: Step)
    ensures
        r@ == start_view(has_phone),
{
    if has_phone {
        step1(Some(RegistrationState::Completed), notice(Notice::WelcomeBack))
    } else {
        step1(Some(RegistrationState::WaitingPhone), notice(Notice::Welcome))
    }
}

/// What starting a search does: someone unknown is sent to `/start`, a user
/// without a phone number is asked for it, anyone else is asked for the city.
pub open spec fn search_start_view(registered: bool, has_phone: bool) -> (Option<RegistrationState>, Seq<(Seq<char>, bool, Markup)>) {
    if !registered {
        (None, seq![notice_view(Notice::SearchNeedsStart)])
    } else if !has_phone {
        (Some(RegistrationState::WaitingPhone), seq![notice_view(Notice::SearchNeedsPhone)])
    } else {
        (Some(RegistrationState::WaitingCity), seq![notice_view(Notice::AskCity)])
    }
}

/// Starting a search (`start_search`). The profile must exist before the
/// dialogue moves to the city question; the second result says whether it is
/// needed.
pub fn search_start_step(registered: bool, has_phone: bool) -> (r: (Step, bool))
    ensures
        r.0@ == search_start_view(registered, has_phone),
        r.1 == (registered && has_phone),
{
    if !registered {
        (step1(None, notice(Notice::SearchNeedsStart)), false)
    } else if !has_phone {
        (step1(Some(RegistrationState::WaitingPhone), notice(Notice::SearchNeedsPhone)), false)
    } else {
        (step1(Some(RegistrationState::WaitingCity), notice(Notice::AskCity)), true)
    }
}

/// What a text message leads to while the dialogue is in a given state.
pub enum DialogueAction {
    /// The message is read as the phone number.
    ReadPhone,
    /// The message is read as the additional requirements.
    ReadRequirements,
    /// The message is answered with a hint.
    Answer(Reply),
}

/// The action a text message leads to in each state (`handle_dialogue_message`).
pub fn dialogue_action(state: RegistrationState) -> (r: DialogueAction)
    ensures
        match state {
            RegistrationState::WaitingPhone => r is ReadPhone,
            RegistrationState::WaitingAdditionalRequirements => r is ReadRequirements,
            RegistrationState::Completed => r matches DialogueAction::Answer(a) && a@ == notice_view(Notice::UseMenu),
            _ => r matches DialogueAction::Answer(a) && a@ == notice_view(Notice::UseButtons),
        },
{
    match state {
        RegistrationState::WaitingPhone => DialogueAction::ReadPhone,
        RegistrationState::WaitingAdditionalRequirements => DialogueAction::ReadRequirements,
        RegistrationState::Completed => DialogueAction::Answer(notice(Notice::UseMenu)),
        _ => DialogueAction::Answer(notice(Notice::UseButtons)),
    }
}

/// The phone number a message carries: the shared contact's number, else the
/// trimmed text, else nothing.
pub open spec fn phone_of(contact: Option<Seq<char>>, text: Option<Seq<char>>) -> Seq<char> {
    match contact {
        Some(c) => c,
        None => match text {
            Some(t) => trimmed(t),
            None => Seq::empty(),
        },
    }
}

/// Reads the phone number from a message (`handle_phone`): the number, or the
/// message asking for it again when the message carries none.
pub fn read_phone(contact: Option<String>, text: Option<String>) -> (r: Result<String, Reply>)
    ensures
        match r {
            Ok(p) => p@ == phone_of(opt_text(contact), opt_text(text)) && p@.len() > 0,
            Err(a) => phone_of(opt_text(contact), opt_text(text)).len() == 0 && a@ == notice_view(Notice::PhoneMissing),
        },
{
    let phone = match contact {
        Some(c) => c,
        None => match text {
            Some(t) => trim(t.as_str()),
            None => String::new(),
        },
    };
    if phone.as_str().is_empty() {
        Err(notice(Notice::PhoneMissing))
    } else {
        Ok(phone)
    }
}

/// What follows a phone number: someone unknown is sent to `/start`; a known
/// user's number is saved and the city is asked for.
pub open spec fn phone_saved_view(registered: bool) -> (Option<RegistrationState>, Seq<(Seq<char>, bool, Markup)>) {
    if registered {
        (Some(RegistrationState::WaitingCity), seq![notice_view(Notice::PhoneSaved), notice_view(Notice::AskCityAgain)])
    } else {
        (None, seq![notice_view(Notice::UserNotFound)])
    }
}

/// The end of `handle_phone`.
pub fn phone_saved_step(registered: bool) -> (r: Step)
    ensures
        r@ == phone_saved_view(registered),
{
    if registered {
        step2(Some(RegistrationState::WaitingCity), notice(Notice::PhoneSaved), notice(Notice::AskCityAgain))
    } else {
        step1(None, notice(Notice::UserNotFound))
    }
}

/// What follows the choice of a city.
pub open spec fn city_chosen_view(city: Seq<char>) -> (Option<RegistrationState>, Seq<(Seq<char>, bool, Markup)>) {
    (Some(RegistrationState::WaitingDistrict), seq![("Город: "@ + city + " ✅\n\nВыберите район:"@, false, Markup::Districts)])
}

/// The choice of a city is confirmed and the district asked for (`handle_city`).
pub fn city_chosen_step(city: &str) -> (r: Step)
    ensures
        r@ == city_chosen_view(city@),
{
    let mut t = "Город: ".to_owned();
    t.append(city);
    t.append(" ✅\n\nВыберите район:");
    step1(Some(RegistrationState::WaitingDistrict), reply(t, false, Markup::Districts))
}

/// What follows the choice of a district.
pub open spec fn district_chosen_view(district: Seq<char>) -> (Option<RegistrationState>, Seq<(Seq<char>, bool, Markup)>) {
    (Some(RegistrationState::WaitingBudget), seq![("Район: "@ + district + " ✅\n\nВыберите максимальный бюджет:"@, false, Markup::Budgets)])
}

/// The choice of a district is confirmed and the budget asked for (`handle_district`).
pub fn district_chosen_step(district: &str) -> (r: Step)
    ensures
        r@ == district_chosen_view(district@),
{
    let mut t = "Район: ".to_owned();
    t.append(district);
    t.append(" ✅\n\nВыберите максимальный бюджет:");
    step1(Some(RegistrationState::WaitingBudget), reply(t, false, Markup::Budgets))
}

/// Why a handler stops with an error.
#[derive(Clone, Copy, Debug, PartialEq, Eq, Structural)]
pub enum BotError {
    /// A budget button sent something that is not an `i64`.
    InvalidBudget,
    /// A rooms button sent something that is not an `i32`.
    InvalidRooms,
    /// A button sent something that is not a property id.
    InvalidPropertyId,
}

/// The message of each handler error.
pub open spec fn bot_error_message(e: BotError) -> Seq<char> {
    match e {
        BotError::InvalidBudget => "Некорректный бюджет"@,
        BotError::InvalidRooms => "Некорректное количество комнат"@,
        BotError::InvalidPropertyId => "Некорректный ID объекта"@,
    }
}

impl BotError {
    /// The message logged for the error.
    pub fn message(&self) -> (r: &'static str)
        ensures
            r@ == bot_error_message(*self),
    {
        match self {
            BotError::InvalidBudget => "Некорректный бюджет",
            BotError::InvalidRooms => "Некорректное количество комнат",
            BotError::InvalidPropertyId => "Некорректный ID объекта",
        }
    }
}

/// What follows the choice of a budget.
pub open spec fn budget_chosen_view(budget: i64) -> (Option<RegistrationState>, Seq<(Seq<char>, bool, Markup)>) {
    (Some(RegistrationState::WaitingRooms), seq![("Бюджет до "@ + price_text(budget as int) + " ₽ ✅\n\nСколько комнат нужно?"@, false, Markup::Rooms)])
}

/// Reads the budget a button sent and asks for the number of rooms
/// (`handle_budget`); a value that is not an `i64` is an error.
pub fn budget_chosen_step(value: &str) -> (r: Result<(i64, Step), BotError>)
    ensures
        match r {
            Ok((b, s)) => i64_from_text(value@) == Some(b) && s@ == budget_chosen_view(b),
            Err(e) => i64_from_text(value@) is None && e == BotError::InvalidBudget,
        },
{
    let budget = match parse_i64(value) {
        Some(b) => b,
        None => return Err(BotError::InvalidBudget),
    };
    let mut t = "Бюджет до ".to_owned();
    let price = format_price(budget);
    t.append(price.as_str());
    t.append(" ₽ ✅\n\nСколько комнат нужно?");
    Ok((budget, step1(Some(RegistrationState::WaitingRooms), reply(t, false, Markup::Rooms))))
}

/// What follows the choice of a number of rooms.
pub open spec fn rooms_chosen_view() -> (Option<RegistrationState>, Seq<(Seq<char>, bool, Markup)>) {
    (Some(RegistrationState::WaitingAdditionalRequirements), seq![notice_view(Notice::AskRequirements)])
}

/// Reads the number of rooms a button sent and asks for additional
/// requirements (`handle_rooms`); a value that is not an `i32` is an error.
pub fn rooms_chosen_step(value: &str) -> (r: Result<(i32, Step), BotError>)
    ensures
        match r {
            Ok((n, s)) => i32_from_text(value@) == Some(n) && s@ == rooms_chosen_view(),
            Err(e) => i32_from_text(value@) is None && e == BotError::InvalidRooms,
        },
{
    let rooms = match parse_i32(value) {
        Some(n) => n,
        None => return Err(BotError::InvalidRooms),
    };
    Ok((rooms, step1(Some(RegistrationState::WaitingAdditionalRequirements), notice(Notice::AskRequirements))))
}

/// The additional requirements a message states: none when the trimmed text
/// is empty or is «нет» (up to the case of ASCII letters), else the trimmed
/// text.
pub open spec fn requirements_of(text: Seq<char>) -> Option<Seq<char>> {
    if ascii_case_eq(trimmed(text), "нет"@) || trimmed(text).len() == 0 {
        None
    } else {
        Some(trimmed(text))
    }
}

/// Only the whole answer «нет» declines: the requirements read from a message
/// are none exactly when its trimmed text is empty or is exactly «нет» (ASCII
/// case folding leaves Cyrillic letters alone); any other text, one that
/// merely begins with «нет» included, is kept whole, trimmed.
pub proof fn only_a_bare_no_declines(text: Seq<char>)
    ensures
        (requirements_of(text) is None) == (trimmed(text).len() == 0 || trimmed(text) == seq!['н', 'е', 'т']),
        requirements_of(text) is Some ==> requirements_of(text) == Some(trimmed(text)),
        trimmed(text).len() > 3 ==> requirements_of(text) == Some(trimmed(text)),
{
    reveal_strlit("нет");
    let t = trimmed(text);
    let no = "нет"@;
    assert(no =~= seq!['н', 'е', 'т']);
    if ascii_case_eq(t, no) {
        assert forall|i: int| 0 <= i < t.len() implies t[i] == no[i] by {
            assert(ascii_lower(t[i]) == ascii_lower(no[i]));
            assert(ascii_lower(no[i]) == no[i]);
        }
        assert(t =~= no);
    }
    if t == seq!['н', 'е', 'т'] {
        assert(ascii_case_eq(t, no));
    }
}

/// Reads the additional requirements from a message's text
/// (`handle_additional_requirements`).
pub fn requirements_from_text(text: &str) -> (r: Option<String>)
    ensures
        opt_text(r) == requirements_of(text@),
{
    let t = trim(text);
    if eq_ignore_ascii_case(t.as_str(), "нет") {
        None
    } else if t.as_str().is_empty() {
        None
    } else {
        Some(t)
    }
}

/// What follows the additional requirements: the dialogue is completed and the
/// search begins.
pub open spec fn requirements_view() -> (Option<RegistrationState>, Seq<(Seq<char>, bool, Markup)>) {
    (Some(RegistrationState::Completed), seq![notice_view(Notice::Searching)])
}

/// The dialogue is completed and the search announced.
pub fn requirements_step() -> (r: Step)
    ensures
        r@ == requirements_view(),
{
    step1(Some(RegistrationState::Completed), notice(Notice::Searching))
}

/// Reads a property id that a button sent; a text that is no id is an error.
pub fn read_property_id(value: &str) -> (r: Result<u128, BotError>)
    ensures
        match r {
            Ok(id) => uuid_from_text(value@) == Some(id),
            Err(e) => uuid_from_text(value@) is None && e == BotError::InvalidPropertyId,
        },
        forall|id: u128| value@ == hyphenated_text(id) ==> r == Ok::<u128, BotError>(id),
{
    match parse_uuid(value) {
        Some(id) => Ok(id),
        None => Err(BotError::InvalidPropertyId),
    }
}

/// The search a stored profile leads to, or the notice sent instead: none
/// when there is no profile, another when it lacks one of city, district,
/// budget and rooms (`search_and_show_first`).
pub fn search_request(profile: Option<&SearchPreferences>) -> (r: Result<SearchParams, Notice>)
    ensures
        match profile {
            None => r == Err::<SearchParams, Notice>(Notice::NoProfile),
            Some(p) => match search_of(p@) {
                None => r == Err::<SearchParams, Notice>(Notice::IncompleteProfile),
                Some(s) => r matches Ok(q) && q@ == s,
            },
        },
{
    match profile {
        None => Err(Notice::NoProfile),
        Some(p) => match search_params(p) {
            None => Err(Notice::IncompleteProfile),
            Some(q) => Ok(q),
        },
    }
}

/// Which of the search results to show first: the first one, or the notice
/// that nothing was found (`search_and_show_first`).
pub fn first_match(count: usize) -> (r: Result<usize, Reply>)
    ensures
        count == 0 ==> (r matches Err(a) && a@ == notice_view(Notice::NothingFound)),
        count > 0 ==> r == Ok::<usize, Reply>(0),
{
    if count == 0 {
        Err(notice(Notice::NothingFound))
    } else {
        Ok(0)
    }
}

/// The key under which a Telegram user is stored: the 64 bits of the user's
/// id read as a signed number (`id as i64`).
pub fn telegram_key(user_id: u64) -> (r: i64)
    ensures
        r as int == if user_id <= i64::MAX as u64 { user_id as int } else { user_id as int - 0x1_0000_0000_0000_0000 },
{
    if user_id <= i64::MAX as u64 {
        user_id as i64
    } else {
        let low: u64 = user_id - 0x8000_0000_0000_0000u64;
        (low as i64) - 0x4000_0000_0000_0000i64 - 0x4000_0000_0000_0000i64
    }
}

/// What a text message asks for, before the dialogue state is consulted.
#[derive(Clone, Copy, Debug, PartialEq, Eq, Structural)]
pub enum MenuChoice {
    Search,
    Favorites,
    Profile,
    Help,
    /// Not a menu entry: the message belongs to the dialogue.
    Dialogue,
}

/// The menu entry a message's text names. The help entry is recognised by the
/// text `ℹ️ Помощь`, with the emoji presentation selector after `ℹ`.
pub open spec fn menu_choice_of(text: Seq<char>) -> MenuChoice {
    if text == "🏠 Подобрать недвижимость"@ {
        MenuChoice::Search
    } else if text == "⭐ Избранное"@ {
        MenuChoice::Favorites
    } else if text == "👤 Профиль"@ {
        MenuChoice::Profile
    } else if text == "ℹ️ Помощь"@ {
        MenuChoice::Help
    } else {
        MenuChoice::Dialogue
    }
}

/// The menu entry a message's text names (`message_handler`); a message
/// without text is read as empty text.
pub fn menu_choice(text: &str) -> (r: MenuChoice)
    ensures
        r == menu_choice_of(text@),
{
    if str_eq(text, "🏠 Подобрать недвижимость") {
        MenuChoice::Search
    } else if str_eq(text, "⭐ Избранное") {
        MenuChoice::Favorites
    } else if str_eq(text, "👤 Профиль") {
        MenuChoice::Profile
    } else if str_eq(text, "ℹ️ Помощь") {
        MenuChoice::Help
    } else {
        MenuChoice::Dialogue
    }
}

/// The state the registration dialogue moves to once the question of a state
/// is answered: phone, city, district, budget, rooms, additional requirements,
/// then done.
pub open spec fn next_state(s: RegistrationState) -> RegistrationState {
    match s {
        RegistrationState::WaitingPhone => RegistrationState::WaitingCity,
        RegistrationState::WaitingCity => RegistrationState::WaitingDistrict,
        RegistrationState::WaitingDistrict => RegistrationState::WaitingBudget,
        RegistrationState::WaitingBudget => RegistrationState::WaitingRooms,
        RegistrationState::WaitingRooms => RegistrationState::WaitingAdditionalRequirements,
        RegistrationState::WaitingAdditionalRequirements => RegistrationState::Completed,
        _ => s,
    }
}

/// The keyboard with which the question of a state is asked.
pub open spec fn question_markup(s: RegistrationState) -> Markup {
    match s {
        RegistrationState::WaitingPhone => Markup::RequestPhone,
        RegistrationState::WaitingCity => Markup::Cities,
        RegistrationState::WaitingDistrict => Markup::Districts,
        RegistrationState::WaitingBudget => Markup::Budgets,
        RegistrationState::WaitingRooms => Markup::Rooms,
        _ => Markup::Keep,
    }
}

/// Each answer moves the registration dialogue one step along its fixed order
/// (phone, city, district, budget, rooms, additional requirements, done),
/// and the last message of the step asks the next question with that
/// question's keyboard. Whoever is sent into the dialogue (by `/start` or by a
/// search) is asked the question of the state set.
pub proof fn answers_follow_registration_order(city: Seq<char>, district: Seq<char>, budget: i64)
    ensures
        phone_saved_view(true).0 == Some(next_state(RegistrationState::WaitingPhone)),
        city_chosen_view(city).0 == Some(next_state(RegistrationState::WaitingCity)),
        district_chosen_view(district).0 == Some(next_state(RegistrationState::WaitingDistrict)),
        budget_chosen_view(budget).0 == Some(next_state(RegistrationState::WaitingBudget)),
        rooms_chosen_view().0 == Some(next_state(RegistrationState::WaitingRooms)),
        requirements_view().0 == Some(next_state(RegistrationState::WaitingAdditionalRequirements)),
        phone_saved_view(true).1.last().2 == question_markup(RegistrationState::WaitingCity),
        city_chosen_view(city).1.last().2 == question_markup(RegistrationState::WaitingDistrict),
        district_chosen_view(district).1.last().2 == question_markup(RegistrationState::WaitingBudget),
        budget_chosen_view(budget).1.last().2 == question_markup(RegistrationState::WaitingRooms),
        rooms_chosen_view().1.last().2 == question_markup(RegistrationState::WaitingAdditionalRequirements),
        start_view(false).1.last().2 == question_markup(start_view(false).0.unwrap()),
        search_start_view(true, false).1.last().2 == question_markup(search_start_view(true, false).0.unwrap()),
        search_start_view(true, true).1.last().2 == question_markup(search_start_view(true, true).0.unwrap()),
        phone_saved_view(true).0 == Some(RegistrationState::WaitingCity),
        city_chosen_view(city).0 == Some(RegistrationState::WaitingDistrict),
        district_chosen_view(district).0 == Some(RegistrationState::WaitingBudget),
        budget_chosen_view(budget).0 == Some(RegistrationState::WaitingRooms),
        rooms_chosen_view().0 == Some(RegistrationState::WaitingAdditionalRequirements),
        requirements_view().0 == Some(RegistrationState::Completed),
        phone_saved_view(true).1.last().2 == Markup::Cities,
        city_chosen_view(city).1.last().2 == Markup::Districts,
        district_chosen_view(district).1.last().2 == Markup::Budgets,
        budget_chosen_view(budget).1.last().2 == Markup::Rooms,
{
}

/// Three buttons of the main menu open their screens. The help button does
/// not: its label `ℹ Помощь` lacks the emoji presentation selector that the
/// message handler looks for, so pressing it reaches the dialogue instead.
pub proof fn main_menu_buttons_open_their_screens()
    ensures
        menu_choice_of(search_label()) == MenuChoice::Search,
        menu_choice_of(favorites_label()) == MenuChoice::Favorites,
        menu_choice_of(profile_label()) == MenuChoice::Profile,
{
    reveal_strlit("🏠 Подобрать недвижимость");
    reveal_strlit("⭐ Избранное");
    reveal_strlit("👤 Профиль");
    assert("🏠 Подобрать недвижимость"@.len() != "⭐ Избранное"@.len());
}

} // verus!

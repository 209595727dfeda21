//! The longer messages: property cards, the profile, the favourites header,
//! the help and the manager's notice of a viewing request. They are sent in
//! HTML mode, with every text that comes from users or listings escaped.

use vstd::prelude::*;
use crate::dialogue::{Markup, Reply, Notice, notice, notice_view};
use crate::html::{escape_html, escaped_html};
use crate::ids::{uuid_text, hyphenated_text};
use crate::models::{Property, User, UserProfile, opt_text};
use crate::numbers::{format_price, price_text, i64_to_text, int_decimal, u64_digits, nat_decimal};
use crate::text::string_from_chars;

verus! {

/// The card of a property found by a search. `area` is the floor area as
/// shown, with one decimal.
pub open spec fn property_card_text(p: Property, area: Seq<char>) -> Seq<char> {
    "🏠 <b>"@ + escaped_html(p.title@) + "</b>\n\n"@ + escaped_html(p.description@)
        + "\n\n📍 "@ + escaped_html(p.city@) + " — "@ + escaped_html(p.district@)
        + "\n💰 "@ + price_text(p.price as int) + " ₽\n🛏 Комнат: "@ + int_decimal(p.rooms as int)
        + "\n📐 Площадь: "@ + area + " м²"@
}

/// A message about a property, with the address of the photo to send it
/// under; none when it goes out as a plain message.
pub struct Card {
    pub reply: Reply,
    pub photo_url: Option<String>,
}

/// Whether `url::Url` parses a text as an absolute URL.
pub uninterp spec fn url_accepts(s: Seq<char>) -> bool;

/// Asks `url::Url::parse` (through `FromStr`) whether a photo address is a
/// valid absolute URL. The answer depends on the text alone and is named
/// `url_accepts`; the URL standard's grammar is not stated here.
#[verifier::external_body]
pub fn is_url(s: &str) -> (r: bool)
    ensures
        r == url_accepts(s@),
{
    match s.parse::<url::Url>() {
        Ok(_) => true,
        Err(_) => false,
    }
}

/// The photo a card goes out under: the listing's photo address when it is
/// a valid URL, else none, and the card is sent as a plain message.
pub open spec fn card_photo(photo_url: Option<String>) -> Option<Seq<char>> {
    match photo_url {
        Some(u) => if url_accepts(u@) { Some(u@) } else { None },
        None => None,
    }
}

fn photo_of(photo_url: &Option<String>) -> (r: Option<String>)
    ensures
        opt_text(r) == card_photo(*photo_url),
{
    match photo_url {
        Some(u) => if is_url(u.as_str()) { Some(u.clone()) } else { None },
        None => None,
    }
}

/// The card of a property found by a search, with its buttons
/// (`send_property_card`). The card goes out as the caption of the photo when
/// the listing's photo address is a valid URL, else as a plain message.
pub fn property_card(p: &Property, area: &str) -> (r: Card)
    ensures
        r.reply@ == (property_card_text(*p, area@), true, Markup::PropertyActions(p.id)),
        opt_text(r.photo_url) == card_photo(p.photo_url),
{
    let mut t = "🏠 <b>".to_owned();
    t.append(escape_html(p.title.as_str()).as_str());
    t.append("</b>\n\n");
    t.append(escape_html(p.description.as_str()).as_str());
    t.append("\n\n📍 ");
    t.append(escape_html(p.city.as_str()).as_str());
    t.append(" — ");
    t.append(escape_html(p.district.as_str()).as_str());
    t.append("\n💰 ");
    t.append(format_price(p.price).as_str());
    t.append(" ₽\n🛏 Комнат: ");
    t.append(i64_to_text(p.rooms as i64).as_str());
    t.append("\n📐 Площадь: ");
    t.append(area);
    t.append(" м²");
    let photo_url = photo_of(&p.photo_url);
    Card { reply: Reply { text: t, html: true, markup: Markup::PropertyActions(p.id) }, photo_url }
}

/// The card of a favourite.
pub open spec fn favorite_card_text(p: Property, area: Seq<char>) -> Seq<char> {
    "🏠 <b>"@ + escaped_html(p.title@) + "</b>\n\n📍 "@ + escaped_html(p.city@) + " — "@
        + escaped_html(p.district@) + "\n💰 "@ + price_text(p.price as int) + " ₽\n🛏 "@
        + int_decimal(p.rooms as int) + " комн.\n📐 "@ + area + " м²\n\n"@ + escaped_html(p.description@)
}

/// The card of a favourite, with its buttons (`show_favorites`).
pub fn favorite_card(p: &Property, area: &str) -> (r: Card)
    ensures
        r.reply@ == (favorite_card_text(*p, area@), true, Markup::FavoriteActions(p.id)),
        opt_text(r.photo_url) == card_photo(p.photo_url),
{
    let mut t = "🏠 <b>".to_owned();
    t.append(escape_html(p.title.as_str()).as_str());
    t.append("</b>\n\n📍 ");
    t.append(escape_html(p.city.as_str()).as_str());
    t.append(" — ");
    t.append(escape_html(p.district.as_str()).as_str());
    t.append("\n💰 ");
    t.append(format_price(p.price).as_str());
    t.append(" ₽\n🛏 ");
    t.append(i64_to_text(p.rooms as i64).as_str());
    t.append(" комн.\n📐 ");
    t.append(area);
    t.append(" м²\n\n");
    t.append(escape_html(p.description.as_str()).as_str());
    let photo_url = photo_of(&p.photo_url);
    Card { reply: Reply { text: t, html: true, markup: Markup::FavoriteActions(p.id) }, photo_url }
}

/// The header of the favourites: how many there are.
pub open spec fn favorites_header_text(count: nat) -> Seq<char> {
    "⭐ Избранное: "@ + nat_decimal(count) + " объектов"@
}

/// The header of the favourites (`show_favorites`).
pub fn favorites_header(count: usize) -> (r: Reply)
    ensures
        r@ == (favorites_header_text(count as nat), false, Markup::Keep),
{
    let mut t = "⭐ Избранное: ".to_owned();
    let digits = u64_digits(count as u64);
    t.append(string_from_chars(&digits, 0, digits.len()).as_str());
    t.append(" объектов");
    Reply { text: t, html: false, markup: Markup::Keep }
}

/// The messages that show a user's favourites (`show_favorites`), in order:
/// when there are none, the notice that the favourites are empty; else the
/// header with their number, then the card of each favourite in the order
/// given. Each favourite comes with its floor area as shown.
pub fn favorites_messages(items: &Vec<(Property, String)>) -> (r: Vec<Card>)
    ensures
        items@.len() == 0 ==> r@.len() == 1 && r@[0].reply@ == notice_view(Notice::NoFavorites)
            && r@[0].photo_url is None,
        items@.len() > 0 ==> r@.len() == items@.len() + 1
            && r@[0].reply@ == (favorites_header_text(items@.len() as nat), false, Markup::Keep)
            && r@[0].photo_url is None,
        forall|j: int| 1 <= j < r@.len() ==> {
            &&& (#[trigger] r@[j]).reply@ == (favorite_card_text(items@[j - 1].0, items@[j - 1].1@), true,
                Markup::FavoriteActions(items@[j - 1].0.id))
            &&& opt_text(r@[j].photo_url) == card_photo(items@[j - 1].0.photo_url)
        },
{
    let mut r: Vec<Card> = Vec::new();
    if items.len() == 0 {
        r.push(Card { reply: notice(Notice::NoFavorites), photo_url: None });
        return r;
    }
    r.push(Card { reply: favorites_header(items.len()), photo_url: None });
    let mut i: usize = 0;
    while i < items.len()
        invariant
            0 < items@.len(),
            i <= items@.len(),
            r@.len() == i + 1,
            r@[0].reply@ == (favorites_header_text(items@.len() as nat), false, Markup::Keep),
            r@[0].photo_url is None,
            forall|j: int| 1 <= j < r@.len() ==> {
                &&& (#[trigger] r@[j]).reply@ == (favorite_card_text(items@[j - 1].0, items@[j - 1].1@), true,
                    Markup::FavoriteActions(items@[j - 1].0.id))
                &&& opt_text(r@[j].photo_url) == card_photo(items@[j - 1].0.photo_url)
            },
        decreases items@.len() - i,
    {
        let card = favorite_card(&items[i].0, items[i].1.as_str());
        r.push(card);
        i = i + 1;
    }
    r
}

/// A text, or the stand-in shown when it is missing.
pub open spec fn or_text(o: Option<Seq<char>>, missing: Seq<char>) -> Seq<char> {
    match o {
        Some(s) => s,
        None => missing,
    }
}

/// The budget line of the profile.
pub open spec fn budget_line(b: Option<i64>) -> Seq<char> {
    match b {
        Some(v) => price_text(v as int) + " ₽"@,
        None => "не указан"@,
    }
}

/// The rooms line of the profile.
pub open spec fn rooms_line(n: Option<i32>) -> Seq<char> {
    match n {
        Some(v) => int_decimal(v as int),
        None => "не указано"@,
    }
}

/// The profile as shown to its user.
pub open spec fn profile_text(user: User, profile: Option<UserProfile>) -> Seq<char> {
    match profile {
        None => "Профиль ещё не создан."@,
        Some(p) => "👤 <b>Ваш профиль</b>\n\nИмя: "@ + escaped_html(user.first_name@)
            + "\nТелефон: "@ + escaped_html(or_text(opt_text(user.phone), "не указан"@))
            + "\nГород: "@ + escaped_html(or_text(p.preferences@.0, "не указан"@))
            + "\nРайон: "@ + escaped_html(or_text(p.preferences@.1, "не указан"@))
            + "\nБюджет: "@ + budget_line(p.preferences@.2)
            + "\nКомнат: "@ + rooms_line(p.preferences@.3)
            + "\nПожелания: "@ + escaped_html(or_text(p.preferences@.4, "нет"@)),
    }
}

fn or_str<'a>(o: &'a Option<String>, missing: &'a str) -> (r: &'a str)
    ensures
        r@ == or_text(opt_text(*o), missing@),
{
    match o {
        Some(s) => s.as_str(),
        None => missing,
    }
}

/// The profile with the main menu (`show_profile`).
pub fn profile_reply(user: &User, profile: &Option<UserProfile>) -> (r: Reply)
    ensures
        r@ == (profile_text(*user, *profile), true, Markup::MainMenu),
{
    match profile {
        None => Reply { text: "Профиль ещё не создан.".to_owned(), html: true, markup: Markup::MainMenu },
        Some(p) => {
            let prefs = &p.preferences;
            let mut t = "👤 <b>Ваш профиль</b>\n\nИмя: ".to_owned();
            t.append(escape_html(user.first_name.as_str()).as_str());
            t.append("\nТелефон: ");
            t.append(escape_html(or_str(&user.phone, "не указан")).as_str());
            t.append("\nГород: ");
            t.append(escape_html(or_str(&prefs.city, "не указан")).as_str());
            t.append("\nРайон: ");
            t.append(escape_html(or_str(&prefs.district, "не указан")).as_str());
            t.append("\nБюджет: ");
            match prefs.budget {
                Some(b) => {
                    t.append(format_price(b).as_str());
                    t.append(" ₽");
                },
                None => t.append("не указан"),
            }
            t.append("\nКомнат: ");
            match prefs.rooms {
                Some(n) => t.append(i64_to_text(n as i64).as_str()),
                None => t.append("не указано"),
            }
            t.append("\nПожелания: ");
            t.append(escape_html(or_str(&prefs.additional_requirements, "нет")).as_str());
            Reply { text: t, html: true, markup: Markup::MainMenu }
        },
    }
}

/// The manager's notice of a new viewing request.
pub open spec fn viewing_request_text(request_id: u128, user: User, property: Property) -> Seq<char> {
    "📋 <b>Новая заявка на просмотр</b>\n\n🆔 Заявка: <code>"@ + hyphenated_text(request_id)
        + "</code>\n👤 Клиент: "@ + escaped_html(user.first_name@)
        + "\n📱 Телефон: "@ + escaped_html(or_text(opt_text(user.phone), "не указан"@))
        + "\n🏠 Объект: "@ + escaped_html(property.title@)
        + "\n💰 Цена: "@ + price_text(property.price as int) + " ₽"@
}

/// The manager's notice of a new viewing request, in HTML
/// (`create_viewing_request`); it goes to the administrators' chat.
pub fn viewing_request_notice(request_id: u128, user: &User, property: &Property) -> (r: Reply)
    ensures
        r@ == (viewing_request_text(request_id, *user, *property), true, Markup::Keep),
{
    let mut t = "📋 <b>Новая заявка на просмотр</b>\n\n🆔 Заявка: <code>".to_owned();
    t.append(uuid_text(request_id).as_str());
    t.append("</code>\n👤 Клиент: ");
    t.append(escape_html(user.first_name.as_str()).as_str());
    t.append("\n📱 Телефон: ");
    t.append(escape_html(or_str(&user.phone, "не указан")).as_str());
    t.append("\n🏠 Объект: ");
    t.append(escape_html(property.title.as_str()).as_str());
    t.append("\n💰 Цена: ");
    t.append(format_price(property.price).as_str());
    t.append(" ₽");
    Reply { text: t, html: true, markup: Markup::Keep }
}

/// The opening of the manager's notice, up to the request id.
pub open spec fn notice_opening() -> Seq<char> {
    "📋 <b>Новая заявка на просмотр</b>\n\n🆔 Заявка: <code>"@
}

/// The manager's notice names the request: right after its opening stands
/// the hyphenated text of the request id passed in, closed by `</code>`. It
/// depends on the property only through its title and price, so two
/// properties with the same title and price give the same notice, whatever
/// their ids.
pub proof fn notice_names_the_request(request_id: u128, user: User, property: Property, other: Property)
    ensures
        viewing_request_text(request_id, user, property).subrange(0, notice_opening().len() as int)
            == notice_opening(),
        viewing_request_text(request_id, user, property).subrange(
            notice_opening().len() as int, notice_opening().len() + 36int) == hyphenated_text(request_id),
        viewing_request_text(request_id, user, property).subrange(
            notice_opening().len() + 36int, notice_opening().len() + 43int) == "</code>"@,
        other.title@ == property.title@ && other.price == property.price ==>
            viewing_request_text(request_id, user, other) == viewing_request_text(request_id, user, property),
{
    let o = notice_opening();
    let h = hyphenated_text(request_id);
    let c = "</code>"@;
    reveal_strlit("</code>");
    reveal_strlit("</code>\n👤 Клиент: ");
    let t = viewing_request_text(request_id, user, property);
    let rest = t.skip(o.len() + h.len() + 7int);
    assert(t =~= o + h + c + rest) by {
        assert("</code>\n👤 Клиент: "@ =~= c + "</code>\n👤 Клиент: "@.skip(7));
    }
    assert(t.subrange(0, o.len() as int) =~= o);
    assert(t.subrange(o.len() as int, o.len() + 36int) =~= h);
    assert(t.subrange(o.len() + 36int, o.len() + 43int) =~= c);
}

/// The help.
pub open spec fn help_text() -> Seq<char> {
    "\
ℹ️ <b>Помощь</b>

\
🏠 <b>Подобрать недвижимость</b> — запустит подбор объекта по вашим параметрам.

\
⭐ <b>Избранное</b> — сохранённые варианты.

\
👤 <b>Профиль</b> — ваши контактные данные и параметры поиска.

\
📅 <b>Записаться</b> — отправляет заявку менеджеру.

\
Команды:
/start — запуск бота
/search — поиск
/profile — профиль
/favorites — избранное
/help — помощь"@
}

/// The help, in HTML, with the main menu (`show_help`).
pub fn help_reply() -> (r: Reply)
    ensures
        r@ == (help_text(), true, Markup::MainMenu),
{
    let text = "\
ℹ️ <b>Помощь</b>

\
🏠 <b>Подобрать недвижимость</b> — запустит подбор объекта по вашим параметрам.

\
⭐ <b>Избранное</b> — сохранённые варианты.

\
👤 <b>Профиль</b> — ваши контактные данные и параметры поиска.

\
📅 <b>Записаться</b> — отправляет заявку менеджеру.

\
Команды:
/start — запуск бота
/search — поиск
/profile — профиль
/favorites — избранное
/help — помощь";
    Reply { text: text.to_owned(), html: true, markup: Markup::MainMenu }
}

} // verus!

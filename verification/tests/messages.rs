use real_estate_bot::admin::{
    created_reply, deleted_reply, listing_status, new_listing, new_property, property_update, property_values,
    status_updated_reply, updated_reply, validate_property, PropertyRequest,
};
use real_estate_bot::cards::{
    favorite_card, favorites_header, favorites_messages, help_reply, profile_reply, property_card, viewing_request_notice,
};
use real_estate_bot::dialogue::Markup;
use real_estate_bot::models::{Property, SearchPreferences, User, UserProfile};

fn property() -> Property {
    Property {
        id: 0x550e8400_e29b_41d4_a716_446655440000,
        title: "Дом <у моря>".to_string(),
        description: "Вид & пляж".to_string(),
        city: "Казань".to_string(),
        district: "Южный".to_string(),
        price: 7_500_000,
        rooms: 3,
        photo_url: Some("https://example.com/p.jpg".to_string()),
        is_active: true,
        created_at: 0,
    }
}

fn user(phone: Option<&str>) -> User {
    User {
        id: 1,
        telegram_id: 42,
        username: None,
        first_name: "Анна".to_string(),
        last_name: None,
        phone: phone.map(|p| p.to_string()),
        created_at: 0,
    }
}

#[test]
fn property_card_text() {
    let c = property_card(&property(), "54.5");
    assert_eq!(
        c.reply.text,
        "🏠 <b>Дом &lt;у моря&gt;</b>\n\nВид &amp; пляж\n\n📍 Казань — Южный\n💰 7 500 000 ₽\n🛏 Комнат: 3\n📐 Площадь: 54.5 м²"
    );
    assert!(c.reply.html);
    assert_eq!(c.reply.markup, Markup::PropertyActions(property().id));
    assert_eq!(c.photo_url, Some("https://example.com/p.jpg".to_string()));
    let mut p = property();
    p.photo_url = Some("photo.jpg".to_string());
    assert_eq!(property_card(&p, "1.0").photo_url, None);
    assert_eq!(favorite_card(&p, "1.0").photo_url, None);
}

#[test]
fn favorite_card_text() {
    let mut p = property();
    p.photo_url = None;
    let c = favorite_card(&p, "40.0");
    assert_eq!(
        c.reply.text,
        "🏠 <b>Дом &lt;у моря&gt;</b>\n\n📍 Казань — Южный\n💰 7 500 000 ₽\n🛏 3 комн.\n📐 40.0 м²\n\nВид &amp; пляж"
    );
    assert_eq!(c.reply.markup, Markup::FavoriteActions(p.id));
    assert_eq!(c.photo_url, None);
}

#[test]
fn favorites_header_counts() {
    assert_eq!(favorites_header(3).text, "⭐ Избранное: 3 объектов");
    assert_eq!(favorites_header(0).text, "⭐ Избранное: 0 объектов");
}

#[test]
fn profile_texts() {
    let empty = UserProfile { id: 2, user_id: 1, preferences: SearchPreferences::empty() };
    let r = profile_reply(&user(None), &Some(empty));
    assert_eq!(
        r.text,
        "👤 <b>Ваш профиль</b>\n\nИмя: Анна\nТелефон: не указан\nГород: не указан\nРайон: не указан\nБюджет: не указан\nКомнат: не указано\nПожелания: нет"
    );
    assert!(r.html);
    assert_eq!(r.markup, Markup::MainMenu);
    let full = UserProfile {
        id: 2,
        user_id: 1,
        preferences: SearchPreferences::empty()
            .with_city("Москва")
            .with_district("Северный")
            .with_budget(3_000_000)
            .with_rooms(1)
            .with_requirements(Some("<лифт>".to_string())),
    };
    let r = profile_reply(&user(Some("+79001234567")), &Some(full));
    assert_eq!(
        r.text,
        "👤 <b>Ваш профиль</b>\n\nИмя: Анна\nТелефон: +79001234567\nГород: Москва\nРайон: Северный\nБюджет: 3 000 000 ₽\nКомнат: 1\nПожелания: &lt;лифт&gt;"
    );
    assert_eq!(profile_reply(&user(None), &None).text, "Профиль ещё не создан.");
}

#[test]
fn manager_notice() {
    let r = viewing_request_notice(0x550e8400_e29b_41d4_a716_446655440000, &user(Some("+7")), &property());
    assert_eq!(
        r.text,
        "📋 <b>Новая заявка на просмотр</b>\n\n🆔 Заявка: <code>550e8400-e29b-41d4-a716-446655440000</code>\n👤 Клиент: Анна\n📱 Телефон: +7\n🏠 Объект: Дом &lt;у моря&gt;\n💰 Цена: 7 500 000 ₽"
    );
    assert!(r.html);
}

#[test]
fn help_text() {
    let r = help_reply();
    assert!(r.text.starts_with("ℹ️ <b>Помощь</b>\n\n🏠 <b>Подобрать недвижимость</b>"));
    assert!(r.text.ends_with("/help — помощь"));
    assert!(r.text.contains("выбранные") == false);
    assert_eq!(r.markup, Markup::MainMenu);
}

fn request() -> PropertyRequest {
    PropertyRequest {
        title: " Квартира ".to_string(),
        description: "Светлая".to_string(),
        city: "Москва\n".to_string(),
        district: "\tЦентральный".to_string(),
        price: 10,
        rooms: 2,
        area_at_most_zero: false,
        photo_url: None,
        is_active: None,
    }
}

#[test]
fn validation_messages_in_order() {
    assert_eq!(validate_property(&request()), Ok(()));
    let mut r = request();
    r.title = "  ".to_string();
    r.price = 0;
    assert_eq!(validate_property(&r), Err("Название объекта не может быть пустым".to_string()));
    let mut r = request();
    r.description = String::new();
    assert_eq!(validate_property(&r), Err("Описание объекта не может быть пустым".to_string()));
    let mut r = request();
    r.city = " ".to_string();
    assert_eq!(validate_property(&r), Err("Город не может быть пустым".to_string()));
    let mut r = request();
    r.district = "\n".to_string();
    assert_eq!(validate_property(&r), Err("Район не может быть пустым".to_string()));
    let mut r = request();
    r.price = -5;
    assert_eq!(validate_property(&r), Err("Цена должна быть больше нуля".to_string()));
    let mut r = request();
    r.rooms = 21;
    assert_eq!(validate_property(&r), Err("Количество комнат должно быть от 1 до 20".to_string()));
    r.rooms = 0;
    assert_eq!(validate_property(&r), Err("Количество комнат должно быть от 1 до 20".to_string()));
    let mut r = request();
    r.area_at_most_zero = true;
    assert_eq!(validate_property(&r), Err("Площадь должна быть больше нуля".to_string()));
}

#[test]
fn stored_values_are_trimmed() {
    let v = property_values(&request());
    assert_eq!(v.title, "Квартира");
    assert_eq!(v.city, "Москва");
    assert_eq!(v.district, "Центральный");
    assert!(v.is_active);
    let mut r = request();
    r.is_active = Some(false);
    assert!(!property_values(&r).is_active);
}

#[test]
fn new_property_from_request() {
    let p = match new_property(&request(), 77, 1_700_000_000_000_000) {
        Ok(p) => p,
        Err(_) => panic!("valid data is accepted"),
    };
    assert_eq!(p.title, "Квартира");
    assert_eq!(p.id, 77);
    assert_eq!(p.created_at, 1_700_000_000_000_000);
    let q = match new_listing(&request()) {
        Ok(q) => q,
        Err(_) => panic!("valid data is accepted"),
    };
    assert_eq!((q.id >> 76) & 0xf, 4);
    assert_eq!(q.district, "Центральный");
    let mut r = request();
    r.rooms = 30;
    assert!(new_listing(&r).is_err());
    match new_property(&r, 1, 0) {
        Err(a) => {
            assert_eq!(a.status, 400);
            assert!(a.is_error);
            assert_eq!(a.text, "Количество комнат должно быть от 1 до 20");
        }
        Ok(_) => panic!("invalid data is refused"),
    }
    assert!(property_update(&request()).is_ok());
}

#[test]
fn admin_replies() {
    let c = created_reply(7, true);
    assert_eq!((c.status, c.is_error, c.text.as_str(), c.id), (201, false, "Объект создан", Some(7)));
    let c = created_reply(7, false);
    assert_eq!((c.status, c.is_error, c.text.as_str(), c.id), (500, true, "Не удалось создать объект", None));
    let u = updated_reply(Some(0));
    assert_eq!((u.status, u.text.as_str()), (404, "Объект не найден"));
    let u = updated_reply(Some(1));
    assert_eq!((u.status, u.text.as_str()), (200, "Объект обновлен"));
    let u = updated_reply(None);
    assert_eq!((u.status, u.text.as_str()), (500, "Не удалось изменить объект"));
    let d = deleted_reply(Some(2));
    assert_eq!((d.status, d.text.as_str()), (200, "Объект удален"));
    let d = deleted_reply(None);
    assert_eq!((d.status, d.text.as_str()), (500, "Не удалось удалить объект"));
    assert_eq!(deleted_reply(Some(0)).status, 404);
    assert_eq!(status_updated_reply(true).text, "Статус заявки обновлен");
    assert_eq!(status_updated_reply(false).status, 500);
    assert_eq!(listing_status(true), 200);
    assert_eq!(listing_status(false), 500);
}

#[test]
fn favourites_message_sequence() {
    let none = favorites_messages(&vec![]);
    assert_eq!(none.len(), 1);
    assert_eq!(none[0].reply.text, "⭐ Избранное пока пустое.");
    assert_eq!(none[0].reply.markup, Markup::MainMenu);
    assert_eq!(none[0].photo_url, None);

    let mut second = property();
    second.id = 9;
    second.title = "Второй".to_string();
    let all = favorites_messages(&vec![(property(), "54.5".to_string()), (second, "30.0".to_string())]);
    assert_eq!(all.len(), 3);
    assert_eq!(all[0].reply.text, "⭐ Избранное: 2 объектов");
    assert_eq!(all[0].photo_url, None);
    assert_eq!(all[1].reply.markup, Markup::FavoriteActions(property().id));
    assert_eq!(all[1].photo_url, Some("https://example.com/p.jpg".to_string()));
    assert!(all[2].reply.text.starts_with("🏠 <b>Второй</b>"));
    assert_eq!(all[2].reply.markup, Markup::FavoriteActions(9));
}

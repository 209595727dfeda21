use real_estate_bot::dialogue::{
    budget_chosen_step, city_chosen_step, dialogue_action, district_chosen_step, menu_choice,
    notice, phone_saved_step, read_phone, requirements_from_text, requirements_step,
    rooms_chosen_step, search_start_step, start_step, BotError, DialogueAction, Markup, MenuChoice,
    Notice, Reply, Step,
};
use real_estate_bot::dialogue::{first_match, search_request, telegram_key};
use real_estate_bot::models::{RegistrationState, SearchPreferences};
use real_estate_bot::search::{next_property, search_params, NextProperty};

fn texts(s: &Step) -> Vec<(String, bool, Markup)> {
    s.replies.iter().map(|r: &Reply| (r.text.clone(), r.html, r.markup)).collect()
}

#[test]
fn start_asks_for_phone_or_shows_menu() {
    let s = start_step(false);
    assert_eq!(s.state, Some(RegistrationState::WaitingPhone));
    assert_eq!(texts(&s), vec![("Здравствуйте! 👋\n\nДля начала отправьте номер телефона.".to_string(), false, Markup::RequestPhone)]);
    let s = start_step(true);
    assert_eq!(s.state, Some(RegistrationState::Completed));
    assert_eq!(texts(&s)[0].2, Markup::MainMenu);
}

#[test]
fn search_start_paths() {
    let (s, needs_profile) = search_start_step(false, false);
    assert!(!needs_profile);
    assert_eq!(s.state, None);
    assert_eq!(texts(&s)[0].0, "Сначала выполните команду /start.");
    let (s, needs_profile) = search_start_step(true, false);
    assert!(!needs_profile);
    assert_eq!(s.state, Some(RegistrationState::WaitingPhone));
    assert_eq!(texts(&s)[0].2, Markup::RequestPhone);
    let (s, needs_profile) = search_start_step(true, true);
    assert!(needs_profile);
    assert_eq!(s.state, Some(RegistrationState::WaitingCity));
    assert_eq!(texts(&s), vec![("🏙 Выберите город:".to_string(), false, Markup::Cities)]);
}

#[test]
fn dialogue_messages_by_state() {
    assert!(matches!(dialogue_action(RegistrationState::WaitingPhone), DialogueAction::ReadPhone));
    assert!(matches!(dialogue_action(RegistrationState::WaitingAdditionalRequirements), DialogueAction::ReadRequirements));
    match dialogue_action(RegistrationState::Completed) {
        DialogueAction::Answer(r) => {
            assert_eq!(r.text, "Используйте кнопки меню или команды /search, /profile, /favorites.");
            assert_eq!(r.markup, Markup::MainMenu);
        }
        _ => panic!("expected an answer"),
    }
    for s in [RegistrationState::Start, RegistrationState::WaitingCity, RegistrationState::WaitingRooms] {
        match dialogue_action(s) {
            DialogueAction::Answer(r) => assert_eq!(r.text, "Пожалуйста, выберите вариант с помощью кнопок."),
            _ => panic!("expected an answer"),
        }
    }
}

#[test]
fn phone_is_read_from_contact_or_text() {
    assert_eq!(read_phone(Some("+7 900".to_string()), Some("x".to_string())).ok(), Some("+7 900".to_string()));
    assert_eq!(read_phone(None, Some("  89001234567 ".to_string())).ok(), Some("89001234567".to_string()));
    match read_phone(None, Some("   ".to_string())) {
        Err(r) => {
            assert_eq!(r.text, "Не удалось получить номер. Отправьте его через кнопку ниже.");
            assert_eq!(r.markup, Markup::RequestPhone);
        }
        Ok(_) => panic!("a blank message carries no phone"),
    }
    assert!(read_phone(None, None).is_err());
}

#[test]
fn phone_saved_then_city() {
    let s = phone_saved_step(true);
    assert_eq!(s.state, Some(RegistrationState::WaitingCity));
    assert_eq!(texts(&s), vec![
        ("Телефон сохранён ✅\n\nТеперь выберите город:".to_string(), false, Markup::RemoveKeyboard),
        ("🏙 Город:".to_string(), false, Markup::Cities),
    ]);
    let s = phone_saved_step(false);
    assert_eq!(s.state, None);
    assert_eq!(texts(&s)[0].0, "Пользователь не найден. Выполните /start.");
}

#[test]
fn registration_steps() {
    let s = city_chosen_step("Казань");
    assert_eq!(s.state, Some(RegistrationState::WaitingDistrict));
    assert_eq!(texts(&s), vec![("Город: Казань ✅\n\nВыберите район:".to_string(), false, Markup::Districts)]);
    let s = district_chosen_step("Южный");
    assert_eq!(s.state, Some(RegistrationState::WaitingBudget));
    assert_eq!(texts(&s)[0].0, "Район: Южный ✅\n\nВыберите максимальный бюджет:");
    let (b, s) = budget_chosen_step("5000000").ok().unwrap();
    assert_eq!(b, 5_000_000);
    assert_eq!(s.state, Some(RegistrationState::WaitingRooms));
    assert_eq!(texts(&s), vec![("Бюджет до 5 000 000 ₽ ✅\n\nСколько комнат нужно?".to_string(), false, Markup::Rooms)]);
    assert_eq!(budget_chosen_step("5 млн").err(), Some(BotError::InvalidBudget));
    let (n, s) = rooms_chosen_step("3").ok().unwrap();
    assert_eq!(n, 3);
    assert_eq!(s.state, Some(RegistrationState::WaitingAdditionalRequirements));
    assert_eq!(texts(&s)[0].0, "Есть дополнительные пожелания?\n\nНапишите их сообщением или отправьте «нет».");
    assert_eq!(rooms_chosen_step("5+").err(), Some(BotError::InvalidRooms));
    let s = requirements_step();
    assert_eq!(s.state, Some(RegistrationState::Completed));
    assert_eq!(texts(&s)[0].0, "Ищу подходящие варианты... 🔎");
}

#[test]
fn bot_error_messages() {
    assert_eq!(BotError::InvalidBudget.message(), "Некорректный бюджет");
    assert_eq!(BotError::InvalidRooms.message(), "Некорректное количество комнат");
    assert_eq!(BotError::InvalidPropertyId.message(), "Некорректный ID объекта");
}

#[test]
fn requirements_are_read_from_text() {
    assert_eq!(requirements_from_text("нет"), None);
    assert_eq!(requirements_from_text("  нет "), None);
    assert_eq!(requirements_from_text(""), None);
    assert_eq!(requirements_from_text("НЕТ"), Some("НЕТ".to_string()));
    assert_eq!(requirements_from_text(" Балкон, парковка "), Some("Балкон, парковка".to_string()));
}

#[test]
fn menu_entries() {
    assert_eq!(menu_choice("🏠 Подобрать недвижимость"), MenuChoice::Search);
    assert_eq!(menu_choice("⭐ Избранное"), MenuChoice::Favorites);
    assert_eq!(menu_choice("👤 Профиль"), MenuChoice::Profile);
    assert_eq!(menu_choice("ℹ️ Помощь"), MenuChoice::Help);
    // The main menu's help button reads "ℹ Помощь", without the selector.
    assert_eq!(menu_choice("ℹ Помощь"), MenuChoice::Dialogue);
    assert_eq!(menu_choice("Привет"), MenuChoice::Dialogue);
}

#[test]
fn fixed_notices() {
    assert_eq!(notice(Notice::NothingFound).text, "К сожалению, подходящих вариантов пока нет. 😔\n\nПопробуйте изменить параметры поиска.");
    assert_eq!(notice(Notice::NothingFound).markup, Markup::MainMenu);
    assert_eq!(notice(Notice::LastMatch).text, "Это последний подходящий вариант. 🏠");
    assert_eq!(notice(Notice::RequestSent).text, "✅ Заявка отправлена!\n\nМенеджер свяжется с вами для согласования просмотра.");
    assert!(!notice(Notice::FavoriteAdded).html);
}

#[test]
fn answered_dialogue_makes_a_search() {
    let p = SearchPreferences::empty();
    assert!(search_params(&p).is_none());
    let p = p.with_city("Москва").with_district("Центральный").with_budget(8_000_000);
    assert!(search_params(&p).is_none());
    let p = p.with_rooms(2).with_requirements(Some("лифт".to_string()));
    let s = search_params(&p).unwrap();
    assert_eq!((s.city.as_str(), s.district.as_str(), s.budget, s.rooms), ("Москва", "Центральный", 8_000_000, 2));
    assert_eq!(p.additional_requirements, Some("лифт".to_string()));
    let p = p.with_city("Казань");
    assert_eq!(p.district, Some("Центральный".to_string()));
    assert_eq!(p.city, Some("Казань".to_string()));
    assert_eq!(p.with_requirements(None).additional_requirements, None);
}

#[test]
fn next_property_walk() {
    let ids = vec![10u128, 20, 30];
    assert_eq!(next_property(&ids, 10), NextProperty::At(1));
    assert_eq!(next_property(&ids, 20), NextProperty::At(2));
    assert_eq!(next_property(&ids, 30), NextProperty::Last);
    assert_eq!(next_property(&ids, 40), NextProperty::NotListed);
    assert_eq!(next_property(&vec![], 1), NextProperty::NotListed);
    assert_eq!(next_property(&vec![5, 5, 6], 5), NextProperty::At(1));
}

#[test]
fn telegram_ids_are_stored_as_signed_bits() {
    assert_eq!(telegram_key(123_456_789), 123_456_789);
    assert_eq!(telegram_key(i64::MAX as u64), i64::MAX);
    assert_eq!(telegram_key(u64::MAX), -1);
    assert_eq!(telegram_key(1u64 << 63), i64::MIN);
}

#[test]
fn search_needs_a_complete_profile() {
    assert_eq!(search_request(None).err(), Some(Notice::NoProfile));
    let partial = SearchPreferences::empty().with_city("Москва");
    assert_eq!(search_request(Some(&partial)).err(), Some(Notice::IncompleteProfile));
    let full = partial.with_district("Южный").with_budget(1).with_rooms(4);
    let s = search_request(Some(&full)).ok().unwrap();
    assert_eq!((s.city.as_str(), s.rooms), ("Москва", 4));
    match first_match(0) {
        Err(r) => assert_eq!(r.text, notice(Notice::NothingFound).text),
        Ok(_) => panic!("nothing to show"),
    }
    assert_eq!(first_match(3).ok(), Some(0));
}

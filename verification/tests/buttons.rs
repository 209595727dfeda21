use real_estate_bot::callbacks::{callback_data, parse_callback, CallbackKind};
use real_estate_bot::dialogue::{read_property_id, BotError};
use real_estate_bot::ids::{new_random_id, parse_uuid, uuid_text};
use real_estate_bot::keyboards::{
    admin_menu, budget_keyboard, city_keyboard, district_keyboard, favorites_keyboard, main_menu,
    property_keyboard, request_phone, rooms_keyboard, InlineKeyboard,
};

fn parsed(data: &str) -> Option<(CallbackKind, String)> {
    parse_callback(data).map(|c| (c.kind, c.value))
}

fn layout(k: &InlineKeyboard) -> Vec<Vec<(String, String)>> {
    k.rows
        .iter()
        .map(|row| row.iter().map(|b| (b.label.clone(), b.data.clone())).collect())
        .collect()
}

#[test]
fn callback_prefixes_are_read() {
    assert_eq!(parsed("city:Москва"), Some((CallbackKind::City, "Москва".to_string())));
    assert_eq!(parsed("district:Южный"), Some((CallbackKind::District, "Южный".to_string())));
    assert_eq!(parsed("budget:5000000"), Some((CallbackKind::Budget, "5000000".to_string())));
    assert_eq!(parsed("rooms:5"), Some((CallbackKind::Rooms, "5".to_string())));
    assert_eq!(parsed("favorite:x"), Some((CallbackKind::AddFavorite, "x".to_string())));
    assert_eq!(parsed("favorite_remove:x"), Some((CallbackKind::RemoveFavorite, "x".to_string())));
    assert_eq!(parsed("view:x"), Some((CallbackKind::View, "x".to_string())));
    assert_eq!(parsed("next:x"), Some((CallbackKind::Next, "x".to_string())));
    assert_eq!(parsed("unknown:x"), None);
    assert_eq!(parsed("City:x"), None);
    assert_eq!(parsed(""), None);
}

#[test]
fn callback_data_reads_back() {
    let kinds = [
        CallbackKind::City,
        CallbackKind::District,
        CallbackKind::Budget,
        CallbackKind::Rooms,
        CallbackKind::AddFavorite,
        CallbackKind::RemoveFavorite,
        CallbackKind::View,
        CallbackKind::Next,
    ];
    for k in kinds {
        for v in ["", "abc", "remove:1", ":"] {
            assert_eq!(parsed(&callback_data(k, v)), Some((k, v.to_string())));
        }
    }
}

#[test]
fn uuid_text_is_hyphenated_lower_case() {
    let id: u128 = 0x550e8400_e29b_41d4_a716_446655440000;
    assert_eq!(uuid_text(id), "550e8400-e29b-41d4-a716-446655440000");
    assert_eq!(uuid_text(0), "00000000-0000-0000-0000-000000000000");
}

#[test]
fn uuid_text_reads_back() {
    for id in [0u128, 1, u128::MAX, 0x550e8400_e29b_41d4_a716_446655440000] {
        assert_eq!(parse_uuid(&uuid_text(id)), Some(id));
        assert_eq!(read_property_id(&uuid_text(id)), Ok(id));
    }
    assert_eq!(parse_uuid("550E8400E29B41D4A716446655440000"), Some(0x550e8400_e29b_41d4_a716_446655440000));
    assert_eq!(parse_uuid("not an id"), None);
    assert_eq!(read_property_id("12"), Err(BotError::InvalidPropertyId));
}

#[test]
fn random_ids_are_version_4() {
    for _ in 0..16 {
        let id = new_random_id();
        assert_eq!((id >> 76) & 0xf, 4);
        assert_eq!((id >> 62) & 0x3, 2);
    }
}

#[test]
fn city_keyboard_layout() {
    let rows = layout(&city_keyboard());
    assert_eq!(rows.len(), 3);
    assert_eq!(rows[0], vec![
        ("Москва".to_string(), "city:Москва".to_string()),
        ("Санкт-Петербург".to_string(), "city:Санкт-Петербург".to_string()),
    ]);
    assert_eq!(rows[2], vec![("Новосибирск".to_string(), "city:Новосибирск".to_string())]);
    for row in &rows {
        for (label, data) in row {
            assert_eq!(parsed(data), Some((CallbackKind::City, label.clone())));
        }
    }
}

#[test]
fn district_keyboard_layout() {
    let rows = layout(&district_keyboard());
    assert_eq!(rows.iter().map(|r| r.len()).collect::<Vec<_>>(), vec![1, 2, 2]);
    for row in &rows {
        for (label, data) in row {
            assert_eq!(parsed(data), Some((CallbackKind::District, label.clone())));
        }
    }
}

#[test]
fn budget_buttons_send_amounts() {
    let rows = layout(&budget_keyboard());
    let amounts: Vec<i64> = rows
        .iter()
        .map(|r| {
            let (kind, value) = parsed(&r[0].1).unwrap();
            assert_eq!(kind, CallbackKind::Budget);
            value.parse().unwrap()
        })
        .collect();
    assert_eq!(amounts, vec![3_000_000, 5_000_000, 8_000_000, 10_000_000, 999_999_999]);
    assert_eq!(rows[4][0].0, "Без ограничений");
}

#[test]
fn rooms_buttons_send_counts() {
    let rows = layout(&rooms_keyboard());
    let counts: Vec<(String, String)> = rows.into_iter().flatten().collect();
    assert_eq!(counts.len(), 5);
    assert_eq!(counts[4], ("5+".to_string(), "rooms:5".to_string()));
}

#[test]
fn property_and_favorite_buttons() {
    let id = "550e8400-e29b-41d4-a716-446655440000";
    let rows = layout(&property_keyboard(id));
    assert_eq!(rows, vec![
        vec![("⭐ В избранное".to_string(), format!("favorite:{id}"))],
        vec![("📅 Записаться на просмотр".to_string(), format!("view:{id}"))],
        vec![("➡ Следующий".to_string(), format!("next:{id}"))],
    ]);
    let rows = layout(&favorites_keyboard(id));
    assert_eq!(rows, vec![
        vec![("🗑 Удалить".to_string(), format!("favorite_remove:{id}"))],
        vec![("📅 Просмотр".to_string(), format!("view:{id}"))],
    ]);
    assert_eq!(parsed(&rows[0][0].1), Some((CallbackKind::RemoveFavorite, id.to_string())));
}

#[test]
fn reply_keyboards() {
    let m = main_menu();
    assert!(m.resize && !m.one_time);
    let labels: Vec<Vec<String>> = m.rows.iter().map(|r| r.iter().map(|b| b.label.clone()).collect()).collect();
    assert_eq!(labels, vec![
        vec!["🏠 Подобрать недвижимость".to_string()],
        vec!["⭐ Избранное".to_string(), "👤 Профиль".to_string()],
        vec!["ℹ Помощь".to_string()],
    ]);
    let p = request_phone();
    assert!(p.resize && p.one_time);
    assert_eq!(p.rows.len(), 1);
    assert!(p.rows[0][0].request_contact);
    assert_eq!(p.rows[0][0].label, "📱 Отправить номер телефона");
    let a = admin_menu();
    assert_eq!(a.rows[1][1].label, "📊 Статистика");
    assert!(!a.rows[0][0].request_contact);
}

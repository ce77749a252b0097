use max_express_bot::models::User;
use max_express_bot::pages::{menu_button, Field, Marketplace, MenuButton, Page};
use max_express_bot::render::{render, Config, Keyboard};

fn config() -> Config {
    Config {
        help_1688: "a".to_string(),
        help_pinduoduo: "b".to_string(),
        help_poizon: "c".to_string(),
        help_taobao: "d".to_string(),
    }
}

#[test]
fn home_page_lists_profile_and_menu() {
    let u = User {
        id: 1,
        first_name: "Anna".to_string(),
        last_name: "Li".to_string(),
        phone_number: "996123456789".to_string(),
        telegram_id: 5,
        client_code: "MX200".to_string(),
    };
    let out = render(&Page::Home(u), &config());
    assert_eq!(
        out.text,
        "Ваш профиль:\n\n📃 Клиентский код: MX200\n👤 Имя: Anna\n👤 Фамилия: Li\n📞 Номер тел: 996123456789\n"
    );
    assert_eq!(out.keyboard, Keyboard::Menu);
    let rows = out.keyboard.rows();
    let payloads: Vec<Vec<String>> =
        rows.iter().map(|r| r.iter().map(|b| b.payload.clone()).collect()).collect();
    assert_eq!(
        payloads,
        vec![
            vec!["locate_btn".to_string()],
            vec!["price_btn".to_string()],
            vec!["code_btn".to_string(), "address_btn".to_string()],
            vec!["service_btn".to_string(), "tutorial_btn".to_string()],
        ]
    );
    for row in rows {
        for b in row {
            assert!(menu_button(&b.payload).is_some());
        }
    }
}

#[test]
fn menu_payloads_read_back() {
    assert_eq!(menu_button(&"locate_btn".to_string()), Some(MenuButton::Locate));
    assert_eq!(menu_button(&"service_btn".to_string()), Some(MenuButton::Support));
    assert_eq!(menu_button(&"back_btn".to_string()), None);
}

#[test]
fn address_page_carries_client_code_twice() {
    let out = render(&Page::Address("MX9".to_string()), &config());
    assert_eq!(out.text.matches("MX9").count(), 2);
    assert!(out.text.starts_with("收件人：溴溴MX9\n"));
    assert_eq!(out.keyboard, Keyboard::Back);
}

#[test]
fn instructions_come_from_config() {
    let out = render(&Page::Instructions(Marketplace::Poizon), &config());
    assert_eq!(out.text, "Инструкция к Poizon:\nc");
    assert_eq!(out.keyboard, Keyboard::Account);
    assert_eq!(out.keyboard.rows()[0][0].payload, "back_btn");
}

#[test]
fn prompts_and_retries() {
    assert_eq!(render(&Page::Ask(Field::Width), &config()).text, "Введите ширину коробки с товаром (см)");
    assert_eq!(render(&Page::Retry(Field::FirstName), &config()).text, "Неверный формат.\nВведите имя еще раз.");
    assert_eq!(render(&Page::Retry(Field::TrackCode), &config()).keyboard, Keyboard::Back);
    assert_eq!(render(&Page::Welcome, &config()).keyboard.rows()[0][0].payload, "start_btn");
    assert!(render(&Page::Apology, &config()).keyboard.rows().is_empty());
}

#[test]
fn code_page_is_the_code() {
    assert_eq!(render(&Page::Code("MX201".to_string()), &config()).text, "MX201");
}

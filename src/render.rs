//! The text and the buttons of each page.
use vstd::prelude::*;
use crate::decimal::{decimal, digit_char, push_decimal};
use crate::models::User;
use crate::pages::{
    market_payload, market_payload_spec, menu_payload, menu_payload_spec, Field, Marketplace,
    MenuButton, Page,
};
use crate::price::{Estimate, Pricing};

verus! {

/// The instruction texts, one per marketplace, supplied at start-up.
pub struct Config {
    pub help_1688: String,
    pub help_pinduoduo: String,
    pub help_poizon: String,
    pub help_taobao: String,
}

/// The set of buttons under a message.
#[derive(Clone, Copy, Debug, PartialEq, Eq, Structural)]
pub enum Keyboard {
    NoButtons,
    /// Starts registration.
    Start,
    /// The destinations of the home page.
    Menu,
    /// Leads back to the home page.
    Back,
    /// Leads back to the account, after a result.
    Account,
    /// The marketplaces with instructions.
    Marketplaces,
}

/// A button: its label and the payload it sends back.
pub struct Button {
    pub label: String,
    pub payload: String,
}

/// A message ready to be sent or to replace another.
pub struct Outgoing {
    pub text: String,
    pub keyboard: Keyboard,
}

/// The payload of a button that leads back to the home page.
pub open spec fn back_payload() -> Seq<char> {
    "back_btn"@
}

/// The buttons of a keyboard, row by row, as (label, payload).
pub open spec fn layout(k: Keyboard) -> Seq<Seq<(Seq<char>, Seq<char>)>> {
    match k {
        Keyboard::NoButtons => seq![],
        Keyboard::Start => seq![seq![("Начать"@, "start_btn"@)]],
        Keyboard::Menu => seq![
            seq![("Отслеживание товара"@, menu_payload_spec(MenuButton::Locate))],
            seq![("Высчитывание цены"@, menu_payload_spec(MenuButton::Price))],
            seq![
                ("Код"@, menu_payload_spec(MenuButton::Code)),
                ("Адрес"@, menu_payload_spec(MenuButton::Address)),
            ],
            seq![
                ("Тех. поддержка"@, menu_payload_spec(MenuButton::Support)),
                ("Инструкция"@, menu_payload_spec(MenuButton::Tutorial)),
            ],
        ],
        Keyboard::Back => seq![seq![("Назад"@, back_payload())]],
        Keyboard::Account => seq![seq![("Вернуться в личный кабинет"@, back_payload())]],
        Keyboard::Marketplaces => seq![
            seq![
                ("1688"@, market_payload_spec(Marketplace::Alibaba1688)),
                ("Pinduoduo"@, market_payload_spec(Marketplace::Pinduoduo)),
            ],
            seq![
                ("Poizon"@, market_payload_spec(Marketplace::Poizon)),
                ("TaoBao"@, market_payload_spec(Marketplace::Taobao)),
            ],
        ],
    }
}

pub open spec fn row_view(row: Seq<Button>) -> Seq<(Seq<char>, Seq<char>)> {
    row.map_values(|b: Button| (b.label@, b.payload@))
}

/// The view of rows of buttons, as (label, payload).
pub open spec fn rows_view(rows: Seq<Vec<Button>>) -> Seq<Seq<(Seq<char>, Seq<char>)>> {
    rows.map_values(|row: Vec<Button>| row_view(row@))
}

fn button(label: &str, payload: &str) -> (r: Button)
    ensures
        r.label@ == label@,
        r.payload@ == payload@,
{
    Button { label: String::from_str(label), payload: String::from_str(payload) }
}

fn row1(a: Button) -> (r: Vec<Button>)
    ensures
        row_view(r@) == seq![(a.label@, a.payload@)],
{
    let mut r = Vec::new();
    let ghost va = (a.label@, a.payload@);
    r.push(a);
    assert(row_view(r@) =~= seq![va]);
    r
}

fn row2(a: Button, b: Button) -> (r: Vec<Button>)
    ensures
        row_view(r@) == seq![(a.label@, a.payload@), (b.label@, b.payload@)],
{
    let mut r = Vec::new();
    let ghost va = (a.label@, a.payload@);
    let ghost vb = (b.label@, b.payload@);
    r.push(a);
    r.push(b);
    assert(row_view(r@) =~= seq![va, vb]);
    r
}

impl Keyboard {
    /// The buttons, row by row.
    pub fn rows(&self) -> (r: Vec<Vec<Button>>)
        ensures
            rows_view(r@) == layout(*self),
    {
        let mut rows: Vec<Vec<Button>> = Vec::new();
        match self {
            Keyboard::NoButtons => {
                assert(rows_view(rows@) =~= layout(*self));
            },
            Keyboard::Start => {
                let a = row1(button("Начать", "start_btn"));
                let ghost va = row_view(a@);
                rows.push(a);
                assert(rows_view(rows@) =~= seq![va]);
            },
            Keyboard::Menu => {
                let a = row1(button("Отслеживание товара", menu_payload(MenuButton::Locate)));
                let b = row1(button("Высчитывание цены", menu_payload(MenuButton::Price)));
                let c = row2(
                    button("Код", menu_payload(MenuButton::Code)),
                    button("Адрес", menu_payload(MenuButton::Address)),
                );
                let d = row2(
                    button("Тех. поддержка", menu_payload(MenuButton::Support)),
                    button("Инструкция", menu_payload(MenuButton::Tutorial)),
                );
                let ghost (va, vb, vc, vd) = (row_view(a@), row_view(b@), row_view(c@), row_view(d@));
                rows.push(a);
                rows.push(b);
                rows.push(c);
                rows.push(d);
                assert(rows_view(rows@) =~= seq![va, vb, vc, vd]);
            },
            Keyboard::Back => {
                let a = row1(button("Назад", "back_btn"));
                let ghost va = row_view(a@);
                rows.push(a);
                assert(rows_view(rows@) =~= seq![va]);
            },
            Keyboard::Account => {
                let a = row1(button("Вернуться в личный кабинет", "back_btn"));
                let ghost va = row_view(a@);
                rows.push(a);
                assert(rows_view(rows@) =~= seq![va]);
            },
            Keyboard::Marketplaces => {
                let a = row2(
                    button("1688", market_payload(Marketplace::Alibaba1688)),
                    button("Pinduoduo", market_payload(Marketplace::Pinduoduo)),
                );
                let b = row2(
                    button("Poizon", market_payload(Marketplace::Poizon)),
                    button("TaoBao", market_payload(Marketplace::Taobao)),
                );
                let ghost (va, vb) = (row_view(a@), row_view(b@));
                rows.push(a);
                rows.push(b);
                assert(rows_view(rows@) =~= seq![va, vb]);
            },
        }
        rows
    }
}

pub open spec fn ask_text(f: Field) -> Seq<char> {
    match f {
        Field::FirstName => "Напишите Ваше имя."@,
        Field::LastName => "Напишите Вашу фамилию."@,
        Field::Phone => "Напишите Ваш номер телефона\nПример: 996XXXXXXXXX."@,
        Field::TrackCode => "Введите трек-код товара"@,
        Field::Width => "Введите ширину коробки с товаром (см)"@,
        Field::Length => "Введите длину коробки с товаром (см)"@,
        Field::Height => "Введите высоту коробки с товаром (см)"@,
        Field::Weight => "Введите вес коробки с товаром (кг)"@,
    }
}

pub open spec fn retry_text(f: Field) -> Seq<char> {
    match f {
        Field::FirstName => "Неверный формат.\nВведите имя еще раз."@,
        Field::LastName => "Неверный формат.\nВведите фамилию еще раз."@,
        Field::Phone => "Неверный формат.\nВведите номер телефона еще раз.\nПример: 996XXXXXXXXX"@,
        Field::TrackCode => "Неверный формат.\nВведите трек-код еще раз."@,
        Field::Width => "Неверный формат.\nВведите ширину еще раз."@,
        Field::Length => "Неверный формат.\nВведите длину еще раз."@,
        Field::Height => "Неверный формат.\nВведите высоту еще раз."@,
        Field::Weight => "Неверный формат.\nВведите вес еще раз."@,
    }
}

/// A density in tenths, written with one decimal: `13333` is `1333.3`.
pub open spec fn density_text(tenths: nat) -> Seq<char> {
    decimal(tenths / 10) + "."@ + seq![digit_char(tenths % 10)]
}

pub open spec fn price_text(e: Estimate) -> Seq<char> {
    "Плотность составляет: "@ + density_text(e.density_tenths as nat) + match e.pricing {
        Pricing::ByWeight => " кг/м3.\nЦена товара высчитывается по весу"@,
        Pricing::ByDensity => " кг/м3.\nЦена товара высчитывается по плотности"@,
    }
}

pub open spec fn home_text(u: User) -> Seq<char> {
    "Ваш профиль:\n\n📃 Клиентский код: "@ + u.client_code@ + "\n👤 Имя: "@ + u.first_name@
        + "\n👤 Фамилия: "@ + u.last_name@ + "\n📞 Номер тел: "@ + u.phone_number@ + "\n"@
}

pub open spec fn address_text(code: Seq<char>) -> Seq<char> {
    "收件人：溴溴"@ + code + "\n电话：18160860859\n地区：浙江省 金华市 义乌市 \n详细地址：江东街道东苑路45号一楼左侧 7号仓库(溴溴)"@
        + code + "\n"@
}

pub open spec fn instructions_text(m: Marketplace, cfg: Config) -> Seq<char> {
    match m {
        Marketplace::Alibaba1688 => "Инструкция к 1688:\n"@ + cfg.help_1688@,
        Marketplace::Pinduoduo => "Инструкция к Pinduoduo:\n"@ + cfg.help_pinduoduo@,
        Marketplace::Poizon => "Инструкция к Poizon:\n"@ + cfg.help_poizon@,
        Marketplace::Taobao => "Инструкция к TaoBao:\n"@ + cfg.help_taobao@,
    }
}

/// The text of a page.
pub open spec fn page_text(p: Page, cfg: Config) -> Seq<char> {
    match p {
        Page::Welcome => "Добро пожаловать в MaxExpress! 😊\n\nУ нас Вы можете:\n\n1) Отслеживать статус доставки 🚚\n2) Получить свой клиентский код 💼\n3) Узнать способы оплаты 💳 (по весу или по плотности)\n"@,
        Page::RegistrationStart => "Пройдите быструю и легкую регистрацию, чтобы получить свой клиентский код!\n\nНапишите Ваше имя."@,
        Page::Ask(f) => ask_text(f),
        Page::Retry(f) => retry_text(f),
        Page::Home(u) => home_text(u),
        Page::ParcelStatus(ready) => if ready {
            "Товар уже на складе, ждет сортировки"@
        } else {
            "Товара еще нет на складе"@
        },
        Page::Price(e) => price_text(e),
        Page::Code(code) => code@,
        Page::Address(code) => address_text(code@),
        Page::Support => "Контакты тех. поддержки:\n+996706518003\n"@,
        Page::TutorialPicker => "Выберите маркетплейс, инструкцию к которой вы бы хотели получить"@,
        Page::Instructions(m) => instructions_text(m, cfg),
        Page::UnknownAction => "Произошла ошибка"@,
        Page::Apology => "Не удалось выполнить запрос. Попробуйте еще раз."@,
    }
}

/// The buttons under a page.
pub open spec fn page_keyboard(p: Page) -> Keyboard {
    match p {
        Page::Welcome => Keyboard::Start,
        Page::Home(_) => Keyboard::Menu,
        Page::Retry(Field::TrackCode) => Keyboard::Back,
        Page::ParcelStatus(_) => Keyboard::Back,
        Page::Code(_) => Keyboard::Back,
        Page::Address(_) => Keyboard::Back,
        Page::Support => Keyboard::Back,
        Page::UnknownAction => Keyboard::Back,
        Page::Price(_) => Keyboard::Account,
        Page::Instructions(_) => Keyboard::Account,
        Page::TutorialPicker => Keyboard::Marketplaces,
        _ => Keyboard::NoButtons,
    }
}

fn ask_str(f: Field) -> (r: &'static str)
    ensures
        r@ == ask_text(f),
{
    match f {
        Field::FirstName => "Напишите Ваше имя.",
        Field::LastName => "Напишите Вашу фамилию.",
        Field::Phone => "Напишите Ваш номер телефона\nПример: 996XXXXXXXXX.",
        Field::TrackCode => "Введите трек-код товара",
        Field::Width => "Введите ширину коробки с товаром (см)",
        Field::Length => "Введите длину коробки с товаром (см)",
        Field::Height => "Введите высоту коробки с товаром (см)",
        Field::Weight => "Введите вес коробки с товаром (кг)",
    }
}

fn retry_str(f: Field) -> (r: &'static str)
    ensures
        r@ == retry_text(f),
{
    match f {
        Field::FirstName => "Неверный формат.\nВведите имя еще раз.",
        Field::LastName => "Неверный формат.\nВведите фамилию еще раз.",
        Field::Phone => "Неверный формат.\nВведите номер телефона еще раз.\nПример: 996XXXXXXXXX",
        Field::TrackCode => "Неверный формат.\nВведите трек-код еще раз.",
        Field::Width => "Неверный формат.\nВведите ширину еще раз.",
        Field::Length => "Неверный формат.\nВведите длину еще раз.",
        Field::Height => "Неверный формат.\nВведите высоту еще раз.",
        Field::Weight => "Неверный формат.\nВведите вес еще раз.",
    }
}

/// The message that states a price estimate.
pub fn price_message(e: &Estimate) -> (r: String)
    ensures
        r@ == price_text(*e),
{
    let mut text = String::from_str("Плотность составляет: ");
    push_decimal(&mut text, e.density_tenths / 10);
    text.append(".");
    push_decimal(&mut text, e.density_tenths % 10);
    proof {
        reveal_with_fuel(decimal, 1);
    }
    match e.pricing {
        Pricing::ByWeight => text.append(" кг/м3.\nЦена товара высчитывается по весу"),
        Pricing::ByDensity => text.append(" кг/м3.\nЦена товара высчитывается по плотности"),
    }
    text
}

fn home_message(u: &User) -> (r: String)
    ensures
        r@ == home_text(*u),
{
    let mut text = String::from_str("Ваш профиль:\n\n📃 Клиентский код: ");
    text.append(u.client_code.as_str());
    text.append("\n👤 Имя: ");
    text.append(u.first_name.as_str());
    text.append("\n👤 Фамилия: ");
    text.append(u.last_name.as_str());
    text.append("\n📞 Номер тел: ");
    text.append(u.phone_number.as_str());
    text.append("\n");
    text
}

fn address_message(code: &String) -> (r: String)
    ensures
        r@ == address_text(code@),
{
    let mut text = String::from_str("收件人：溴溴");
    text.append(code.as_str());
    text.append("\n电话：18160860859\n地区：浙江省 金华市 义乌市 \n详细地址：江东街道东苑路45号一楼左侧 7号仓库(溴溴)");
    text.append(code.as_str());
    text.append("\n");
    text
}

fn instructions_message(m: Marketplace, cfg: &Config) -> (r: String)
    ensures
        r@ == instructions_text(m, *cfg),
{
    match m {
        Marketplace::Alibaba1688 => String::from_str("Инструкция к 1688:\n").concat(cfg.help_1688.as_str()),
        Marketplace::Pinduoduo => String::from_str("Инструкция к Pinduoduo:\n").concat(
            cfg.help_pinduoduo.as_str(),
        ),
        Marketplace::Poizon => String::from_str("Инструкция к Poizon:\n").concat(cfg.help_poizon.as_str()),
        Marketplace::Taobao => String::from_str("Инструкция к TaoBao:\n").concat(cfg.help_taobao.as_str()),
    }
}

fn keyboard_of(p: &Page) -> (r: Keyboard)
    ensures
        r == page_keyboard(*p),
{
    match p {
        Page::Welcome => Keyboard::Start,
        Page::Home(_) => Keyboard::Menu,
        Page::Retry(Field::TrackCode) => Keyboard::Back,
        Page::ParcelStatus(_) => Keyboard::Back,
        Page::Code(_) => Keyboard::Back,
        Page::Address(_) => Keyboard::Back,
        Page::Support => Keyboard::Back,
        Page::UnknownAction => Keyboard::Back,
        Page::Price(_) => Keyboard::Account,
        Page::Instructions(_) => Keyboard::Account,
        Page::TutorialPicker => Keyboard::Marketplaces,
        _ => Keyboard::NoButtons,
    }
}

/// The message that shows a page.
pub fn render(p: &Page, cfg: &Config) -> (r: Outgoing)
    ensures
        r.text@ == page_text(*p, *cfg),
        r.keyboard == page_keyboard(*p),
{
    let text = match p {
        Page::Welcome => String::from_str(
            "Добро пожаловать в MaxExpress! 😊\n\nУ нас Вы можете:\n\n1) Отслеживать статус доставки 🚚\n2) Получить свой клиентский код 💼\n3) Узнать способы оплаты 💳 (по весу или по плотности)\n",
        ),
        Page::RegistrationStart => String::from_str(
            "Пройдите быструю и легкую регистрацию, чтобы получить свой клиентский код!\n\nНапишите Ваше имя.",
        ),
        Page::Ask(f) => String::from_str(ask_str(*f)),
        Page::Retry(f) => String::from_str(retry_str(*f)),
        Page::Home(u) => home_message(u),
        Page::ParcelStatus(ready) => {
            if *ready {
                String::from_str("Товар уже на складе, ждет сортировки")
            } else {
                String::from_str("Товара еще нет на складе")
            }
        },
        Page::Price(e) => price_message(e),
        Page::Code(code) => code.clone(),
        Page::Address(code) => address_message(code),
        Page::Support => String::from_str("Контакты тех. поддержки:\n+996706518003\n"),
        Page::TutorialPicker => String::from_str(
            "Выберите маркетплейс, инструкцию к которой вы бы хотели получить",
        ),
        Page::Instructions(m) => instructions_message(*m, cfg),
        Page::UnknownAction => String::from_str("Произошла ошибка"),
        Page::Apology => String::from_str("Не удалось выполнить запрос. Попробуйте еще раз."),
    };
    Outgoing { text, keyboard: keyboard_of(p) }
}

} // verus!

//! What the assistant shows: the pages of the conversation and the buttons
//! that lead between them.
use vstd::prelude::*;
use crate::models::User;
use crate::price::Estimate;

verus! {

/// An input that the conversation asks for, one per turn.
#[derive(Clone, Copy, Debug, PartialEq, Eq, Structural)]
pub enum Field {
    FirstName,
    LastName,
    Phone,
    TrackCode,
    Width,
    Length,
    Height,
    Weight,
}

/// A marketplace for which an instruction text is configured.
#[derive(Clone, Copy, Debug, PartialEq, Eq, Structural)]
pub enum Marketplace {
    Alibaba1688,
    Pinduoduo,
    Poizon,
    Taobao,
}

/// A destination offered on the home page.
#[derive(Clone, Copy, Debug, PartialEq, Eq, Structural)]
pub enum MenuButton {
    Locate,
    Price,
    Code,
    Address,
    Support,
    Tutorial,
}

/// One rendering of a message: what the conversation shows next.
pub enum Page {
    /// Greeting for a newcomer, with a button that starts registration.
    Welcome,
    /// The start of registration, asking for the first name.
    RegistrationStart,
    /// Asks for a field.
    Ask(Field),
    /// Says that the last input was malformed and asks for the field again.
    Retry(Field),
    /// The account page of a user, with the menu buttons.
    Home(User),
    /// Whether a parcel has reached the warehouse.
    ParcelStatus(bool),
    /// The outcome of a price estimate.
    Price(Estimate),
    /// The client code.
    Code(String),
    /// The warehouse address, marked with the client code.
    Address(String),
    /// The support contacts.
    Support,
    /// The choice of marketplace for instructions.
    TutorialPicker,
    /// The instructions for one marketplace.
    Instructions(Marketplace),
    /// A button that the home page does not offer was pressed.
    UnknownAction,
    /// An outside service failed; the user is asked to try again.
    Apology,
}

/// The payload that a home page button carries.
pub open spec fn menu_payload_spec(b: MenuButton) -> Seq<char> {
    match b {
        MenuButton::Locate => "locate_btn"@,
        MenuButton::Price => "price_btn"@,
        MenuButton::Code => "code_btn"@,
        MenuButton::Address => "address_btn"@,
        MenuButton::Support => "service_btn"@,
        MenuButton::Tutorial => "tutorial_btn"@,
    }
}

/// The home page button whose payload is `d`, if any.
pub open spec fn menu_button_spec(d: Seq<char>) -> Option<MenuButton> {
    if d == menu_payload_spec(MenuButton::Locate) {
        Some(MenuButton::Locate)
    } else if d == menu_payload_spec(MenuButton::Price) {
        Some(MenuButton::Price)
    } else if d == menu_payload_spec(MenuButton::Code) {
        Some(MenuButton::Code)
    } else if d == menu_payload_spec(MenuButton::Address) {
        Some(MenuButton::Address)
    } else if d == menu_payload_spec(MenuButton::Support) {
        Some(MenuButton::Support)
    } else if d == menu_payload_spec(MenuButton::Tutorial) {
        Some(MenuButton::Tutorial)
    } else {
        None
    }
}

/// The payload that a marketplace button carries.
pub open spec fn market_payload_spec(m: Marketplace) -> Seq<char> {
    match m {
        Marketplace::Alibaba1688 => "1688_btn"@,
        Marketplace::Pinduoduo => "pinduoduo_btn"@,
        Marketplace::Poizon => "poizon_btn"@,
        Marketplace::Taobao => "taobao_btn"@,
    }
}

/// The marketplace that a payload picks; an unknown one picks Taobao.
pub open spec fn marketplace_spec(d: Seq<char>) -> Marketplace {
    if d == market_payload_spec(Marketplace::Alibaba1688) {
        Marketplace::Alibaba1688
    } else if d == market_payload_spec(Marketplace::Pinduoduo) {
        Marketplace::Pinduoduo
    } else if d == market_payload_spec(Marketplace::Poizon) {
        Marketplace::Poizon
    } else {
        Marketplace::Taobao
    }
}

pub fn menu_payload(b: MenuButton) -> (r: &'static str)
    ensures
        r@ == menu_payload_spec(b),
{
    match b {
        MenuButton::Locate => "locate_btn",
        MenuButton::Price => "price_btn",
        MenuButton::Code => "code_btn",
        MenuButton::Address => "address_btn",
        MenuButton::Support => "service_btn",
        MenuButton::Tutorial => "tutorial_btn",
    }
}

pub fn market_payload(m: Marketplace) -> (r: &'static str)
    ensures
        r@ == market_payload_spec(m),
{
    match m {
        Marketplace::Alibaba1688 => "1688_btn",
        Marketplace::Pinduoduo => "pinduoduo_btn",
        Marketplace::Poizon => "poizon_btn",
        Marketplace::Taobao => "taobao_btn",
    }
}

fn same_text(d: &String, lit: &str) -> (r: bool)
    ensures
        r == (d@ == lit@),
{
    let other = String::from_str(lit);
    *d == other
}

/// Reads a home page button from a callback payload.
pub fn menu_button(d: &String) -> (r: Option<MenuButton>)
    ensures
        r == menu_button_spec(d@),
{
    if same_text(d, menu_payload(MenuButton::Locate)) {
        Some(MenuButton::Locate)
    } else if same_text(d, menu_payload(MenuButton::Price)) {
        Some(MenuButton::Price)
    } else if same_text(d, menu_payload(MenuButton::Code)) {
        Some(MenuButton::Code)
    } else if same_text(d, menu_payload(MenuButton::Address)) {
        Some(MenuButton::Address)
    } else if same_text(d, menu_payload(MenuButton::Support)) {
        Some(MenuButton::Support)
    } else if same_text(d, menu_payload(MenuButton::Tutorial)) {
        Some(MenuButton::Tutorial)
    } else {
        None
    }
}

/// Reads a marketplace from a callback payload.
pub fn marketplace(d: &String) -> (r: Marketplace)
    ensures
        r == marketplace_spec(d@),
{
    if same_text(d, market_payload(Marketplace::Alibaba1688)) {
        Marketplace::Alibaba1688
    } else if same_text(d, market_payload(Marketplace::Pinduoduo)) {
        Marketplace::Pinduoduo
    } else if same_text(d, market_payload(Marketplace::Poizon)) {
        Marketplace::Poizon
    } else {
        Marketplace::Taobao
    }
}

} // verus!

use max_express_bot::flow::{
    advance, Awaiting, Command, Input, Lookup, MenuState, RegState, Session, Step, TopState,
    TurnError,
};
use max_express_bot::models::User;
use max_express_bot::pages::{Field, Marketplace, Page};
use max_express_bot::price::{Measure, Pricing};
use max_express_bot::store::SessionStore;

const ME: i64 = 42;

fn text(t: &str) -> Input {
    Input::Text { sender: Some(ME), text: Some(t.to_string()) }
}

fn press(d: &str) -> Input {
    Input::Callback { sender: ME, data: Some(d.to_string()) }
}

fn start() -> Session {
    Session { top: TopState::Start, reg: RegState::Invited, menu: MenuState::Init, awaiting: Awaiting::Idle }
}

fn go(s: Session, i: Input) -> Step {
    match advance(s, i) {
        Ok(st) => st,
        Err(e) => panic!("turn aborted: {e:?}"),
    }
}

fn user(code: &str) -> User {
    User {
        id: 1,
        first_name: "Anna".to_string(),
        last_name: "Li".to_string(),
        phone_number: "996123456789".to_string(),
        telegram_id: ME,
        client_code: code.to_string(),
    }
}

fn in_menu(menu: MenuState) -> Session {
    Session { top: TopState::Menu, reg: RegState::Invited, menu, awaiting: Awaiting::Idle }
}

/// A newcomer, greeted and past the start button.
fn registering() -> Session {
    let st = go(start(), text("hi"));
    assert!(matches!(st.command, Command::CheckUser { user_id: ME }));
    let st = go(st.session, Input::UserExists(false));
    assert!(matches!(st.command, Command::Send(Page::Welcome)));
    let st = go(st.session, Input::Sent(5));
    let st = go(st.session, press("start_btn"));
    assert!(matches!(st.command, Command::Send(Page::RegistrationStart)));
    assert!(matches!(st.session.reg, RegState::AwaitingFirstName));
    st.session
}

#[test]
fn invalid_texts_keep_first_name_step() {
    let mut s = registering();
    for _ in 0..5 {
        let st = go(s, Input::Text { sender: Some(ME), text: None });
        assert!(matches!(st.command, Command::Send(Page::Retry(Field::FirstName))));
        let st = go(st.session, Input::Sent(9));
        s = st.session;
        assert!(matches!(s.reg, RegState::AwaitingFirstName));
        assert_eq!(s.top, TopState::Registering);
    }
}

#[test]
fn invalid_texts_keep_collected_fields() {
    let st = go(registering(), text("Anna"));
    let st = go(st.session, text("Li"));
    let mut s = st.session;
    for bad in [None, Some(String::new()), None] {
        let st = go(s, Input::Text { sender: Some(ME), text: bad });
        assert!(matches!(st.command, Command::Send(Page::Retry(Field::Phone))));
        s = st.session;
        match &s.reg {
            RegState::AwaitingPhone { first_name, last_name } => {
                assert_eq!(first_name, "Anna");
                assert_eq!(last_name, "Li");
            },
            _ => panic!("left the phone step"),
        }
    }
    let st = go(registering(), text("Anna"));
    let st = go(st.session, Input::Text { sender: Some(ME), text: Some(String::new()) });
    assert!(matches!(st.command, Command::Send(Page::Retry(Field::LastName))));
    assert!(matches!(&st.session.reg, RegState::AwaitingLastName { first_name } if first_name == "Anna"));
}

#[test]
fn registration_creates_user_once_and_enters_menu() {
    let st = go(registering(), text("Anna"));
    assert!(matches!(st.command, Command::Send(Page::Ask(Field::LastName))));
    let st = go(st.session, Input::Sent(10));
    let st = go(st.session, text("Li"));
    assert!(matches!(st.command, Command::Send(Page::Ask(Field::Phone))));
    let st = go(st.session, Input::Sent(11));
    let st = go(st.session, text("996123456789"));
    match &st.command {
        Command::CreateUser(n) => {
            assert_eq!(n.first_name, "Anna");
            assert_eq!(n.last_name, "Li");
            assert_eq!(n.phone_number, "996123456789");
            assert_eq!(n.telegram_id, ME);
        },
        _ => panic!("expected a create request"),
    }
    assert_eq!(st.session.top, TopState::Registering);
    let st = go(st.session, Input::UserCreated(user("MX200")));
    assert_eq!(st.session.top, TopState::Menu);
    assert!(matches!(st.session.reg, RegState::Invited));
    assert!(matches!(&st.command, Command::Send(Page::Home(u)) if u.client_code == "MX200"));
    let st = go(st.session, Input::Sent(77));
    assert_eq!(st.session.menu, MenuState::Home { message_id: 77 });
    assert!(matches!(st.command, Command::Nothing));
}

#[test]
fn failed_creation_apologises_and_keeps_phone_step() {
    let st = go(registering(), text("Anna"));
    let st = go(st.session, text("Li"));
    let st = go(st.session, text("996123456789"));
    let st = go(st.session, Input::Failed);
    assert!(matches!(st.command, Command::Send(Page::Apology)));
    assert!(matches!(st.session.reg, RegState::AwaitingPhone { .. }));
    assert_eq!(st.session.awaiting, Awaiting::Idle);
}

#[test]
fn returning_user_gets_home_page_sent_once_then_edited() {
    let st = go(start(), text("hello"));
    let st = go(st.session, Input::UserExists(true));
    assert!(matches!(st.command, Command::LoadUser { user_id: ME }));
    let st = go(st.session, Input::UserLoaded(user("MX201")));
    assert!(matches!(st.command, Command::Send(Page::Home(_))));
    let st = go(st.session, Input::Sent(300));
    assert_eq!(st.session.menu, MenuState::Home { message_id: 300 });
    let mut s = st.session;
    for d in ["service_btn", "back_btn", "code_btn", "back_btn", "tutorial_btn", "poizon_btn", "back_btn", "nonsense"] {
        let mut st = go(s, press(d));
        if let Command::LoadUser { .. } = st.command {
            st = go(st.session, Input::UserLoaded(user("MX201")));
        }
        assert!(matches!(st.command, Command::Edit { message_id: 300, .. }), "{d}");
        let st = go(st.session, Input::Edited);
        s = st.session;
    }
    assert_eq!(s.menu, MenuState::SubPage { message_id: 300 });
}

#[test]
fn unknown_payload_on_sub_page_returns_home_in_place() {
    let s = in_menu(MenuState::SubPage { message_id: 12 });
    let st = go(s, press("whatever"));
    assert!(matches!(st.command, Command::LoadUser { user_id: ME }));
    assert_eq!(st.session.awaiting, Awaiting::Record { purpose: Lookup::Home });
    let st = go(st.session, Input::UserLoaded(user("MX300")));
    assert!(matches!(st.command, Command::Edit { message_id: 12, page: Page::Home(_) }));
    assert_eq!(st.session.menu, MenuState::Home { message_id: 12 });
}

#[test]
fn unknown_payload_on_home_shows_error_page() {
    let st = go(in_menu(MenuState::Home { message_id: 3 }), press("bogus"));
    assert!(matches!(st.command, Command::Edit { message_id: 3, page: Page::UnknownAction }));
    assert_eq!(st.session.menu, MenuState::SubPage { message_id: 3 });
}

#[test]
fn code_and_address_pages_show_client_code() {
    let st = go(in_menu(MenuState::Home { message_id: 3 }), press("code_btn"));
    let st = go(st.session, Input::UserLoaded(user("MX555")));
    assert!(matches!(&st.command, Command::Edit { message_id: 3, page: Page::Code(c) } if c == "MX555"));
    let st = go(in_menu(MenuState::Home { message_id: 3 }), press("address_btn"));
    let st = go(st.session, Input::UserLoaded(user("MX556")));
    assert!(matches!(&st.command, Command::Edit { message_id: 3, page: Page::Address(c) } if c == "MX556"));
}

#[test]
fn tutorial_picker_selects_marketplace() {
    let st = go(in_menu(MenuState::Home { message_id: 8 }), press("tutorial_btn"));
    assert!(matches!(st.command, Command::Edit { message_id: 8, page: Page::TutorialPicker }));
    assert_eq!(st.session.menu, MenuState::Tutorials { message_id: 8 });
    for (d, m) in [
        ("1688_btn", Marketplace::Alibaba1688),
        ("pinduoduo_btn", Marketplace::Pinduoduo),
        ("poizon_btn", Marketplace::Poizon),
        ("taobao_btn", Marketplace::Taobao),
        ("other", Marketplace::Taobao),
    ] {
        let st = go(in_menu(MenuState::Tutorials { message_id: 8 }), press(d));
        match st.command {
            Command::Edit { message_id: 8, page: Page::Instructions(got) } => assert_eq!(got, m),
            _ => panic!("expected instructions"),
        }
        assert_eq!(st.session.menu, MenuState::SubPage { message_id: 8 });
    }
}

#[test]
fn parcel_lookup_returns_to_menu_message() {
    let st = go(in_menu(MenuState::Home { message_id: 4 }), press("locate_btn"));
    assert!(matches!(st.command, Command::Edit { message_id: 4, page: Page::Ask(Field::TrackCode) }));
    assert_eq!(st.session.top, TopState::AwaitingTrackingCode);
    let st = go(st.session, Input::Edited);
    let st = go(st.session, Input::Text { sender: Some(ME), text: None });
    assert!(matches!(st.command, Command::Send(Page::Retry(Field::TrackCode))));
    let st = go(st.session, Input::Sent(99));
    assert_eq!(st.session.menu, MenuState::SubPage { message_id: 4 });
    let st = go(st.session, text("YT123"));
    assert!(matches!(&st.command, Command::CheckParcel { track_code } if track_code == "YT123"));
    let st = go(st.session, Input::ParcelChecked(true));
    assert!(matches!(st.command, Command::Edit { message_id: 4, page: Page::ParcelStatus(true) }));
    assert_eq!(st.session.top, TopState::Menu);
}

#[test]
fn parcel_service_failure_apologises() {
    let s = Session { top: TopState::AwaitingTrackingCode, reg: RegState::Invited, menu: MenuState::SubPage { message_id: 4 }, awaiting: Awaiting::Idle };
    let st = go(s, text("YT1"));
    let st = go(st.session, Input::Failed);
    assert!(matches!(st.command, Command::Send(Page::Apology)));
    assert_eq!(st.session.top, TopState::AwaitingTrackingCode);
}

#[test]
fn price_flow_collects_four_values() {
    let st = go(in_menu(MenuState::Home { message_id: 6 }), press("price_btn"));
    assert!(matches!(st.command, Command::Edit { message_id: 6, page: Page::Ask(Field::Width) }));
    assert_eq!(st.session.top, TopState::PriceWidth);
    let st = go(st.session, text("wide"));
    assert!(matches!(st.command, Command::Send(Page::Retry(Field::Width))));
    let st = go(st.session, text("0"));
    assert!(matches!(st.command, Command::Send(Page::Retry(Field::Width))));
    let st = go(st.session, text("50"));
    assert!(matches!(st.command, Command::Send(Page::Ask(Field::Length))));
    let st = go(st.session, text("40"));
    let st = go(st.session, text("x"));
    assert!(matches!(st.command, Command::Send(Page::Retry(Field::Height))));
    assert_eq!(
        st.session.top,
        TopState::PriceHeight { width: Measure { milli: 50_000 }, length: Measure { milli: 40_000 } }
    );
    let st = go(st.session, text("30"));
    assert!(matches!(st.command, Command::Send(Page::Ask(Field::Weight))));
    let st = go(st.session, text("80"));
    match st.command {
        Command::Edit { message_id: 6, page: Page::Price(e) } => {
            assert_eq!(e.density_tenths, 13_333);
            assert_eq!(e.pricing, Pricing::ByWeight);
        },
        _ => panic!("expected the estimate in the menu message"),
    }
    assert_eq!(st.session.top, TopState::Menu);
    assert_eq!(st.session.menu, MenuState::SubPage { message_id: 6 });
}

#[test]
fn zero_weight_is_accepted() {
    let s = Session {
        top: TopState::PriceWeight { width: Measure { milli: 1000 }, length: Measure { milli: 1000 }, height: Measure { milli: 1000 } },
        reg: RegState::Invited,
        menu: MenuState::SubPage { message_id: 2 },
        awaiting: Awaiting::Idle,
    };
    let st = go(s, text("0"));
    match st.command {
        Command::Edit { page: Page::Price(e), .. } => assert_eq!(e.pricing, Pricing::ByDensity),
        _ => panic!("expected an estimate"),
    }
}

#[test]
fn broken_box_state_aborts_turn() {
    let s = Session {
        top: TopState::PriceWeight { width: Measure { milli: 0 }, length: Measure { milli: 1000 }, height: Measure { milli: 1000 } },
        reg: RegState::Invited,
        menu: MenuState::SubPage { message_id: 2 },
        awaiting: Awaiting::Idle,
    };
    assert!(matches!(advance(s, text("1")), Err(TurnError::Unexpected)));
}

#[test]
fn missing_sender_aborts_turn() {
    let r = advance(start(), Input::Text { sender: None, text: Some("hi".to_string()) });
    assert!(matches!(r, Err(TurnError::MissingSender)));
}

#[test]
fn outcome_without_request_aborts_turn() {
    assert!(matches!(advance(start(), Input::UserLoaded(user("X"))), Err(TurnError::Unexpected)));
    assert!(matches!(advance(start(), Input::ParcelChecked(true)), Err(TurnError::Unexpected)));
    let s = Session { awaiting: Awaiting::MenuMessage { home: true }, ..in_menu(MenuState::Home { message_id: 1 }) };
    assert!(matches!(advance(s, Input::Sent(2)), Err(TurnError::Unexpected)));
}

#[test]
fn conversations_do_not_see_each_other() {
    let mut store = SessionStore::new();
    let a: i64 = 1;
    let b: i64 = 2;
    let st = go(store.load(a), text("x"));
    let st = go(st.session, Input::UserExists(false));
    let st = go(st.session, press("start_btn"));
    let st = go(st.session, text("Anna"));
    store.save(a, st.session);
    let st = go(store.load(b), text("y"));
    let st = go(st.session, Input::UserExists(false));
    let st = go(st.session, press("start_btn"));
    let st = go(st.session, text("Bob"));
    store.save(b, st.session);
    assert!(matches!(store.get_registration(a), RegState::AwaitingLastName { first_name } if first_name == "Anna"));
    assert!(matches!(store.get_registration(b), RegState::AwaitingLastName { first_name } if first_name == "Bob"));
    assert_eq!(store.get_top(3), TopState::Start);
    store.clear_registration(a);
    assert!(matches!(store.get_registration(a), RegState::Invited));
    assert!(matches!(store.get_registration(b), RegState::AwaitingLastName { .. }));
    store.set_menu(b, MenuState::Home { message_id: 5 });
    assert_eq!(store.get_menu(b), MenuState::Home { message_id: 5 });
    assert_eq!(store.get_menu(a), MenuState::Init);
    store.clear_menu(b);
    store.set_top(a, TopState::Menu);
    store.clear_top(b);
    assert_eq!(store.get_top(a), TopState::Menu);
    assert_eq!(store.get_top(b), TopState::Start);
}

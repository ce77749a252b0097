//! The conversation state machine.
//!
//! A conversation holds one state per machine: the top-level flow, the
//! registration flow and the menu. Each input (a text message, a button
//! press, or the outcome of the last outside action) leads by `next` to new
//! states and to exactly one command for the caller to carry out; the
//! caller feeds the command's outcome back as the next input.
use vstd::prelude::*;
use crate::models::{NewUser, User};
use crate::pages::{
    marketplace, marketplace_spec, menu_button, menu_button_spec, Field, MenuButton, Page,
};
use crate::price::{estimate, estimate_spec, parse_measure_spec, Measure, MAX_MILLI};

verus! {

/// The outermost flow selector.
#[derive(Clone, Copy, Debug, PartialEq, Eq, Structural)]
pub enum TopState {
    Start,
    Registering,
    Menu,
    AwaitingTrackingCode,
    PriceWidth,
    PriceLength { width: Measure },
    PriceHeight { width: Measure, length: Measure },
    PriceWeight { width: Measure, length: Measure, height: Measure },
}

/// Registration, threading the fields collected so far.
pub enum RegState {
    /// The newcomer has been greeted and may start.
    Invited,
    AwaitingFirstName,
    AwaitingLastName { first_name: String },
    AwaitingPhone { first_name: String, last_name: String },
}

/// The menu, which owns one message that every page replaces in place.
#[derive(Clone, Copy, Debug, PartialEq, Eq, Structural)]
pub enum MenuState {
    /// No menu message has been sent yet.
    Init,
    /// The home page is shown.
    Home { message_id: i32 },
    /// Another page is shown; any button leads home.
    SubPage { message_id: i32 },
    /// The choice of marketplace is shown.
    Tutorials { message_id: i32 },
}

/// What a user record is being read for.
#[derive(Clone, Copy, Debug, PartialEq, Eq, Structural)]
pub enum Lookup {
    Home,
    Code,
    Address,
}

/// The outcome that the last command waits for, within one turn.
#[derive(Clone, Copy, Debug, PartialEq, Eq, Structural)]
pub enum Awaiting {
    Idle,
    UserCheck { user_id: i64 },
    Record { purpose: Lookup },
    Creation,
    Parcel,
    /// The first menu message; `home` tells which menu state it opens.
    MenuMessage { home: bool },
}

/// The states of one conversation.
pub struct Session {
    pub top: TopState,
    pub reg: RegState,
    pub menu: MenuState,
    pub awaiting: Awaiting,
}

/// What reaches the conversation.
pub enum Input {
    /// A message, which may lack a sender or a text.
    Text { sender: Option<i64>, text: Option<String> },
    /// A button press, with the button's payload if it has one.
    Callback { sender: i64, data: Option<String> },
    /// Whether a user record exists.
    UserExists(bool),
    /// A user record that was read.
    UserLoaded(User),
    /// The user record that was created.
    UserCreated(User),
    /// Whether the parcel has reached the warehouse.
    ParcelChecked(bool),
    /// A message was sent, under this identifier.
    Sent(i32),
    /// A message was edited.
    Edited,
    /// The last command could not be carried out.
    Failed,
}

/// The one outside action that a step asks for.
pub enum Command {
    Nothing,
    /// Send a new message.
    Send(Page),
    /// Replace the text and buttons of a message.
    Edit { message_id: i32, page: Page },
    /// Ask the repository whether a user exists.
    CheckUser { user_id: i64 },
    /// Read a user record.
    LoadUser { user_id: i64 },
    /// Create a user record.
    CreateUser(NewUser),
    /// Ask the status service about a parcel.
    CheckParcel { track_code: String },
}

/// Why a turn was aborted; the stored states then stay as they were.
#[derive(Clone, Copy, Debug, PartialEq, Eq, Structural)]
pub enum TurnError {
    /// The message named no sender, where the user's identity is needed.
    MissingSender,
    /// The input does not fit the state: the caller broke the protocol.
    Unexpected,
}

/// New states and the command to carry out.
pub struct Step {
    pub session: Session,
    pub command: Command,
}

/// The identifier of the menu message, once there is one.
pub open spec fn menu_id(m: MenuState) -> Option<i32> {
    match m {
        MenuState::Init => None,
        MenuState::Home { message_id } => Some(message_id),
        MenuState::SubPage { message_id } => Some(message_id),
        MenuState::Tutorials { message_id } => Some(message_id),
    }
}

/// A text that was entered: present and not empty.
pub open spec fn entered(text: Option<String>) -> Option<String> {
    match text {
        Some(t) => if t@.len() > 0 {
            Some(t)
        } else {
            None
        },
        None => None,
    }
}

/// A measurement that was entered; a dimension must be above zero.
pub open spec fn entered_measure(text: Option<String>, dimension: bool) -> Option<Measure> {
    match text {
        Some(t) => match parse_measure_spec(t@) {
            Some(v) => if !dimension || v > 0 {
                Some(Measure { milli: v as u64 })
            } else {
                None
            },
            None => None,
        },
        None => None,
    }
}

/// The three dimensions of a box can be used for an estimate.
pub open spec fn box_ok(width: Measure, length: Measure, height: Measure) -> bool {
    &&& width.wf() && length.wf() && height.wf()
    &&& width.milli > 0 && length.milli > 0 && height.milli > 0
}

pub open spec fn session(top: TopState, reg: RegState, menu: MenuState, awaiting: Awaiting) -> Session {
    Session { top, reg, menu, awaiting }
}

pub open spec fn step(session: Session, command: Command) -> Result<Step, TurnError> {
    Ok(Step { session, command })
}

/// Shows a page in the menu message: an edit once the message exists,
/// else a send whose identifier the next input brings. `home` tells whether
/// the page is the home page.
pub open spec fn present(top: TopState, reg: RegState, menu: MenuState, page: Page, home: bool) -> Step {
    match menu_id(menu) {
        Some(id) => Step {
            session: session(
                top,
                reg,
                if home {
                    MenuState::Home { message_id: id }
                } else {
                    MenuState::SubPage { message_id: id }
                },
                Awaiting::Idle,
            ),
            command: Command::Edit { message_id: id, page },
        },
        None => Step {
            session: session(top, reg, menu, Awaiting::MenuMessage { home }),
            command: Command::Send(page),
        },
    }
}

/// A failed outside call: apologise, and leave the states as they were.
pub open spec fn apology(s: Session) -> Result<Step, TurnError> {
    step(session(s.top, s.reg, s.menu, Awaiting::Idle), Command::Send(Page::Apology))
}

/// Opens the home page, reading the user's record first.
pub open spec fn go_home(s: Session, top: TopState, user_id: i64) -> Result<Step, TurnError> {
    step(
        session(top, s.reg, s.menu, Awaiting::Record { purpose: Lookup::Home }),
        Command::LoadUser { user_id },
    )
}

/// A text message, with nothing awaited.
pub open spec fn on_text(s: Session, sender: Option<i64>, text: Option<String>) -> Result<
    Step,
    TurnError,
> {
    match s.top {
        TopState::Start => match sender {
            None => Err(TurnError::MissingSender),
            Some(user_id) => step(
                session(s.top, s.reg, s.menu, Awaiting::UserCheck { user_id }),
                Command::CheckUser { user_id },
            ),
        },
        TopState::Registering => match s.reg {
            RegState::Invited => step(s, Command::Nothing),
            RegState::AwaitingFirstName => match entered(text) {
                Some(t) => step(
                    session(s.top, RegState::AwaitingLastName { first_name: t }, s.menu, s.awaiting),
                    Command::Send(Page::Ask(Field::LastName)),
                ),
                None => step(s, Command::Send(Page::Retry(Field::FirstName))),
            },
            RegState::AwaitingLastName { first_name } => match entered(text) {
                Some(t) => step(
                    session(
                        s.top,
                        RegState::AwaitingPhone { first_name, last_name: t },
                        s.menu,
                        s.awaiting,
                    ),
                    Command::Send(Page::Ask(Field::Phone)),
                ),
                None => step(s, Command::Send(Page::Retry(Field::LastName))),
            },
            RegState::AwaitingPhone { first_name, last_name } => match sender {
                None => Err(TurnError::MissingSender),
                Some(user_id) => match entered(text) {
                    Some(t) => step(
                        session(s.top, s.reg, s.menu, Awaiting::Creation),
                        Command::CreateUser(
                            NewUser {
                                first_name,
                                last_name,
                                phone_number: t,
                                telegram_id: user_id,
                            },
                        ),
                    ),
                    None => step(s, Command::Send(Page::Retry(Field::Phone))),
                },
            },
        },
        TopState::Menu => match s.menu {
            MenuState::Init => match sender {
                None => Err(TurnError::MissingSender),
                Some(user_id) => go_home(s, s.top, user_id),
            },
            _ => step(s, Command::Nothing),
        },
        TopState::AwaitingTrackingCode => match entered(text) {
            Some(t) => step(
                session(s.top, s.reg, s.menu, Awaiting::Parcel),
                Command::CheckParcel { track_code: t },
            ),
            None => step(s, Command::Send(Page::Retry(Field::TrackCode))),
        },
        TopState::PriceWidth => match entered_measure(text, true) {
            Some(m) => step(
                session(TopState::PriceLength { width: m }, s.reg, s.menu, s.awaiting),
                Command::Send(Page::Ask(Field::Length)),
            ),
            None => step(s, Command::Send(Page::Retry(Field::Width))),
        },
        TopState::PriceLength { width } => match entered_measure(text, true) {
            Some(m) => step(
                session(TopState::PriceHeight { width, length: m }, s.reg, s.menu, s.awaiting),
                Command::Send(Page::Ask(Field::Height)),
            ),
            None => step(s, Command::Send(Page::Retry(Field::Length))),
        },
        TopState::PriceHeight { width, length } => match entered_measure(text, true) {
            Some(m) => step(
                session(
                    TopState::PriceWeight { width, length, height: m },
                    s.reg,
                    s.menu,
                    s.awaiting,
                ),
                Command::Send(Page::Ask(Field::Weight)),
            ),
            None => step(s, Command::Send(Page::Retry(Field::Height))),
        },
        TopState::PriceWeight { width, length, height } => if !box_ok(width, length, height) {
            Err(TurnError::Unexpected)
        } else {
            match entered_measure(text, false) {
                Some(m) => Ok(
                    present(
                        TopState::Menu,
                        s.reg,
                        s.menu,
                        Page::Price(estimate_spec(width, length, height, m)),
                        false,
                    ),
                ),
                None => step(s, Command::Send(Page::Retry(Field::Weight))),
            }
        },
    }
}

/// A home page button.
pub open spec fn on_menu_button(s: Session, sender: i64, id: i32, b: MenuButton) -> Result<
    Step,
    TurnError,
> {
    match b {
        MenuButton::Locate => Ok(
            present(TopState::AwaitingTrackingCode, s.reg, s.menu, Page::Ask(Field::TrackCode), false),
        ),
        MenuButton::Price => Ok(
            present(TopState::PriceWidth, s.reg, s.menu, Page::Ask(Field::Width), false),
        ),
        MenuButton::Code => step(
            session(s.top, s.reg, s.menu, Awaiting::Record { purpose: Lookup::Code }),
            Command::LoadUser { user_id: sender },
        ),
        MenuButton::Address => step(
            session(s.top, s.reg, s.menu, Awaiting::Record { purpose: Lookup::Address }),
            Command::LoadUser { user_id: sender },
        ),
        MenuButton::Support => Ok(present(s.top, s.reg, s.menu, Page::Support, false)),
        MenuButton::Tutorial => step(
            session(s.top, s.reg, MenuState::Tutorials { message_id: id }, Awaiting::Idle),
            Command::Edit { message_id: id, page: Page::TutorialPicker },
        ),
    }
}

/// A button press, with nothing awaited.
pub open spec fn on_callback(s: Session, sender: i64, data: Option<String>) -> Result<
    Step,
    TurnError,
> {
    match s.top {
        TopState::Registering => match s.reg {
            RegState::Invited => step(
                session(s.top, RegState::AwaitingFirstName, s.menu, s.awaiting),
                Command::Send(Page::RegistrationStart),
            ),
            _ => step(s, Command::Nothing),
        },
        TopState::Menu => match s.menu {
            MenuState::Home { message_id } => match data {
                None => step(s, Command::Nothing),
                Some(d) => match menu_button_spec(d@) {
                    Some(b) => on_menu_button(s, sender, message_id, b),
                    None => Ok(present(s.top, s.reg, s.menu, Page::UnknownAction, false)),
                },
            },
            MenuState::Tutorials { message_id } => match data {
                None => step(s, Command::Nothing),
                Some(d) => step(
                    session(s.top, s.reg, MenuState::SubPage { message_id }, Awaiting::Idle),
                    Command::Edit { message_id, page: Page::Instructions(marketplace_spec(d@)) },
                ),
            },
            _ => go_home(s, s.top, sender),
        },
        TopState::AwaitingTrackingCode => go_home(s, TopState::Menu, sender),
        _ => step(s, Command::Nothing),
    }
}

/// The transition of a conversation on one input.
pub open spec fn next(s: Session, input: Input) -> Result<Step, TurnError> {
    match s.awaiting {
        Awaiting::Idle => match input {
            Input::Text { sender, text } => on_text(s, sender, text),
            Input::Callback { sender, data } => on_callback(s, sender, data),
            Input::Sent(_) => step(s, Command::Nothing),
            Input::Edited => step(s, Command::Nothing),
            Input::Failed => step(s, Command::Nothing),
            _ => Err(TurnError::Unexpected),
        },
        Awaiting::UserCheck { user_id } => match input {
            Input::UserExists(found) => if found {
                go_home(s, TopState::Menu, user_id)
            } else {
                step(
                    session(TopState::Registering, RegState::Invited, s.menu, Awaiting::Idle),
                    Command::Send(Page::Welcome),
                )
            },
            Input::Failed => apology(s),
            _ => Err(TurnError::Unexpected),
        },
        Awaiting::Record { purpose } => match input {
            Input::UserLoaded(user) => match purpose {
                Lookup::Home => Ok(present(s.top, s.reg, s.menu, Page::Home(user), true)),
                Lookup::Code => Ok(present(s.top, s.reg, s.menu, Page::Code(user.client_code), false)),
                Lookup::Address => Ok(
                    present(s.top, s.reg, s.menu, Page::Address(user.client_code), false),
                ),
            },
            Input::Failed => apology(s),
            _ => Err(TurnError::Unexpected),
        },
        Awaiting::Creation => match input {
            Input::UserCreated(user) => Ok(
                present(TopState::Menu, RegState::Invited, s.menu, Page::Home(user), true),
            ),
            Input::Failed => apology(s),
            _ => Err(TurnError::Unexpected),
        },
        Awaiting::Parcel => match input {
            Input::ParcelChecked(ready) => Ok(
                present(TopState::Menu, s.reg, s.menu, Page::ParcelStatus(ready), false),
            ),
            Input::Failed => apology(s),
            _ => Err(TurnError::Unexpected),
        },
        Awaiting::MenuMessage { home } => match input {
            Input::Sent(id) => match s.menu {
                MenuState::Init => step(
                    session(
                        s.top,
                        s.reg,
                        if home {
                            MenuState::Home { message_id: id }
                        } else {
                            MenuState::SubPage { message_id: id }
                        },
                        Awaiting::Idle,
                    ),
                    Command::Nothing,
                ),
                _ => Err(TurnError::Unexpected),
            },
            Input::Failed => step(session(s.top, s.reg, s.menu, Awaiting::Idle), Command::Nothing),
            _ => Err(TurnError::Unexpected),
        },
    }
}

fn take_entered(text: Option<String>) -> (r: Option<String>)
    ensures
        r == entered(text),
{
    match text {
        Some(t) => {
            if t.as_str().unicode_len() > 0 {
                Some(t)
            } else {
                None
            }
        },
        None => None,
    }
}

fn take_measure(text: Option<String>, dimension: bool) -> (r: Option<Measure>)
    ensures
        r == entered_measure(text, dimension),
        r matches Some(m) ==> m.wf() && (dimension ==> m.milli > 0),
{
    match text {
        Some(t) => match Measure::parse(t.as_str()) {
            Some(m) => {
                if !dimension || m.milli > 0 {
                    Some(m)
                } else {
                    None
                }
            },
            None => None,
        },
        None => None,
    }
}

fn present_page(top: TopState, reg: RegState, menu: MenuState, page: Page, home: bool) -> (r: Step)
    ensures
        r == present(top, reg, menu, page, home),
{
    match menu {
        MenuState::Init => Step {
            session: Session { top, reg, menu, awaiting: Awaiting::MenuMessage { home } },
            command: Command::Send(page),
        },
        MenuState::Home { message_id: id }
        | MenuState::SubPage { message_id: id }
        | MenuState::Tutorials { message_id: id } => Step {
            session: Session {
                top,
                reg,
                menu: if home {
                    MenuState::Home { message_id: id }
                } else {
                    MenuState::SubPage { message_id: id }
                },
                awaiting: Awaiting::Idle,
            },
            command: Command::Edit { message_id: id, page },
        },
    }
}

fn handle_text(s: Session, sender: Option<i64>, text: Option<String>) -> (r: Result<Step, TurnError>)
    ensures
        r == on_text(s, sender, text),
{
    let Session { top, reg, menu, awaiting } = s;
    match top {
        TopState::Start => match sender {
            None => Err(TurnError::MissingSender),
            Some(user_id) => Ok(
                Step {
                    session: Session { top, reg, menu, awaiting: Awaiting::UserCheck { user_id } },
                    command: Command::CheckUser { user_id },
                },
            ),
        },
        TopState::Registering => match reg {
            RegState::Invited => Ok(
                Step { session: Session { top, reg, menu, awaiting }, command: Command::Nothing },
            ),
            RegState::AwaitingFirstName => match take_entered(text) {
                Some(t) => Ok(
                    Step {
                        session: Session {
                            top,
                            reg: RegState::AwaitingLastName { first_name: t },
                            menu,
                            awaiting,
                        },
                        command: Command::Send(Page::Ask(Field::LastName)),
                    },
                ),
                None => Ok(
                    Step {
                        session: Session { top, reg, menu, awaiting },
                        command: Command::Send(Page::Retry(Field::FirstName)),
                    },
                ),
            },
            RegState::AwaitingLastName { first_name } => match take_entered(text) {
                Some(t) => Ok(
                    Step {
                        session: Session {
                            top,
                            reg: RegState::AwaitingPhone { first_name, last_name: t },
                            menu,
                            awaiting,
                        },
                        command: Command::Send(Page::Ask(Field::Phone)),
                    },
                ),
                None => Ok(
                    Step {
                        session: Session {
                            top,
                            reg: RegState::AwaitingLastName { first_name },
                            menu,
                            awaiting,
                        },
                        command: Command::Send(Page::Retry(Field::LastName)),
                    },
                ),
            },
            RegState::AwaitingPhone { first_name, last_name } => match sender {
                None => Err(TurnError::MissingSender),
                Some(user_id) => match take_entered(text) {
                    Some(t) => {
                        let reg = RegState::AwaitingPhone {
                            first_name: first_name.clone(),
                            last_name: last_name.clone(),
                        };
                        Ok(
                            Step {
                                session: Session { top, reg, menu, awaiting: Awaiting::Creation },
                                command: Command::CreateUser(
                                    NewUser {
                                        first_name,
                                        last_name,
                                        phone_number: t,
                                        telegram_id: user_id,
                                    },
                                ),
                            },
                        )
                    },
                    None => Ok(
                        Step {
                            session: Session {
                                top,
                                reg: RegState::AwaitingPhone { first_name, last_name },
                                menu,
                                awaiting,
                            },
                            command: Command::Send(Page::Retry(Field::Phone)),
                        },
                    ),
                },
            },
        },
        TopState::Menu => match menu {
            MenuState::Init => match sender {
                None => Err(TurnError::MissingSender),
                Some(user_id) => Ok(
                    Step {
                        session: Session {
                            top,
                            reg,
                            menu,
                            awaiting: Awaiting::Record { purpose: Lookup::Home },
                        },
                        command: Command::LoadUser { user_id },
                    },
                ),
            },
            _ => Ok(
                Step { session: Session { top, reg, menu, awaiting }, command: Command::Nothing },
            ),
        },
        TopState::AwaitingTrackingCode => match take_entered(text) {
            Some(t) => Ok(
                Step {
                    session: Session { top, reg, menu, awaiting: Awaiting::Parcel },
                    command: Command::CheckParcel { track_code: t },
                },
            ),
            None => Ok(
                Step {
                    session: Session { top, reg, menu, awaiting },
                    command: Command::Send(Page::Retry(Field::TrackCode)),
                },
            ),
        },
        TopState::PriceWidth => match take_measure(text, true) {
            Some(m) => Ok(
                Step {
                    session: Session { top: TopState::PriceLength { width: m }, reg, menu, awaiting },
                    command: Command::Send(Page::Ask(Field::Length)),
                },
            ),
            None => Ok(
                Step {
                    session: Session { top, reg, menu, awaiting },
                    command: Command::Send(Page::Retry(Field::Width)),
                },
            ),
        },
        TopState::PriceLength { width } => match take_measure(text, true) {
            Some(m) => Ok(
                Step {
                    session: Session {
                        top: TopState::PriceHeight { width, length: m },
                        reg,
                        menu,
                        awaiting,
                    },
                    command: Command::Send(Page::Ask(Field::Height)),
                },
            ),
            None => Ok(
                Step {
                    session: Session { top, reg, menu, awaiting },
                    command: Command::Send(Page::Retry(Field::Length)),
                },
            ),
        },
        TopState::PriceHeight { width, length } => match take_measure(text, true) {
            Some(m) => Ok(
                Step {
                    session: Session {
                        top: TopState::PriceWeight { width, length, height: m },
                        reg,
                        menu,
                        awaiting,
                    },
                    command: Command::Send(Page::Ask(Field::Weight)),
                },
            ),
            None => Ok(
                Step {
                    session: Session { top, reg, menu, awaiting },
                    command: Command::Send(Page::Retry(Field::Height)),
                },
            ),
        },
        TopState::PriceWeight { width, length, height } => {
            if width.milli > MAX_MILLI || length.milli > MAX_MILLI || height.milli > MAX_MILLI
                || width.milli == 0 || length.milli == 0 || height.milli == 0 {
                return Err(TurnError::Unexpected);
            }
            match take_measure(text, false) {
                Some(m) => {
                    let e = estimate(width, length, height, m);
                    Ok(present_page(TopState::Menu, reg, menu, Page::Price(e), false))
                },
                None => Ok(
                    Step {
                        session: Session { top, reg, menu, awaiting },
                        command: Command::Send(Page::Retry(Field::Weight)),
                    },
                ),
            }
        },
    }
}

fn handle_callback(s: Session, sender: i64, data: Option<String>) -> (r: Result<Step, TurnError>)
    ensures
        r == on_callback(s, sender, data),
{
    let Session { top, reg, menu, awaiting } = s;
    match top {
        TopState::Registering => match reg {
            RegState::Invited => Ok(
                Step {
                    session: Session { top, reg: RegState::AwaitingFirstName, menu, awaiting },
                    command: Command::Send(Page::RegistrationStart),
                },
            ),
            _ => Ok(
                Step { session: Session { top, reg, menu, awaiting }, command: Command::Nothing },
            ),
        },
        TopState::Menu => match menu {
            MenuState::Home { message_id } => match data {
                None => Ok(
                    Step {
                        session: Session { top, reg, menu, awaiting },
                        command: Command::Nothing,
                    },
                ),
                Some(d) => match menu_button(&d) {
                    Some(b) => Ok(handle_menu_button(top, reg, menu, sender, message_id, b)),
                    None => Ok(present_page(top, reg, menu, Page::UnknownAction, false)),
                },
            },
            MenuState::Tutorials { message_id } => match data {
                None => Ok(
                    Step {
                        session: Session { top, reg, menu, awaiting },
                        command: Command::Nothing,
                    },
                ),
                Some(d) => Ok(
                    Step {
                        session: Session {
                            top,
                            reg,
                            menu: MenuState::SubPage { message_id },
                            awaiting: Awaiting::Idle,
                        },
                        command: Command::Edit {
                            message_id,
                            page: Page::Instructions(marketplace(&d)),
                        },
                    },
                ),
            },
            _ => Ok(
                Step {
                    session: Session {
                        top,
                        reg,
                        menu,
                        awaiting: Awaiting::Record { purpose: Lookup::Home },
                    },
                    command: Command::LoadUser { user_id: sender },
                },
            ),
        },
        TopState::AwaitingTrackingCode => Ok(
            Step {
                session: Session {
                    top: TopState::Menu,
                    reg,
                    menu,
                    awaiting: Awaiting::Record { purpose: Lookup::Home },
                },
                command: Command::LoadUser { user_id: sender },
            },
        ),
        _ => Ok(Step { session: Session { top, reg, menu, awaiting }, command: Command::Nothing }),
    }
}

fn handle_menu_button(
    top: TopState,
    reg: RegState,
    menu: MenuState,
    sender: i64,
    id: i32,
    b: MenuButton,
) -> (r: Step)
    ensures
        Ok::<Step, TurnError>(r) == on_menu_button(
            session(top, reg, menu, Awaiting::Idle),
            sender,
            id,
            b,
        ),
{
    match b {
        MenuButton::Locate => present_page(
            TopState::AwaitingTrackingCode,
            reg,
            menu,
            Page::Ask(Field::TrackCode),
            false,
        ),
        MenuButton::Price => present_page(TopState::PriceWidth, reg, menu, Page::Ask(Field::Width), false),
        MenuButton::Code => Step {
            session: Session { top, reg, menu, awaiting: Awaiting::Record { purpose: Lookup::Code } },
            command: Command::LoadUser { user_id: sender },
        },
        MenuButton::Address => Step {
            session: Session {
                top,
                reg,
                menu,
                awaiting: Awaiting::Record { purpose: Lookup::Address },
            },
            command: Command::LoadUser { user_id: sender },
        },
        MenuButton::Support => present_page(top, reg, menu, Page::Support, false),
        MenuButton::Tutorial => Step {
            session: Session {
                top,
                reg,
                menu: MenuState::Tutorials { message_id: id },
                awaiting: Awaiting::Idle,
            },
            command: Command::Edit { message_id: id, page: Page::TutorialPicker },
        },
    }
}

/// Advances a conversation by one input, as `next` describes.
pub fn advance(s: Session, input: Input) -> (r: Result<Step, TurnError>)
    ensures
        r == next(s, input),
{
    let awaiting = s.awaiting;
    match awaiting {
        Awaiting::Idle => match input {
            Input::Text { sender, text } => handle_text(s, sender, text),
            Input::Callback { sender, data } => handle_callback(s, sender, data),
            Input::Sent(_) | Input::Edited | Input::Failed => Ok(
                Step { session: s, command: Command::Nothing },
            ),
            _ => Err(TurnError::Unexpected),
        },
        Awaiting::UserCheck { user_id } => match input {
            Input::UserExists(found) => {
                let Session { top, reg, menu, awaiting } = s;
                if found {
                    Ok(
                        Step {
                            session: Session {
                                top: TopState::Menu,
                                reg,
                                menu,
                                awaiting: Awaiting::Record { purpose: Lookup::Home },
                            },
                            command: Command::LoadUser { user_id },
                        },
                    )
                } else {
                    Ok(
                        Step {
                            session: Session {
                                top: TopState::Registering,
                                reg: RegState::Invited,
                                menu,
                                awaiting: Awaiting::Idle,
                            },
                            command: Command::Send(Page::Welcome),
                        },
                    )
                }
            },
            Input::Failed => Ok(apologise(s)),
            _ => Err(TurnError::Unexpected),
        },
        Awaiting::Record { purpose } => match input {
            Input::UserLoaded(user) => {
                let Session { top, reg, menu, awaiting } = s;
                match purpose {
                    Lookup::Home => Ok(present_page(top, reg, menu, Page::Home(user), true)),
                    Lookup::Code => Ok(present_page(top, reg, menu, Page::Code(user.client_code), false)),
                    Lookup::Address => Ok(
                        present_page(top, reg, menu, Page::Address(user.client_code), false),
                    ),
                }
            },
            Input::Failed => Ok(apologise(s)),
            _ => Err(TurnError::Unexpected),
        },
        Awaiting::Creation => match input {
            Input::UserCreated(user) => Ok(
                present_page(TopState::Menu, RegState::Invited, s.menu, Page::Home(user), true),
            ),
            Input::Failed => Ok(apologise(s)),
            _ => Err(TurnError::Unexpected),
        },
        Awaiting::Parcel => match input {
            Input::ParcelChecked(ready) => {
                let Session { top, reg, menu, awaiting } = s;
                Ok(present_page(TopState::Menu, reg, menu, Page::ParcelStatus(ready), false))
            },
            Input::Failed => Ok(apologise(s)),
            _ => Err(TurnError::Unexpected),
        },
        Awaiting::MenuMessage { home } => match input {
            Input::Sent(id) => {
                let Session { top, reg, menu, awaiting } = s;
                match menu {
                    MenuState::Init => {
                        let menu = if home {
                            MenuState::Home { message_id: id }
                        } else {
                            MenuState::SubPage { message_id: id }
                        };
                        Ok(
                            Step {
                                session: Session { top, reg, menu, awaiting: Awaiting::Idle },
                                command: Command::Nothing,
                            },
                        )
                    },
                    _ => Err(TurnError::Unexpected),
                }
            },
            Input::Failed => {
                let Session { top, reg, menu, awaiting } = s;
                Ok(
                    Step {
                        session: Session { top, reg, menu, awaiting: Awaiting::Idle },
                        command: Command::Nothing,
                    },
                )
            },
            _ => Err(TurnError::Unexpected),
        },
    }
}

fn apologise(s: Session) -> (r: Step)
    ensures
        Ok::<Step, TurnError>(r) == apology(s),
{
    let Session { top, reg, menu, awaiting } = s;
    Step {
        session: Session { top, reg, menu, awaiting: Awaiting::Idle },
        command: Command::Send(Page::Apology),
    }
}

} // verus!

//! Properties of the conversation that hold for every input.
use vstd::prelude::*;
use crate::flow::{
    entered, menu_id, next, session, Awaiting, Command, Input, Lookup, MenuState, RegState, Session,
    TopState,
};
use crate::models::{NewUser, User};
use crate::pages::Page;
use crate::price::{estimate_spec, volume_spec, Measure, Pricing};
use crate::store::{ConversationId, StoreModel};

verus! {

/// The states after a sequence of inputs, one turn step at a time; a step
/// that aborts leaves the states as they were.
pub open spec fn replay(s: Session, inputs: Seq<Input>) -> Session
    decreases inputs.len(),
{
    if inputs.len() == 0 {
        s
    } else {
        match next(s, inputs[0]) {
            Ok(st) => replay(st.session, inputs.drop_first()),
            Err(_) => replay(s, inputs.drop_first()),
        }
    }
}

/// A text without usable content, or the outcome of delivering a message.
pub open spec fn rejected_or_delivery(i: Input) -> bool {
    ||| i matches Input::Text { text, .. } && entered(text) is None
    ||| i is Sent
    ||| i is Edited
    ||| i is Failed
}

/// A registration step that waits for a typed field.
pub open spec fn collecting(r: RegState) -> bool {
    ||| r is AwaitingFirstName
    ||| r is AwaitingLastName
    ||| r is AwaitingPhone
}

/// A page that the menu message shows.
pub open spec fn menu_page(p: Page) -> bool {
    ||| p is Home
    ||| p is ParcelStatus
    ||| p is Price
    ||| p is Code
    ||| p is Address
    ||| p is Support
    ||| p is TutorialPicker
    ||| p is Instructions
    ||| p is UnknownAction
}

/// However many malformed texts arrive while registration waits for a
/// field (with the retry prompts delivered in between), the conversation
/// stays at the same step with the fields it had collected.
pub proof fn law_invalid_inputs_keep_registration(s: Session, inputs: Seq<Input>)
    requires
        s.top == TopState::Registering,
        s.awaiting == Awaiting::Idle,
        collecting(s.reg),
        forall|i: int| 0 <= i < inputs.len() ==> rejected_or_delivery(#[trigger] inputs[i]),
    ensures
        replay(s, inputs) == s,
    decreases inputs.len(),
{
    if inputs.len() > 0 {
        assert(rejected_or_delivery(inputs[0]));
        let rest = inputs.drop_first();
        assert forall|i: int| 0 <= i < rest.len() implies rejected_or_delivery(#[trigger] rest[i]) by {
            assert(rest[i] == inputs[i + 1]);
        }
        law_invalid_inputs_keep_registration(s, rest);
    }
}

/// A valid phone number ends registration with one request to create the
/// user from exactly the collected fields; once it is created the
/// conversation moves to the menu and registration is cleared.
pub proof fn law_registration_creates_user(
    first_name: String,
    last_name: String,
    menu: MenuState,
    sender: i64,
    phone: String,
    created: User,
)
    requires
        phone@.len() > 0,
    ensures
        ({
            let s = session(
                TopState::Registering,
                RegState::AwaitingPhone { first_name, last_name },
                menu,
                Awaiting::Idle,
            );
            let r = next(s, Input::Text { sender: Some(sender), text: Some(phone) });
            &&& r matches Ok(st)
            &&& st.command == Command::CreateUser(
                NewUser { first_name, last_name, phone_number: phone, telegram_id: sender },
            )
            &&& st.session.awaiting == Awaiting::Creation
            &&& next(st.session, Input::UserCreated(created)) matches Ok(st2)
            &&& st2.session.top == TopState::Menu
            &&& st2.session.reg == RegState::Invited
        }),
{
}

/// Once the menu has a message, it keeps that message for good: a step
/// that changes the menu edits that message, any edit targets it, and no
/// step sends a menu page anew.
pub proof fn law_menu_message_kept(s: Session, input: Input, id: i32)
    requires
        menu_id(s.menu) == Some(id),
    ensures
        next(s, input) matches Ok(st) ==> {
            &&& menu_id(st.session.menu) == Some(id)
            &&& st.command matches Command::Edit { message_id, .. } ==> message_id == id
            &&& st.session.menu != s.menu ==> st.command is Edit
            &&& st.command matches Command::Send(p) ==> !menu_page(p) && st.session.menu == s.menu
        },
{
}

/// Whatever inputs follow, a menu that has a message keeps that message.
pub proof fn law_menu_message_kept_across_turns(s: Session, inputs: Seq<Input>, id: i32)
    requires
        menu_id(s.menu) == Some(id),
    ensures
        menu_id(replay(s, inputs).menu) == Some(id),
    decreases inputs.len(),
{
    if inputs.len() > 0 {
        law_menu_message_kept(s, inputs[0], id);
        match next(s, inputs[0]) {
            Ok(st) => law_menu_message_kept_across_turns(st.session, inputs.drop_first(), id),
            Err(_) => law_menu_message_kept_across_turns(s, inputs.drop_first(), id),
        }
    }
}

/// The first time the home page is shown it is sent as a new message, and
/// the identifier that comes back becomes the menu's message.
pub proof fn law_first_home_is_sent(s: Session, user: User, id: i32)
    requires
        s.menu == MenuState::Init,
        s.awaiting == (Awaiting::Record { purpose: Lookup::Home }),
    ensures
        ({
            &&& next(s, Input::UserLoaded(user)) matches Ok(st)
            &&& st.command == Command::Send(Page::Home(user))
            &&& next(st.session, Input::Sent(id)) matches Ok(st2)
            &&& st2.session.menu == (MenuState::Home { message_id: id })
        }),
{
}

/// On a sub-page, any button press, whatever its payload, leads back to
/// the home page by editing the same message.
pub proof fn law_sub_page_returns_home(
    s: Session,
    sender: i64,
    data: Option<String>,
    user: User,
    id: i32,
)
    requires
        s.top == TopState::Menu,
        s.menu == (MenuState::SubPage { message_id: id }),
        s.awaiting == Awaiting::Idle,
    ensures
        ({
            &&& next(s, Input::Callback { sender, data }) matches Ok(st)
            &&& st.command == (Command::LoadUser { user_id: sender })
            &&& st.session.menu == s.menu
            &&& next(st.session, Input::UserLoaded(user)) matches Ok(st2)
            &&& st2.command == (Command::Edit { message_id: id, page: Page::Home(user) })
            &&& st2.session.menu == (MenuState::Home { message_id: id })
        }),
{
}

/// Writing the states of one conversation leaves every other
/// conversation's states as they were.
pub proof fn law_conversations_isolated(
    v: StoreModel,
    c: ConversationId,
    other: ConversationId,
    s: Session,
)
    requires
        c != other,
    ensures
        v.saved(c, s).session_at(other) == v.session_at(other),
{
}

/// A density of exactly 100 kg per cubic metre is priced by weight.
pub proof fn law_density_boundary_by_weight(
    width: Measure,
    length: Measure,
    height: Measure,
    weight: Measure,
)
    requires
        weight.milli as nat * 10_000_000_000 == volume_spec(width, length, height),
    ensures
        estimate_spec(width, length, height, weight).pricing == Pricing::ByWeight,
{
}

} // verus!

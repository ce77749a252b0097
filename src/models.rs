//! The records that the conversation logic reads and produces.
use vstd::prelude::*;
use crate::decimal::{decimal, push_decimal};

verus! {

/// A registered customer, as the user repository stores it.
pub struct User {
    pub id: i32,
    pub first_name: String,
    pub last_name: String,
    pub phone_number: String,
    pub telegram_id: i64,
    pub client_code: String,
}

impl User {
    /// A record with every field zero or empty.
    pub fn new() -> (r: User)
        ensures
            r.id == 0,
            r.first_name@ == Seq::<char>::empty(),
            r.last_name@ == Seq::<char>::empty(),
            r.phone_number@ == Seq::<char>::empty(),
            r.telegram_id == 0,
            r.client_code@ == Seq::<char>::empty(),
    {
        User {
            id: 0,
            first_name: String::new(),
            last_name: String::new(),
            phone_number: String::new(),
            telegram_id: 0,
            client_code: String::new(),
        }
    }
}

/// What registration collects: the fields of a user record that is still to
/// be created, before the repository assigns it an id and a client code.
pub struct NewUser {
    pub first_name: String,
    pub last_name: String,
    pub phone_number: String,
    pub telegram_id: i64,
}

/// The answer of the parcel status service: a status code and a note.
pub struct ProductStatus {
    pub code: String,
    pub msg: String,
}

/// The status code with which the service reports a parcel at the warehouse.
pub open spec fn ready_code() -> Seq<char> {
    seq!['0', '0', '0', '0']
}

impl ProductStatus {
    /// Whether the parcel has arrived: the code is exactly `0000`.
    pub fn is_ready(&self) -> (r: bool)
        ensures
            r == (self.code@ == ready_code()),
    {
        let ready = String::from_str("0000");
        proof {
            reveal_strlit("0000");
        }
        assert(ready@ =~= ready_code());
        self.code == ready
    }
}

/// The prefix of every client code.
pub open spec fn client_code_prefix() -> Seq<char> {
    seq!['M', 'X']
}

/// The offset added to the number of users already registered.
pub const CLIENT_CODE_BASE: u64 = 200;

/// The client code given to the user registered after `user_count` others:
/// the prefix followed by `200 + user_count` in decimal.
pub open spec fn client_code_spec(user_count: nat) -> Seq<char> {
    client_code_prefix() + decimal((CLIENT_CODE_BASE + user_count) as nat)
}

/// Builds the client code for a new user, given how many users exist.
pub fn client_code_for(user_count: u64) -> (r: String)
    ensures
        r@ == client_code_spec(user_count as nat),
{
    let mut code = String::from_str("MX");
    proof {
        reveal_strlit("MX");
    }
    push_decimal(&mut code, CLIENT_CODE_BASE as u128 + user_count as u128);
    code
}

/// The address of the parcel status service, to which the track code is appended.
pub open spec fn status_endpoint() -> Seq<char> {
    "http://www.107kapro.cn/index/index/search?no="@
}

/// The request address that asks about the parcel with this track code.
pub fn status_url(track_code: &str) -> (r: String)
    ensures
        r@ == status_endpoint() + track_code@,
{
    String::from_str("http://www.107kapro.cn/index/index/search?no=").concat(track_code)
}

} // verus!

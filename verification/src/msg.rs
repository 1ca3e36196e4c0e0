//! The requests that the vault takes and the answers that it gives.

use vstd::prelude::*;
use vstd::string::*;

verus! {

/// Asks for a new, empty vault.
#[derive(Clone, Debug, PartialEq, Eq)]
pub struct InstantiateMsg {}

/// A request that changes the record.
#[derive(Clone, Debug, PartialEq, Eq)]
pub enum ExecuteMsg {
    /// Store this credential.
    SubmitSecret { name: String, secret: String },
    /// Forget the credential.
    Reset {},
}

/// A request that only reads the record.
#[derive(Clone, Debug, PartialEq, Eq)]
pub enum QueryMsg {
    /// The code of the stored secret, now.
    GetToken {},
}

/// The answer to `QueryMsg::GetToken`.
#[derive(Clone, Debug, PartialEq, Eq)]
pub struct TOTPResponse {
    pub token: String,
}

/// A key and a value, attached to an answer for whoever logs it.
#[derive(Clone, Debug, PartialEq, Eq)]
pub struct Attribute {
    pub key: String,
    pub value: String,
}

impl View for Attribute {
    type V = (Seq<char>, Seq<char>);

    open spec fn view(&self) -> (Seq<char>, Seq<char>) {
        (self.key@, self.value@)
    }
}

/// The answer to a request that was carried out: its attributes, in the
/// order in which they were added.
#[derive(Clone, Debug, PartialEq, Eq)]
pub struct Response {
    pub attributes: Vec<Attribute>,
}

impl View for Response {
    type V = Seq<(Seq<char>, Seq<char>)>;

    open spec fn view(&self) -> Seq<(Seq<char>, Seq<char>)> {
        self.attributes@.map_values(|a: Attribute| a@)
    }
}

impl Response {
    /// An answer without attributes.
    pub fn new() -> (response: Response)
        ensures
            response@ == Seq::<(Seq<char>, Seq<char>)>::empty(),
    {
        let response = Response { attributes: Vec::new() };
        assert(response@ =~= Seq::empty());
        response
    }

    /// This answer with one more attribute at its end.
    pub fn add_attribute(self, key: &str, value: &str) -> (response: Response)
        ensures
            response@ == self@.push((key@, value@)),
    {
        let mut attributes = self.attributes;
        attributes.push(Attribute { key: String::from_str(key), value: String::from_str(value) });
        let response = Response { attributes };
        assert(response@ =~= self@.push((key@, value@)));
        response
    }
}

} // verus!

//! What the chain tells the contract about a request, and what the contract replies.
use vstd::prelude::*;

use crate::error::{ContractError, ErrorView};
use crate::state::Timestamp;

verus! {

/// The block in which a request is handled.
#[derive(Debug, Clone, Copy, PartialEq, Eq, Structural)]
pub struct BlockInfo {
    pub height: u64,
    pub time: Timestamp,
}

/// The surroundings of a request.
#[derive(Debug, Clone, Copy, PartialEq, Eq, Structural)]
pub struct Env {
    pub block: BlockInfo,
}

/// Who makes a request.
#[derive(Debug, Clone, PartialEq, Eq)]
pub struct MessageInfo {
    /// The address of the sender.
    pub sender: String,
}

/// One fact that a reply states.
#[derive(Debug, Clone, PartialEq, Eq)]
pub struct Attribute {
    pub key: String,
    pub value: String,
}

impl View for Attribute {
    type V = (Seq<char>, Seq<char>);

    open spec fn view(&self) -> (Seq<char>, Seq<char>) {
        (self.key@, self.value@)
    }
}

/// The reply to a request that was carried out.
#[derive(Debug, Clone, PartialEq, Eq)]
pub struct Response {
    pub attributes: Vec<Attribute>,
}

/// The attributes of a reply, as keys and values.
pub type Attributes = Seq<(Seq<char>, Seq<char>)>;

impl View for Response {
    type V = Attributes;

    open spec fn view(&self) -> Attributes {
        self.attributes@.map_values(|a: Attribute| a@)
    }
}

impl Response {
    /// A reply that states nothing.
    pub fn new() -> (r: Self)
        ensures
            r@ == Attributes::empty(),
    {
        let r = Response { attributes: Vec::new() };
        proof {
            assert(r@ =~= Attributes::empty());
        }
        r
    }

    /// The reply with one more attribute.
    pub fn add_attribute(self, key: &str, value: String) -> (r: Self)
        ensures
            r@ == self@.push((key@, value@)),
    {
        let ghost before = self@;
        let mut attributes = self.attributes;
        attributes.push(Attribute { key: key.to_owned(), value });
        let r = Response { attributes };
        proof {
            assert(r@ =~= before.push((key@, value@)));
        }
        r
    }
}

/// What a request came to: the attributes of the reply, or the error by its view.
pub open spec fn replied(r: Result<Response, ContractError>) -> Result<Attributes, ErrorView> {
    match r {
        Ok(response) => Ok(response@),
        Err(e) => Err(e@),
    }
}

} // verus!

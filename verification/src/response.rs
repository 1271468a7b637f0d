//! The result of a successful operation: a list of audit attributes, each a
//! key-value pair of strings, used for external observability.

use crate::error::ContractError;
use vstd::prelude::*;

verus! {

/// The mathematical value of a response: its attributes, each a key and a
/// value.
pub type AttrView = Seq<(Seq<char>, Seq<char>)>;

/// One audit attribute.
#[derive(Debug, PartialEq, Eq)]
pub struct Attribute {
    pub key: String,
    pub value: String,
}

impl View for Attribute {
    type V = (Seq<char>, Seq<char>);

    open spec fn view(&self) -> (Seq<char>, Seq<char>) {
        (self.key@, self.value@)
    }
}

/// What a successful operation reports back: its audit attributes, in the
/// order they were added.
#[derive(Debug)]
pub struct Response {
    pub attributes: Vec<Attribute>,
}

impl View for Response {
    type V = AttrView;

    open spec fn view(&self) -> AttrView {
        self.attributes@.map_values(|a: Attribute| a@)
    }
}

impl Response {
    /// A response with no attributes yet.
    pub fn new() -> (r: Response)
        ensures
            r@ == Seq::<(Seq<char>, Seq<char>)>::empty(),
    {
        let r = Response { attributes: Vec::new() };
        proof {
            assert(r@ =~= Seq::<(Seq<char>, Seq<char>)>::empty());
        }
        r
    }

    /// The same response with one attribute appended.
    pub fn add_attribute(self, key: &str, value: &str) -> (r: Response)
        ensures
            r@ == self@.push((key@, value@)),
    {
        let mut attributes = self.attributes;
        attributes.push(Attribute { key: key.to_owned(), value: value.to_owned() });
        let r = Response { attributes };
        proof {
            assert(r@ =~= self@.push((key@, value@)));
        }
        r
    }
}

/// A handler's outcome with the response replaced by its attributes, so that
/// contracts can state the outcome as one value.
pub open spec fn result_view(r: Result<Response, ContractError>) -> Result<AttrView, ContractError> {
    match r {
        Ok(resp) => Ok(resp@),
        Err(e) => Err(e),
    }
}

} // verus!

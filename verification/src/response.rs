//! What the pair answers an accepted message with: the messages it sends to
//! token contracts and the attributes it reports.
use vstd::prelude::*;

verus! {

/// A message executed on a contract, carrying the encoded call and no funds.
#[derive(Debug, Clone, PartialEq, Eq)]
pub struct WasmMsg {
    pub contract_addr: String,
    pub msg: Vec<u8>,
}

impl View for WasmMsg {
    type V = (Seq<char>, Seq<u8>);

    open spec fn view(&self) -> (Seq<char>, Seq<u8>) {
        (self.contract_addr@, self.msg@)
    }
}

/// A key and a value reported with a response.
#[derive(Debug, Clone, PartialEq, Eq)]
pub struct Attribute {
    pub key: String,
    pub value: String,
}

impl View for Attribute {
    type V = (Seq<char>, Seq<char>);

    open spec fn view(&self) -> (Seq<char>, Seq<char>) {
        (self.key@, self.value@)
    }
}

/// The messages to send and the attributes to report.
#[derive(Debug, Clone, PartialEq, Eq)]
pub struct Response {
    pub messages: Vec<WasmMsg>,
    pub attributes: Vec<Attribute>,
}

impl Response {
    /// The messages, each as its contract and its encoded call.
    pub open spec fn messages_view(&self) -> Seq<(Seq<char>, Seq<u8>)> {
        self.messages@.map_values(|m: WasmMsg| m@)
    }

    /// The attributes, each as its key and its value.
    pub open spec fn attributes_view(&self) -> Seq<(Seq<char>, Seq<char>)> {
        self.attributes@.map_values(|a: Attribute| a@)
    }

    /// A response with no message and no attribute.
    pub fn new() -> (r: Response)
        ensures
            r.messages_view() == Seq::<(Seq<char>, Seq<u8>)>::empty(),
            r.attributes_view() == Seq::<(Seq<char>, Seq<char>)>::empty(),
    {
        let r = Response { messages: Vec::new(), attributes: Vec::new() };
        assert(r.messages_view() =~= Seq::<(Seq<char>, Seq<u8>)>::empty());
        assert(r.attributes_view() =~= Seq::<(Seq<char>, Seq<char>)>::empty());
        r
    }

    /// Appends an attribute.
    pub fn add_attribute(&mut self, key: &str, value: &str)
        ensures
            final(self).messages == old(self).messages,
            final(self).attributes_view() == old(self).attributes_view().push((key@, value@)),
    {
        let attribute = Attribute { key: key.to_owned(), value: value.to_owned() };
        let ghost before = self.attributes@;
        self.attributes.push(attribute);
        assert(self.attributes@.map_values(|a: Attribute| a@) =~= before.map_values(|a: Attribute| a@).push((key@, value@)));
    }
}

} // verus!

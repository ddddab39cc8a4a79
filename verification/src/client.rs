use crate::text::{boolean, boolean_text, decimal, decimal_text};
use vstd::prelude::*;
use vstd::std_specs::cmp::PartialEqSpecImpl;
use vstd::string::StringExecFns;

verus! {

/// A client record. The identifier is assigned by the store: a record that has
/// not been persisted yet carries none.
#[derive(Debug)]
pub struct Client {
    pub id_client: Option<u32>,
    pub client_active: bool,
    pub client_name: String,
}

/// The mathematical value of a [`Client`].
pub struct ClientView {
    pub id_client: Option<u32>,
    pub client_active: bool,
    pub client_name: Seq<char>,
}

impl View for Client {
    type V = ClientView;

    open spec fn view(&self) -> ClientView {
        ClientView {
            id_client: self.id_client,
            client_active: self.client_active,
            client_name: self.client_name@,
        }
    }
}

/// How an optional identifier is written: its numeral, or `None`.
pub open spec fn identifier_text(id: Option<u32>) -> Seq<char> {
    match id {
        Some(id) => decimal(id as nat),
        None => "None"@,
    }
}

/// The one-line description of a client, as shown in messages.
pub open spec fn client_text(client: ClientView) -> Seq<char> {
    "{ id: "@ + identifier_text(client.id_client) + ", active: "@ + boolean(client.client_active)
        + ", name: "@ + client.client_name + " }"@
}

impl Client {
    /// Describes the record on one line: `{ id: 7, active: true, name: Ada }`.
    pub fn to_text(&self) -> (text: String)
        ensures
            text@ == client_text(self@),
    {
        let mut text = String::from_str("{ id: ");
        match self.id_client {
            Some(id) => {
                let numeral = decimal_text(id as u64);
                text.append(numeral.as_str());
            },
            None => {
                text.append("None");
            },
        }
        text.append(", active: ");
        text.append(boolean_text(self.client_active));
        text.append(", name: ");
        text.append(self.client_name.as_str());
        text.append(" }");
        text
    }
}

impl Default for Client {
    /// A record that was never persisted: no identifier, inactive, no name.
    fn default() -> (client: Client)
        ensures
            client@ == (ClientView {
                id_client: None,
                client_active: false,
                client_name: Seq::empty(),
            }),
    {
        Client { id_client: None, client_active: false, client_name: String::new() }
    }
}

impl Clone for Client {
    fn clone(&self) -> (copy: Client)
        ensures
            copy@ == self@,
    {
        Client {
            id_client: self.id_client,
            client_active: self.client_active,
            client_name: self.client_name.clone(),
        }
    }
}

impl PartialEq for Client {
    fn eq(&self, other: &Client) -> (equal: bool) {
        self.id_client == other.id_client && self.client_active == other.client_active
            && self.client_name == other.client_name
    }
}

impl PartialEqSpecImpl for Client {
    open spec fn obeys_eq_spec() -> bool {
        true
    }

    open spec fn eq_spec(&self, other: &Client) -> bool {
        self@ == other@
    }
}

} // verus!

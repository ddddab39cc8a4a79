use crate::client::{Client, ClientView};
use crate::text::{boolean, boolean_text, decimal, decimal_text};
use vstd::prelude::*;
use vstd::string::StringExecFns;

verus! {

#[verifier::external_type_specification]
#[verifier::external_body]
pub struct ExJsonFailure(serde_json::Error);

/// The JSON string literal that `serde_json` writes for a text: the text
/// between double quotes, with the characters that JSON does not allow in a
/// literal escaped.
pub uninterp spec fn json_text(text: Seq<char>) -> Seq<char>;

/// `serde_json::to_string`, on a text. It writes the literal into a vector
/// in memory, which takes every byte, and a text asks nothing else of it: so
/// it succeeds on every text. What it writes depends on the text alone: that
/// is what [`json_text`] names.
#[verifier::external_body]
fn quote(text: &str) -> (quoted: Result<String, serde_json::Error>)
    ensures
        quoted is Ok,
        quoted matches Ok(literal) ==> literal@ == json_text(text@),
{
    serde_json::to_string(text)
}

/// How an optional identifier is written in JSON: its numeral, or `null`.
pub open spec fn identifier_json(id: Option<u32>) -> Seq<char> {
    match id {
        Some(id) => decimal(id as nat),
        None => "null"@,
    }
}

/// The JSON object that stands for a client, given the literal for its name.
pub open spec fn client_object(client: ClientView, name_literal: Seq<char>) -> Seq<char> {
    "{\"id_client\":"@ + identifier_json(client.id_client) + ",\"client_active\":"@ + boolean(
        client.client_active,
    ) + ",\"client_name\":"@ + name_literal + "}"@
}

/// The JSON object that stands for a client.
pub open spec fn client_json(client: ClientView) -> Seq<char> {
    client_object(client, json_text(client.client_name))
}

/// The objects of the clients, separated by commas.
pub open spec fn joined_json(clients: Seq<ClientView>) -> Seq<char>
    decreases clients.len(),
{
    if clients.len() == 0 {
        Seq::empty()
    } else if clients.len() == 1 {
        client_json(clients[0])
    } else {
        joined_json(clients.drop_last()) + ","@ + client_json(clients.last())
    }
}

/// The JSON array that stands for a page: the objects of its clients, in the
/// order of the page.
pub open spec fn page_json(clients: Seq<ClientView>) -> Seq<char> {
    "["@ + joined_json(clients) + "]"@
}

/// The values of a list of clients.
pub open spec fn clients_view(clients: Seq<Client>) -> Seq<ClientView> {
    clients.map_values(|client: Client| client@)
}

/// Extending a page by one client extends its objects by one, after a comma
/// where the page was not empty.
pub proof fn lemma_joined_json_push(clients: Seq<ClientView>, client: ClientView)
    ensures
        joined_json(clients.push(client)) == if clients.len() == 0 {
            client_json(client)
        } else {
            joined_json(clients) + ","@ + client_json(client)
        },
{
    let longer = clients.push(client);
    assert(longer.drop_last() =~= clients);
    assert(longer.last() == client);
    if clients.len() == 0 {
        assert(longer[0] == client);
    }
}

/// Writes the JSON object of a client around the literal for its name.
pub fn write_client(client: &Client, name_literal: &str) -> (text: String)
    ensures
        text@ == client_object(client@, name_literal@),
{
    let mut text = String::from_str("{\"id_client\":");
    match client.id_client {
        Some(id) => {
            let numeral = decimal_text(id as u64);
            text.append(numeral.as_str());
        },
        None => {
            text.append("null");
        },
    }
    text.append(",\"client_active\":");
    text.append(boolean_text(client.client_active));
    text.append(",\"client_name\":");
    text.append(name_literal);
    text.append("}");
    text
}

/// Writes one client as a JSON object. Every client can be written: the
/// result is never a failure.
pub fn encode_client(client: &Client) -> (text: Result<String, serde_json::Error>)
    ensures
        text matches Ok(written) && written@ == client_json(client@),
{
    match quote(client.client_name.as_str()) {
        Ok(literal) => Ok(write_client(client, literal.as_str())),
        Err(failure) => Err(failure),
    }
}

/// Writes a page as a JSON array of objects, in the order of the page. Every
/// page can be written: the result is never a failure.
pub fn encode_page(clients: &Vec<Client>) -> (text: Result<String, serde_json::Error>)
    ensures
        text matches Ok(written) && written@ == page_json(clients_view(clients@)),
{
    let mut text = String::from_str("[");
    let mut k: usize = 0;
    proof {
        assert(clients_view(clients@).take(0) =~= Seq::<ClientView>::empty());
        assert(text@ =~= "["@ + joined_json(clients_view(clients@).take(0)));
    }
    while k < clients.len()
        invariant
            k <= clients.len(),
            text@ == "["@ + joined_json(clients_view(clients@).take(k as int)),
        decreases clients.len() - k,
    {
        let object = match encode_client(&clients[k]) {
            Ok(object) => object,
            Err(failure) => {
                return Err(failure);
            },
        };
        proof {
            let written = clients_view(clients@).take(k as int);
            lemma_joined_json_push(written, clients@[k as int]@);
            assert(written.push(clients@[k as int]@) =~= clients_view(clients@).take(k + 1));
        }
        if k > 0 {
            text.append(",");
        }
        text.append(object.as_str());
        k = k + 1;
        assert(text@ =~= "["@ + joined_json(clients_view(clients@).take(k as int)));
    }
    assert(clients_view(clients@).take(k as int) =~= clients_view(clients@));
    text.append("]");
    Ok(text)
}

} // verus!

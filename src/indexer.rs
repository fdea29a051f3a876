use vstd::prelude::*;
use crate::network::{NetworkId, decimal};
use crate::session::{Session, fresh};

verus! {

#[verifier::external_type_specification]
#[verifier::external_body]
pub struct ExJsonError(serde_json::Error);

/// Entry point for subscriptions: which network, which indexer endpoint, and how
/// many seconds a session may last.
#[derive(Debug, Clone)]
pub struct ContractIndexer {
    pub network_id: NetworkId,
    pub indexer_ws: String,
    pub timeout: u64,
}

/// The key under which the indexer knows a contract: the digit `0`, the network's
/// code in decimal, then the address as given.
pub open spec fn framed(network_id: NetworkId, address: Seq<char>) -> Seq<char> {
    seq!['0'] + decimal(network_id.spec_code() as nat) + address
}

/// Opening of the subscription document, up to the quoted address.
pub const QUERY_HEAD: &'static str = "subscription ContractSync { contractActions(address: \"";

/// Rest of the subscription document: the three action kinds, each with its
/// address, state and chain state.
pub const QUERY_TAIL: &'static str = "\") { __typename ... on ContractDeploy { address state chainState } ... on ContractCall { address state chainState } ... on ContractUpdate { address state chainState } } }";

/// The GraphQL subscription to the actions of the contract with key `key`.
pub open spec fn subscription_document(key: Seq<char>) -> Seq<char> {
    QUERY_HEAD@ + key + QUERY_TAIL@
}

/// The frame that opens the graphql-ws protocol.
pub const INIT_FRAME: &'static str = "{\"type\":\"connection_init\"}";

/// Subscribe frame up to its query, which follows as a JSON string.
pub const SUBSCRIBE_HEAD: &'static str = "{\"id\":\"contract-sync\",\"type\":\"subscribe\",\"payload\":{\"query\":";

/// What closes the subscribe frame after its query.
pub const SUBSCRIBE_TAIL: &'static str = "}}";

/// Lower-case hexadecimal digit of a number below sixteen.
pub open spec fn lower_hex_digit(d: nat) -> char {
    if d < 10 {
        (('0' as u32) + d) as char
    } else {
        (('a' as u32) + d - 10) as char
    }
}

/// How one character is written inside a JSON string: a backslash before `"` and
/// `\`, short escapes for backspace, tab, line feed, form feed and carriage
/// return, `\u00XX` for the other characters below U+0020, and the rest as is.
pub open spec fn json_escape(c: char) -> Seq<char> {
    if c == '"' {
        seq!['\\', '"']
    } else if c == '\\' {
        seq!['\\', '\\']
    } else if c == '\u{8}' {
        seq!['\\', 'b']
    } else if c == '\t' {
        seq!['\\', 't']
    } else if c == '\n' {
        seq!['\\', 'n']
    } else if c == '\u{c}' {
        seq!['\\', 'f']
    } else if c == '\r' {
        seq!['\\', 'r']
    } else if (c as u32) < 0x20 {
        seq!['\\', 'u', '0', '0', lower_hex_digit((c as u32 / 16) as nat), lower_hex_digit((c as u32 % 16) as nat)]
    } else {
        seq![c]
    }
}

/// The characters of `s`, each escaped for a JSON string.
pub open spec fn json_escaped(s: Seq<char>) -> Seq<char>
    decreases s.len(),
{
    if s.len() == 0 {
        Seq::empty()
    } else {
        json_escaped(s.drop_last()) + json_escape(s.last())
    }
}

/// JSON string literal that stands for `s`: its escaped characters in quotes.
pub open spec fn json_quoted(s: Seq<char>) -> Seq<char> {
    seq!['"'] + json_escaped(s) + seq!['"']
}

/// The subscribe frame around `quoted`, a query already written as a JSON string.
pub open spec fn subscribe_frame_of(quoted: Seq<char>) -> Seq<char> {
    SUBSCRIBE_HEAD@ + quoted + SUBSCRIBE_TAIL@
}

/// Relies on serde_json::to_string on a `str`: it writes the string into a `Vec`,
/// which never fails, quoted and escaped as `json_quoted` states.
#[verifier::external_body]
fn to_json_string(s: &str) -> (r: Result<String, serde_json::Error>)
    ensures
        r is Ok,
        r matches Ok(j) ==> j@ == json_quoted(s@),
{
    serde_json::to_string(s)
}

/// Wraps a query, already written as a JSON string, into the subscribe frame.
pub fn frame_subscription(quoted: &str) -> (r: String)
    ensures
        r@ == subscribe_frame_of(quoted@),
{
    let mut r = SUBSCRIBE_HEAD.to_owned();
    r.append(quoted);
    r.append(SUBSCRIBE_TAIL);
    r
}

/// Code of the network as one decimal digit.
fn code_text(network_id: NetworkId) -> (r: &'static str)
    ensures
        r@ == decimal(network_id.spec_code() as nat),
{
    match network_id {
        NetworkId::Undeployed => {
            proof { reveal_strlit("0"); }
            "0"
        },
        NetworkId::DevNet => {
            proof { reveal_strlit("1"); }
            "1"
        },
        NetworkId::TestNet => {
            proof { reveal_strlit("2"); }
            "2"
        },
        NetworkId::MainNet => {
            proof { reveal_strlit("3"); }
            "3"
        },
    }
}

impl ContractIndexer {
    pub fn new(network_id: NetworkId, indexer_ws: String, timeout: u64) -> (r: ContractIndexer)
        ensures
            r.network_id == network_id,
            r.indexer_ws == indexer_ws,
            r.timeout == timeout,
    {
        ContractIndexer { network_id, indexer_ws, timeout }
    }

    /// The subscription key of `contract_address` on this indexer's network.
    pub fn framed_address(&self, contract_address: &str) -> (r: String)
        ensures
            r@ == framed(self.network_id, contract_address@),
    {
        proof { reveal_strlit("0"); }
        let mut r = "0".to_owned();
        r.append(code_text(self.network_id));
        r.append(contract_address);
        r
    }

    /// The subscription document for `contract_address` on this indexer's network.
    pub fn subscription_query(&self, contract_address: &str) -> (r: String)
        ensures
            r@ == subscription_document(framed(self.network_id, contract_address@)),
    {
        let key = self.framed_address(contract_address);
        let mut r = QUERY_HEAD.to_owned();
        r.append(key.as_str());
        r.append(QUERY_TAIL);
        r
    }
    /// A new session with this indexer's time budget.
    pub fn session(&self) -> (r: Session)
        ensures
            r == fresh(self.timeout),
            r.wf(),
    {
        Session::new(self.timeout)
    }
    /// The subscribe frame for `contract_address`: its query is the subscription
    /// document for the framed address, written as a JSON string.
    pub fn subscribe_frame(&self, contract_address: &str) -> (r: Option<String>)
        ensures
            r is Some,
            r matches Some(f) ==> f@ == subscribe_frame_of(
                json_quoted(subscription_document(framed(self.network_id, contract_address@))),
            ),
    {
        let query = self.subscription_query(contract_address);
        match to_json_string(query.as_str()) {
            Ok(quoted) => Some(frame_subscription(quoted.as_str())),
            Err(_) => None,
        }
    }
}

} // verus!

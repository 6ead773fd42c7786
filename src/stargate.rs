//! Handlers for `CosmosMsg::Stargate`, `CosmosMsg::Any`, `QueryRequest::Stargate`
//! and `QueryRequest::Grpc` messages: untyped messages and queries tagged by a
//! type URL or a path and carrying protobuf bytes.
use crate::proto::{decode, proto_decodes, proto_string, string_field};
use crate::store::{ContractInfo, ContractStore};
use crate::text::{base64_of, base64_text, decimal, decimal_text};
use cosmwasm_std::StdError;
use vstd::prelude::*;
use vstd::string::*;

verus! {

#[verifier::external_type_specification]
#[verifier::external_body]
pub struct ExStdError(StdError);

/// The query path that asks for the code hash of a contract by its address.
pub const CODE_HASH_QUERY_PATH: &'static str = "/secret.compute.v1beta1.Query/CodeHashByContractAddress";

/// The protobuf field of the code-hash query that holds the contract address.
pub const ADDRESS_FIELD: u32 = 1;

/// Why a stargate message or query was not handled.
pub enum StargateError {
    /// No handler takes messages of this type URL.
    UnexpectedExecute { type_url: String, value: Vec<u8>, sender: String },
    /// No handler answers queries on this path.
    UnexpectedQuery { path: String, data: Vec<u8> },
    /// The payload holds no string at the given field, or is not protobuf.
    MissingStringField { field: u32 },
    /// No contract is registered under the address.
    ContractNotFound { address: String },
}

/// The mathematical value of a [`StargateError`].
pub enum ErrorView {
    UnexpectedExecute { type_url: Seq<char>, value: Seq<u8>, sender: Seq<char> },
    UnexpectedQuery { path: Seq<char>, data: Seq<u8> },
    MissingStringField { field: u32 },
    ContractNotFound { address: Seq<char> },
}

impl View for StargateError {
    type V = ErrorView;

    open spec fn view(&self) -> ErrorView {
        match self {
            StargateError::UnexpectedExecute { type_url, value, sender } =>
                ErrorView::UnexpectedExecute { type_url: type_url@, value: value@, sender: sender@ },
            StargateError::UnexpectedQuery { path, data } =>
                ErrorView::UnexpectedQuery { path: path@, data: data@ },
            StargateError::MissingStringField { field } =>
                ErrorView::MissingStringField { field: *field },
            StargateError::ContractNotFound { address } =>
                ErrorView::ContractNotFound { address: address@ },
        }
    }
}

/// The diagnostic text of an error.
pub open spec fn message_of(e: ErrorView) -> Seq<char> {
    match e {
        ErrorView::UnexpectedExecute { type_url, value, sender } =>
            "Unexpected stargate execute: type_url="@ + type_url + ", value="@
                + base64_of(value) + " from "@ + sender,
        ErrorView::UnexpectedQuery { path, data } =>
            "Unexpected stargate query: path="@ + path + ", data="@ + base64_of(data),
        ErrorView::MissingStringField { field } =>
            "Failed to decode Protobuf message: String not found for field number "@
                + decimal(field as nat),
        ErrorView::ContractNotFound { address } =>
            "Contract not found: "@ + address,
    }
}

impl StargateError {
    /// The diagnostic text of this error.
    pub fn message(&self) -> (r: String)
        ensures
            r@ == message_of(self@),
    {
        match self {
            StargateError::UnexpectedExecute { type_url, value, sender } => {
                let mut s = String::from_str("Unexpected stargate execute: type_url=");
                s.append(type_url.as_str());
                s.append(", value=");
                let v = base64_text(value);
                s.append(v.as_str());
                s.append(" from ");
                s.append(sender.as_str());
                s
            },
            StargateError::UnexpectedQuery { path, data } => {
                let mut s = String::from_str("Unexpected stargate query: path=");
                s.append(path.as_str());
                s.append(", data=");
                let d = base64_text(data);
                s.append(d.as_str());
                s
            },
            StargateError::MissingStringField { field } => {
                let mut s = String::from_str(
                    "Failed to decode Protobuf message: String not found for field number ",
                );
                let n = decimal_text(*field);
                s.append(n.as_str());
                s
            },
            StargateError::ContractNotFound { address } => {
                let mut s = String::from_str("Contract not found: ");
                s.append(address.as_str());
                s
            },
        }
    }
}

/// The outcome of an executed message.
pub struct AppResponse {
    /// Data returned to the sender, if any.
    pub data: Option<Vec<u8>>,
}

impl View for AppResponse {
    type V = Option<Seq<u8>>;

    open spec fn view(&self) -> Option<Seq<u8>> {
        match self.data {
            Some(d) => Some(d@),
            None => None,
        }
    }
}

impl Default for AppResponse {
    fn default() -> (r: AppResponse)
        ensures
            r@ is None,
    {
        AppResponse { data: None }
    }
}

/// The value of the outcome of `execute_stargate`.
pub open spec fn execute_view(r: Result<AppResponse, StargateError>) -> Result<
    Option<Seq<u8>>,
    ErrorView,
> {
    match r {
        Ok(a) => Ok(a@),
        Err(e) => Err(e@),
    }
}

/// The value of the outcome of `query_stargate`.
pub open spec fn query_view(r: Result<Vec<u8>, StargateError>) -> Result<Seq<u8>, ErrorView> {
    match r {
        Ok(b) => Ok(b@),
        Err(e) => Err(e@),
    }
}

/// The failure for a message that no handler takes.
pub open spec fn unexpected_execute(sender: Seq<char>, type_url: Seq<char>, value: Seq<u8>) -> Result<
    Option<Seq<u8>>,
    ErrorView,
> {
    Err(ErrorView::UnexpectedExecute { type_url, value, sender })
}

/// The failure for a query that no handler answers.
pub open spec fn unexpected_query(path: Seq<char>, data: Seq<u8>) -> Result<Seq<u8>, ErrorView> {
    Err(ErrorView::UnexpectedQuery { path, data })
}

/// Fails on a message that the handler does not take.
pub fn reject_execute(sender: String, type_url: String, value: Vec<u8>) -> (r: Result<
    AppResponse,
    StargateError,
>)
    ensures
        execute_view(r) == unexpected_execute(sender@, type_url@, value@),
{
    Err(StargateError::UnexpectedExecute { type_url, value, sender })
}

/// Fails on a query that the handler does not answer.
pub fn reject_query(path: String, data: Vec<u8>) -> (r: Result<Vec<u8>, StargateError>)
    ensures
        query_view(r) == unexpected_query(path@, data@),
{
    Err(StargateError::UnexpectedQuery { path, data })
}

/// Interface of handlers for untyped messages and queries.
///
/// Each handler states, as spec functions, what its two operations return
/// and what `execute_stargate` leaves in the store.
pub trait Stargate {
    /// What `execute_stargate` returns.
    spec fn execute_result(
        &self,
        contracts: Map<Seq<char>, ContractInfo>,
        sender: Seq<char>,
        type_url: Seq<char>,
        value: Seq<u8>,
    ) -> Result<Option<Seq<u8>>, ErrorView>;

    /// The contracts after `execute_stargate`.
    spec fn execute_contracts(
        &self,
        contracts: Map<Seq<char>, ContractInfo>,
        sender: Seq<char>,
        type_url: Seq<char>,
        value: Seq<u8>,
    ) -> Map<Seq<char>, ContractInfo>;

    /// What `query_stargate` returns.
    spec fn query_result(
        &self,
        contracts: Map<Seq<char>, ContractInfo>,
        path: Seq<char>,
        data: Seq<u8>,
    ) -> Result<Seq<u8>, ErrorView>;

    /// Processes a `CosmosMsg::Stargate` message sent by `sender`.
    fn execute_stargate(
        &self,
        storage: &mut ContractStore,
        sender: String,
        type_url: String,
        value: Vec<u8>,
    ) -> (r: Result<AppResponse, StargateError>)
        requires
            old(storage).wf(),
        ensures
            final(storage).wf(),
            execute_view(r) == self.execute_result(old(storage)@, sender@, type_url@, value@),
            final(storage)@ == self.execute_contracts(
                old(storage)@,
                sender@,
                type_url@,
                value@,
            ),
    ;

    /// Answers a `QueryRequest::Stargate` query.
    fn query_stargate(&self, storage: &ContractStore, path: String, data: Vec<u8>) -> (r: Result<
        Vec<u8>,
        StargateError,
    >)
        requires
            storage.wf(),
        ensures
            query_view(r) == self.query_result(storage@, path@, data@),
    ;
}

/// Always failing handler for stargate messages and queries.
pub struct StargateFailing;

impl Stargate for StargateFailing {
    open spec fn execute_result(
        &self,
        contracts: Map<Seq<char>, ContractInfo>,
        sender: Seq<char>,
        type_url: Seq<char>,
        value: Seq<u8>,
    ) -> Result<Option<Seq<u8>>, ErrorView> {
        unexpected_execute(sender, type_url, value)
    }

    open spec fn execute_contracts(
        &self,
        contracts: Map<Seq<char>, ContractInfo>,
        sender: Seq<char>,
        type_url: Seq<char>,
        value: Seq<u8>,
    ) -> Map<Seq<char>, ContractInfo> {
        contracts
    }

    open spec fn query_result(
        &self,
        contracts: Map<Seq<char>, ContractInfo>,
        path: Seq<char>,
        data: Seq<u8>,
    ) -> Result<Seq<u8>, ErrorView> {
        unexpected_query(path, data)
    }

    fn execute_stargate(
        &self,
        storage: &mut ContractStore,
        sender: String,
        type_url: String,
        value: Vec<u8>,
    ) -> (r: Result<AppResponse, StargateError>) {
        reject_execute(sender, type_url, value)
    }

    fn query_stargate(&self, storage: &ContractStore, path: String, data: Vec<u8>) -> (r: Result<
        Vec<u8>,
        StargateError,
    >) {
        reject_query(path, data)
    }
}

/// The canonical empty answer: the JSON encoding `{}` of an empty message.
pub open spec fn empty_answer() -> Seq<u8> {
    seq![0x7bu8, 0x7du8]
}

/// Relies on `cosmwasm_std::to_json_binary` of `cosmwasm_std::Empty`: the
/// serializer writes `{` and `}` for a struct without fields and cannot fail
/// on it.
#[verifier::external_body]
fn empty_binary() -> (r: Result<Vec<u8>, StdError>)
    ensures
        r is Ok,
        r is Ok ==> r->Ok_0@ == empty_answer(),
{
    match cosmwasm_std::to_json_binary(&cosmwasm_std::Empty {}) {
        Ok(b) => Ok(b.0),
        Err(e) => Err(e),
    }
}

/// Always accepting handler for stargate messages and queries.
pub struct StargateAccepting;

impl Stargate for StargateAccepting {
    open spec fn execute_result(
        &self,
        contracts: Map<Seq<char>, ContractInfo>,
        sender: Seq<char>,
        type_url: Seq<char>,
        value: Seq<u8>,
    ) -> Result<Option<Seq<u8>>, ErrorView> {
        Ok(None)
    }

    open spec fn execute_contracts(
        &self,
        contracts: Map<Seq<char>, ContractInfo>,
        sender: Seq<char>,
        type_url: Seq<char>,
        value: Seq<u8>,
    ) -> Map<Seq<char>, ContractInfo> {
        contracts
    }

    open spec fn query_result(
        &self,
        contracts: Map<Seq<char>, ContractInfo>,
        path: Seq<char>,
        data: Seq<u8>,
    ) -> Result<Seq<u8>, ErrorView> {
        Ok(empty_answer())
    }

    fn execute_stargate(
        &self,
        storage: &mut ContractStore,
        sender: String,
        type_url: String,
        value: Vec<u8>,
    ) -> (r: Result<AppResponse, StargateError>) {
        Ok(AppResponse::default())
    }

    fn query_stargate(&self, storage: &ContractStore, path: String, data: Vec<u8>) -> (r: Result<
        Vec<u8>,
        StargateError,
    >) {
        match empty_binary() {
            Ok(b) => Ok(b),
            // `empty_binary` never fails; this arm cannot be reached
            Err(_) => Ok(Vec::new()),
        }
    }
}

/// The address held by the string read at the address field: none where no
/// string was read or it is empty (protobuf writes an empty string as an
/// absent field).
pub open spec fn address_in(field: Option<Seq<char>>) -> Option<Seq<char>> {
    match field {
        Some(a) => if a.len() > 0 {
            Some(a)
        } else {
            None
        },
        None => None,
    }
}

/// The address that a code-hash query payload asks about.
pub open spec fn requested_address(data: Seq<u8>) -> Option<Seq<char>> {
    if proto_decodes(data) {
        address_in(proto_string(data, ADDRESS_FIELD))
    } else {
        None
    }
}

/// The answer to a code-hash query once the requested address is known.
pub open spec fn code_hash_answer(
    contracts: Map<Seq<char>, ContractInfo>,
    address: Option<Seq<char>>,
) -> Result<Seq<u8>, ErrorView> {
    match address {
        None => Err(ErrorView::MissingStringField { field: ADDRESS_FIELD }),
        Some(a) => if contracts.contains_key(a) {
            Ok(contracts[a].code_hash)
        } else {
            Err(ErrorView::ContractNotFound { address: a })
        },
    }
}

/// Answers a code-hash query from the string read at the address field
/// (`None` where there was none): the code hash of the contract registered
/// under that address.
pub fn resolve_code_hash(storage: &ContractStore, address: Option<String>) -> (r: Result<
    Vec<u8>,
    StargateError,
>)
    requires
        storage.wf(),
    ensures
        query_view(r) == code_hash_answer(
            storage@,
            address_in(
                match address {
                    Some(a) => Some(a@),
                    None => None,
                },
            ),
        ),
{
    match address {
        Some(a) => {
            if a.as_str().is_empty() {
                return Err(StargateError::MissingStringField { field: ADDRESS_FIELD });
            }
            match storage.load(&a) {
                Some(contract) => Ok(contract.code_hash.clone()),
                None => Err(StargateError::ContractNotFound { address: a }),
            }
        },
        None => Err(StargateError::MissingStringField { field: ADDRESS_FIELD }),
    }
}

/// Handler that answers the code-hash-by-contract-address query from the
/// contract store, and fails on everything else.
pub struct StargateCodeHash;

impl Stargate for StargateCodeHash {
    open spec fn execute_result(
        &self,
        contracts: Map<Seq<char>, ContractInfo>,
        sender: Seq<char>,
        type_url: Seq<char>,
        value: Seq<u8>,
    ) -> Result<Option<Seq<u8>>, ErrorView> {
        unexpected_execute(sender, type_url, value)
    }

    open spec fn execute_contracts(
        &self,
        contracts: Map<Seq<char>, ContractInfo>,
        sender: Seq<char>,
        type_url: Seq<char>,
        value: Seq<u8>,
    ) -> Map<Seq<char>, ContractInfo> {
        contracts
    }

    open spec fn query_result(
        &self,
        contracts: Map<Seq<char>, ContractInfo>,
        path: Seq<char>,
        data: Seq<u8>,
    ) -> Result<Seq<u8>, ErrorView> {
        if path == CODE_HASH_QUERY_PATH@ {
            code_hash_answer(contracts, requested_address(data))
        } else {
            unexpected_query(path, data)
        }
    }

    fn execute_stargate(
        &self,
        storage: &mut ContractStore,
        sender: String,
        type_url: String,
        value: Vec<u8>,
    ) -> (r: Result<AppResponse, StargateError>) {
        reject_execute(sender, type_url, value)
    }

    fn query_stargate(&self, storage: &ContractStore, path: String, data: Vec<u8>) -> (r: Result<
        Vec<u8>,
        StargateError,
    >) {
        if path != String::from_str(CODE_HASH_QUERY_PATH) {
            return reject_query(path, data);
        }
        let address = match decode(data.as_slice()) {
            Ok(message) => string_field(&message, ADDRESS_FIELD),
            Err(_) => None,
        };
        resolve_code_hash(storage, address)
    }
}

} // verus!

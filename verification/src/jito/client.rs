use base64::Engine;
use vstd::prelude::*;

verus! {

/// An HTTP client of `reqwest`; opaque here.
#[verifier::external_type_specification]
#[verifier::external_body]
pub struct ExHttpClient(reqwest::Client);

/// An error of `reqwest`; opaque here.
#[verifier::external_type_specification]
#[verifier::external_body]
pub struct ExHttpError(reqwest::Error);

/// A `bincode` serialization error; opaque here.
#[verifier::external_type_specification]
#[verifier::external_body]
pub struct ExBincodeErrorKind(bincode::ErrorKind);

/// A JSON document of `serde_json`; opaque here.
#[verifier::external_type_specification]
#[verifier::external_body]
pub struct ExJsonValue(serde_json::Value);

/// A `serde_json` parse error; opaque here.
#[verifier::external_type_specification]
#[verifier::external_body]
pub struct ExJsonError(serde_json::Error);

/// Why an account address in text form was rejected.
#[derive(Debug, Clone, Copy, PartialEq, Eq, Structural)]
pub enum PubkeyParseError {
    /// The text does not decode to exactly 32 bytes.
    WrongSize,
    /// The text holds a character outside the base58 alphabet.
    Invalid,
}

/// Errors of the Jito block-engine client.
#[derive(Debug)]
pub enum JitoError {
    /// The HTTP client could not be set up.
    Http(reqwest::Error),
    /// The transaction could not be serialized with `bincode`.
    Serialize(bincode::Error),
    /// The built request text was not accepted as JSON.
    Json(serde_json::Error),
    /// The response has no `result` array.
    MissingResultArray,
    /// An element of the `result` array is not a string.
    NotAString,
    /// An element of the `result` array is not a valid account address.
    InvalidPubkey(PubkeyParseError),
}

/// Standard base64 (RFC 4648 alphabet, with `=` padding) of a byte sequence,
/// as `base64::prelude::BASE64_STANDARD` encodes it.
pub uninterp spec fn base64_standard(bytes: Seq<u8>) -> Seq<char>;

/// The 32 bytes of the account address that a base58 text denotes, or why
/// it denotes none, as `<solana_pubkey::Pubkey as FromStr>::from_str` decides.
pub uninterp spec fn pubkey_from_base58(text: Seq<char>) -> Result<[u8; 32], PubkeyParseError>;

/// Calls `BASE64_STANDARD.encode` of the `base64` crate. Its result is named
/// `base64_standard`; with padding, every started group of three bytes
/// becomes four characters. The call panics when that length overflows
/// `usize`, which the `requires` leaves out.
#[verifier::external_body]
fn encode_base64(bytes: &[u8]) -> (encoded: String)
    requires
        4 * ((bytes@.len() + 2) / 3) <= usize::MAX,
    ensures
        encoded@ == base64_standard(bytes@),
        encoded@.len() == 4 * ((bytes@.len() + 2) / 3),
{
    base64::prelude::BASE64_STANDARD.encode(bytes)
}

/// The bytes, or the error, that `bincode::serialize` gives for a transaction.
pub uninterp spec fn bincode_transaction(
    transaction: solana_transaction::versioned::VersionedTransaction,
) -> Result<Seq<u8>, bincode::Error>;

/// The bytes of a serialization outcome, as a sequence.
pub open spec fn bytes_result_view(res: Result<Vec<u8>, bincode::Error>) -> Result<Seq<u8>, bincode::Error> {
    match res {
        Ok(bytes) => Ok(bytes@),
        Err(error) => Err(error),
    }
}

/// Calls `bincode::serialize` on the transaction; the result is named
/// `bincode_transaction`. Like every `Vec`, the bytes number at most
/// `isize::MAX`.
#[verifier::external_body]
fn serialize_versioned_transaction(
    transaction: &solana_transaction::versioned::VersionedTransaction,
) -> (res: Result<Vec<u8>, bincode::Error>)
    ensures
        bytes_result_view(res) == bincode_transaction(*transaction),
        res matches Ok(bytes) ==> bytes@.len() <= isize::MAX,
{
    bincode::serialize(transaction)
}

/// Calls `str::parse::<solana_pubkey::Pubkey>` and hands back the address's
/// 32 bytes, or the parse error variant by variant. Its result is named
/// `pubkey_from_base58`.
#[verifier::external_body]
fn parse_pubkey(text: &str) -> (res: Result<[u8; 32], PubkeyParseError>)
    ensures
        res == pubkey_from_base58(text@),
{
    match text.parse::<solana_pubkey::Pubkey>() {
        Ok(key) => Ok(key.to_bytes()),
        Err(solana_pubkey::ParsePubkeyError::WrongSize) => Err(PubkeyParseError::WrongSize),
        Err(solana_pubkey::ParsePubkeyError::Invalid) => Err(PubkeyParseError::Invalid),
    }
}

/// The JSON document, or the parse error, that
/// `serde_json::from_str::<serde_json::Value>` gives for a text.
pub uninterp spec fn json_document(text: Seq<char>) -> Result<serde_json::Value, serde_json::Error>;

/// Calls `serde_json::from_str::<serde_json::Value>`; the result is named
/// `json_document`.
#[verifier::external_body]
fn parse_json(text: &str) -> (res: Result<serde_json::Value, serde_json::Error>)
    ensures
        res == json_document(text@),
{
    serde_json::from_str(text)
}

/// Calls `reqwest::Client::builder().build()`. Whether a client comes back
/// depends on the machine (the TLS backend and the resolver's system
/// configuration), so nothing is claimed of the outcome.
#[verifier::external_body]
fn build_http_client() -> Result<reqwest::Client, reqwest::Error> {
    reqwest::Client::builder().build()
}

/// The JSON-RPC `sendTransaction` request for a base64-encoded transaction.
pub open spec fn spec_send_transaction_request(encoded_transaction: Seq<char>) -> Seq<char> {
    "{\"jsonrpc\":\"2.0\",\"id\":1,\"method\":\"sendTransaction\",\"params\":[\""@
        + encoded_transaction + "\",{\"encoding\":\"base64\"}]}"@
}

/// The JSON-RPC `getTipAccounts` request.
pub open spec fn spec_tip_accounts_request() -> Seq<char> {
    "{\"jsonrpc\":\"2.0\",\"id\":1,\"method\":\"getTipAccounts\",\"params\":[]}"@
}

/// The account addresses of a `result` array, each element decoded in
/// order; the first element that is not a string or not an address decides
/// the error.
pub open spec fn spec_tip_accounts(items: Seq<Option<String>>) -> Result<Seq<[u8; 32]>, JitoError>
    decreases items.len(),
{
    if items.len() == 0 {
        Ok(Seq::empty())
    } else {
        match items[0] {
            None => Err(JitoError::NotAString),
            Some(text) => match pubkey_from_base58(text@) {
                Err(error) => Err(JitoError::InvalidPubkey(error)),
                Ok(key) => match spec_tip_accounts(items.drop_first()) {
                    Ok(rest) => Ok(seq![key] + rest),
                    Err(error) => Err(error),
                },
            },
        }
    }
}

/// `decoded` followed by what the remaining elements decode to.
pub open spec fn spec_prepend_accounts(
    decoded: Seq<[u8; 32]>,
    rest: Result<Seq<[u8; 32]>, JitoError>,
) -> Result<Seq<[u8; 32]>, JitoError> {
    match rest {
        Ok(keys) => Ok(decoded + keys),
        Err(error) => Err(error),
    }
}

/// The view of a decoding outcome, with the keys as a sequence.
pub open spec fn accounts_view(res: Result<Vec<[u8; 32]>, JitoError>) -> Result<Seq<[u8; 32]>, JitoError> {
    match res {
        Ok(keys) => Ok(keys@),
        Err(error) => Err(error),
    }
}

/// The addresses of a `getTipAccounts` response, given its `result` field as
/// an array (`None` when the field is missing or not an array) whose
/// elements are strings (`Some`) or other JSON values (`None`).
pub open spec fn spec_tip_accounts_from_result(result: Option<Vec<Option<String>>>) -> Result<
    Seq<[u8; 32]>,
    JitoError,
> {
    match result {
        None => Err(JitoError::MissingResultArray),
        Some(items) => spec_tip_accounts(items@),
    }
}

/// Whether every element of a `result` array is a string that denotes an
/// account address.
pub open spec fn all_addresses(items: Seq<Option<String>>) -> bool {
    forall|i: int| 0 <= i < items.len() ==> (#[trigger] items[i]) is Some && pubkey_from_base58(items[i]->0@) is Ok
}

proof fn lemma_tip_accounts_elementwise(items: Seq<Option<String>>)
    ensures
        (spec_tip_accounts(items) is Ok) <==> all_addresses(items),
        spec_tip_accounts(items) matches Ok(keys) ==> keys.len() == items.len() && forall|i: int|
            0 <= i < items.len() ==> pubkey_from_base58((#[trigger] items[i])->0@) == Ok::<
                [u8; 32],
                PubkeyParseError,
            >(keys[i]),
    decreases items.len(),
{
    if items.len() > 0 {
        let rest = items.drop_first();
        lemma_tip_accounts_elementwise(rest);
        assert forall|i: int| 0 < i < items.len() implies items[i] == rest[i - 1] by {}
        if all_addresses(items) {
            assert forall|i: int| 0 <= i < rest.len() implies (#[trigger] rest[i]) is Some
                && pubkey_from_base58(rest[i]->0@) is Ok by {
                assert(rest[i] == items[i + 1]);
            }
        }
        if !all_addresses(items) && items[0] is Some && pubkey_from_base58(items[0]->0@) is Ok {
            let j = choose|j: int| 0 <= j < items.len() && !((#[trigger] items[j]) is Some && pubkey_from_base58(items[j]->0@) is Ok);
            assert(j > 0);
            assert(rest[j - 1] == items[j]);
        }
        match spec_tip_accounts(items) {
            Ok(keys) => {
                let key = pubkey_from_base58(items[0]->0@)->Ok_0;
                let rest_keys = spec_tip_accounts(rest)->Ok_0;
                assert(keys == seq![key] + rest_keys);
                assert forall|i: int| 0 <= i < items.len() implies pubkey_from_base58(
                    (#[trigger] items[i])->0@,
                ) == Ok::<[u8; 32], PubkeyParseError>(keys[i]) by {
                    if i > 0 {
                        assert(keys[i] == rest_keys[i - 1]);
                        assert(rest[i - 1] == items[i]);
                    }
                }
            },
            Err(_) => {},
        }
    }
}

/// A `getTipAccounts` result array is decoded whole, element by element:
/// decoding succeeds exactly when every element is a string that denotes an
/// address, and then there is one key per element, in the array's order,
/// each the decoding of its element.
pub proof fn lemma_tip_accounts_decode_whole(items: Vec<Option<String>>)
    ensures
        (spec_tip_accounts_from_result(Some(items)) is Ok) <==> all_addresses(items@),
        spec_tip_accounts_from_result(Some(items)) matches Ok(keys) ==> keys.len() == items@.len()
            && forall|i: int|
            0 <= i < items@.len() ==> pubkey_from_base58((#[trigger] items@[i])->0@) == Ok::<
                [u8; 32],
                PubkeyParseError,
            >(keys[i]),
{
    lemma_tip_accounts_elementwise(items@);
}

/// A client of the Jito block engine at a given endpoint.
pub struct JitoClient {
    client: reqwest::Client,
    endpoint: String,
}

impl JitoClient {
    /// The endpoint the client talks to.
    pub closed spec fn endpoint_view(&self) -> Seq<char> {
        self.endpoint@
    }

    /// The HTTP client the client holds.
    pub closed spec fn held_http_client(&self) -> reqwest::Client {
        self.client
    }

    /// A client for `endpoint`, or `Http` when no HTTP client can be set up
    /// on this machine.
    pub fn new(endpoint: &str) -> (res: Result<Self, JitoError>)
        ensures
            res matches Ok(client) ==> client.endpoint_view() == endpoint@,
            res matches Err(error) ==> error is Http,
    {
        match build_http_client() {
            Ok(client) => Ok(JitoClient { client, endpoint: endpoint.to_owned() }),
            Err(error) => Err(JitoError::Http(error)),
        }
    }

    /// The endpoint the client talks to.
    pub fn endpoint(&self) -> (endpoint: &str)
        ensures
            endpoint@ == self.endpoint_view(),
    {
        self.endpoint.as_str()
    }

    /// The HTTP client that requests go through.
    pub fn http_client(&self) -> (client: &reqwest::Client)
        ensures
            *client == self.held_http_client(),
    {
        &self.client
    }

    /// The transaction serialized with `bincode` and encoded as standard base64.
    pub fn serialize_transaction(
        &self,
        transaction: &solana_transaction::versioned::VersionedTransaction,
    ) -> (res: Result<String, JitoError>)
        ensures
            (match bincode_transaction(*transaction) {
                Ok(bytes) => res matches Ok(encoded) && encoded@ == base64_standard(bytes)
                    && encoded@.len() == 4 * ((bytes.len() + 2) / 3),
                Err(error) => res matches Err(e) && e == JitoError::Serialize(error),
            }),
    {
        match serialize_versioned_transaction(transaction) {
            Err(error) => Err(JitoError::Serialize(error)),
            Ok(bytes) => {
                assert(4 * ((bytes@.len() + 2) / 3) <= usize::MAX) by (nonlinear_arith)
                    requires
                        bytes@.len() <= isize::MAX,
                        usize::MAX == 2 * isize::MAX + 1,
                ;
                let encoded = encode_base64(bytes.as_slice());
                Ok(encoded)
            },
        }
    }

    /// The JSON-RPC text of a `sendTransaction` request for a transaction
    /// already encoded in base64.
    pub fn send_transaction_request_text(encoded_transaction: &str) -> (text: String)
        ensures
            text@ == spec_send_transaction_request(encoded_transaction@),
    {
        let mut text = "{\"jsonrpc\":\"2.0\",\"id\":1,\"method\":\"sendTransaction\",\"params\":[\"".to_owned();
        text.append(encoded_transaction);
        text.append("\",{\"encoding\":\"base64\"}]}");
        text
    }

    /// The `sendTransaction` request for the transaction, as a JSON document.
    pub fn build_send_transaction_request(
        &self,
        transaction: &solana_transaction::versioned::VersionedTransaction,
    ) -> (res: Result<serde_json::Value, JitoError>)
        ensures
            (match bincode_transaction(*transaction) {
                Err(error) => res == Err::<serde_json::Value, JitoError>(JitoError::Serialize(error)),
                Ok(bytes) => match json_document(spec_send_transaction_request(base64_standard(bytes))) {
                    Ok(request) => res == Ok::<serde_json::Value, JitoError>(request),
                    Err(error) => res == Err::<serde_json::Value, JitoError>(JitoError::Json(error)),
                },
            }),
    {
        let encoded = match self.serialize_transaction(transaction) {
            Ok(encoded) => encoded,
            Err(error) => return Err(error),
        };
        let text = Self::send_transaction_request_text(encoded.as_str());
        match parse_json(text.as_str()) {
            Ok(request) => Ok(request),
            Err(error) => Err(JitoError::Json(error)),
        }
    }

    /// The URL of the block engine's `getTipAccounts` method.
    pub fn tip_accounts_url(&self) -> (url: String)
        ensures
            url@ == self.endpoint_view() + "/api/v1/getTipAccounts"@,
    {
        let mut url = self.endpoint.clone();
        url.append("/api/v1/getTipAccounts");
        url
    }

    /// The JSON-RPC text of a `getTipAccounts` request.
    pub fn tip_accounts_request_text() -> (text: String)
        ensures
            text@ == spec_tip_accounts_request(),
    {
        "{\"jsonrpc\":\"2.0\",\"id\":1,\"method\":\"getTipAccounts\",\"params\":[]}".to_owned()
    }

    /// The tip account addresses of a `getTipAccounts` response, given its
    /// `result` field as an array (`None` when the field is missing or not an
    /// array) whose elements are strings (`Some`) or other JSON values (`None`).
    pub fn tip_accounts_from_result(result: Option<Vec<Option<String>>>) -> (res: Result<
        Vec<[u8; 32]>,
        JitoError,
    >)
        ensures
            accounts_view(res) == spec_tip_accounts_from_result(result),
    {
        let items = match result {
            None => return Err(JitoError::MissingResultArray),
            Some(items) => items,
        };
        let ghost target = spec_tip_accounts(items@);
        assert(target == spec_tip_accounts_from_result(result));
        let mut keys: Vec<[u8; 32]> = Vec::new();
        let mut i: usize = 0;
        proof {
            assert(items@.skip(0) =~= items@);
            match target {
                Ok(all) => assert(keys@ + all =~= all),
                Err(_) => {},
            }
        }
        while i < items.len()
            invariant
                i <= items@.len(),
                target == spec_tip_accounts(items@),
                target == spec_tip_accounts_from_result(result),
                spec_tip_accounts(items@) == spec_prepend_accounts(
                    keys@,
                    spec_tip_accounts(items@.skip(i as int)),
                ),
            decreases items@.len() - i,
        {
            proof {
                assert(items@.skip(i as int).drop_first() =~= items@.skip(i + 1));
                assert(items@.skip(i as int)[0] == items@[i as int]);
            }
            match &items[i] {
                None => return Err(JitoError::NotAString),
                Some(text) => match parse_pubkey(text.as_str()) {
                    Err(error) => return Err(JitoError::InvalidPubkey(error)),
                    Ok(key) => {
                        proof {
                            let rest = spec_tip_accounts(items@.skip(i + 1));
                            match rest {
                                Ok(r) => {
                                    assert(keys@.push(key) + r =~= keys@ + (seq![key] + r));
                                },
                                Err(_) => {},
                            }
                        }
                        keys.push(key);
                    },
                },
            }
            i = i + 1;
        }
        proof {
            assert(items@.skip(i as int) =~= Seq::<Option<String>>::empty());
            assert(keys@ + Seq::<[u8; 32]>::empty() =~= keys@);
        }
        Ok(keys)
    }
}

} // verus!

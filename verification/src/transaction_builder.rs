use crate::jito::client::bytes_result_view;
use solana_keypair::Signer;
use vstd::prelude::*;

verus! {

/// A signing keypair; opaque here.
#[verifier::external_type_specification]
#[verifier::external_body]
pub struct ExKeypair(solana_keypair::Keypair);

/// An account address; opaque here.
#[verifier::external_type_specification]
#[verifier::external_body]
pub struct ExPubkey(solana_pubkey::Pubkey);

/// An address lookup table and the addresses it holds; opaque here.
#[verifier::external_type_specification]
#[verifier::external_body]
pub struct ExAddressLookupTableAccount(solana_message::AddressLookupTableAccount);

/// A compiled v0 message; opaque here.
#[verifier::external_type_specification]
#[verifier::external_body]
pub struct ExMessageV0(solana_message::v0::Message);

/// Why a v0 message could not be compiled; opaque here.
#[verifier::external_type_specification]
#[verifier::external_body]
pub struct ExCompileError(solana_message::CompileError);

/// Why a message could not be signed; opaque here.
#[verifier::external_type_specification]
#[verifier::external_body]
pub struct ExSignerError(solana_transaction::SignerError);

/// A signed transaction that carries a versioned message; opaque here.
#[verifier::external_type_specification]
#[verifier::external_body]
pub struct ExVersionedTransaction(solana_transaction::versioned::VersionedTransaction);

/// Why a v0 transaction could not be built.
#[derive(Debug)]
pub enum TransactionBuildError {
    /// The instructions and lookup tables did not compile into a v0 message.
    Compile(solana_message::CompileError),
    /// The compiled message has a list too long for its wire format (more
    /// than 65,535 instructions, or accounts or data bytes of one
    /// instruction), so it cannot be serialized for signing.
    Encode(bincode::Error),
    /// The payer could not sign the compiled message.
    Sign(solana_transaction::SignerError),
}

/// The address of a keypair, as `Signer::pubkey` gives it.
pub uninterp spec fn keypair_address(payer: solana_keypair::Keypair) -> solana_pubkey::Pubkey;

/// The v0 message, or the reason there is none, that
/// `solana_message::v0::Message::try_compile` gives for a payer address,
/// instructions, lookup tables and recent blockhash.
pub uninterp spec fn compiled_v0_message(
    payer: solana_pubkey::Pubkey,
    instructions: Seq<solana_message::Instruction>,
    lookup_tables: Seq<solana_message::AddressLookupTableAccount>,
    recent_blockhash: solana_hash::Hash,
) -> Result<solana_message::v0::Message, solana_message::CompileError>;

/// The bytes, or the error, that `bincode::serialize` gives for a v0 message
/// wrapped as `VersionedMessage::V0`.
pub uninterp spec fn bincode_v0_message(message: solana_message::v0::Message) -> Result<
    Seq<u8>,
    bincode::Error,
>;

/// The transaction, or the reason there is none, that
/// `VersionedTransaction::try_new` gives for a v0 message signed by a single
/// keypair (ed25519 signing is deterministic).
pub uninterp spec fn signed_v0_transaction(
    message: solana_message::v0::Message,
    payer: solana_keypair::Keypair,
) -> Result<solana_transaction::versioned::VersionedTransaction, solana_transaction::SignerError>;

/// Calls `Signer::pubkey` on the keypair; the result is named `keypair_address`.
#[verifier::external_body]
fn payer_address(payer: &solana_keypair::Keypair) -> (address: solana_pubkey::Pubkey)
    ensures
        address == keypair_address(*payer),
{
    payer.pubkey()
}

/// Calls `solana_message::v0::Message::try_compile`; the result is named
/// `compiled_v0_message`.
#[verifier::external_body]
fn compile_v0_message(
    payer: &solana_pubkey::Pubkey,
    instructions: &[solana_message::Instruction],
    lookup_tables: &[solana_message::AddressLookupTableAccount],
    recent_blockhash: solana_hash::Hash,
) -> (res: Result<solana_message::v0::Message, solana_message::CompileError>)
    ensures
        res == compiled_v0_message(*payer, instructions@, lookup_tables@, recent_blockhash),
{
    solana_message::v0::Message::try_compile(payer, instructions, lookup_tables, recent_blockhash)
}

/// Calls `bincode::serialize` on the message wrapped as
/// `VersionedMessage::V0` (on a copy, as the wrapping takes ownership); the
/// result is named `bincode_v0_message`.
#[verifier::external_body]
fn serialize_v0_message(message: &solana_message::v0::Message) -> (res: Result<Vec<u8>, bincode::Error>)
    ensures
        bytes_result_view(res) == bincode_v0_message(*message),
{
    bincode::serialize(&solana_message::VersionedMessage::V0(message.clone()))
}

/// Calls `VersionedTransaction::try_new` on the message wrapped as
/// `VersionedMessage::V0`, with the payer as the only signer; the result is
/// named `signed_v0_transaction`. `try_new` serializes the message with
/// `VersionedMessage::serialize`, which unwraps the result of
/// `bincode::serialize`; the `requires` leaves out the messages on which
/// that fails.
#[verifier::external_body]
fn sign_v0_message(
    message: solana_message::v0::Message,
    payer: &solana_keypair::Keypair,
) -> (res: Result<solana_transaction::versioned::VersionedTransaction, solana_transaction::SignerError>)
    requires
        bincode_v0_message(message) is Ok,
    ensures
        res == signed_v0_transaction(message, *payer),
{
    solana_transaction::versioned::VersionedTransaction::try_new(
        solana_message::VersionedMessage::V0(message),
        &[payer],
    )
}

/// The outcome of building a v0 transaction: compile the instructions for
/// the payer's address, check that the message can be serialized, then have
/// the payer sign it; a failure of these steps is `Compile`, `Encode` and
/// `Sign` in turn.
pub open spec fn spec_build_v0_transaction(
    payer: solana_keypair::Keypair,
    instructions: Seq<solana_message::Instruction>,
    recent_blockhash: solana_hash::Hash,
    lookup_tables: Seq<solana_message::AddressLookupTableAccount>,
) -> Result<solana_transaction::versioned::VersionedTransaction, TransactionBuildError> {
    match compiled_v0_message(keypair_address(payer), instructions, lookup_tables, recent_blockhash) {
        Err(error) => Err(TransactionBuildError::Compile(error)),
        Ok(message) => match bincode_v0_message(message) {
            Err(error) => Err(TransactionBuildError::Encode(error)),
            Ok(_) => match signed_v0_transaction(message, payer) {
                Ok(transaction) => Ok(transaction),
                Err(error) => Err(TransactionBuildError::Sign(error)),
            },
        },
    }
}

/// A built transaction comes from compiling exactly the caller's instruction
/// sequence, in the caller's order, with the caller's lookup tables and
/// blockhash for the payer's own address, and then having the payer sign
/// that very message; a `Compile` error is exactly the compiler's error on
/// those inputs.
pub proof fn lemma_build_uses_given_instructions(
    payer: solana_keypair::Keypair,
    instructions: Seq<solana_message::Instruction>,
    recent_blockhash: solana_hash::Hash,
    lookup_tables: Seq<solana_message::AddressLookupTableAccount>,
)
    ensures
        spec_build_v0_transaction(payer, instructions, recent_blockhash, lookup_tables) matches Ok(
            transaction,
        ) ==> exists|message: solana_message::v0::Message|
            compiled_v0_message(keypair_address(payer), instructions, lookup_tables, recent_blockhash)
                == Ok::<solana_message::v0::Message, solana_message::CompileError>(message)
                && bincode_v0_message(message) is Ok
                && signed_v0_transaction(message, payer) == Ok::<
                solana_transaction::versioned::VersionedTransaction,
                solana_transaction::SignerError,
            >(transaction),
        spec_build_v0_transaction(payer, instructions, recent_blockhash, lookup_tables) matches Err(
            TransactionBuildError::Compile(error),
        ) ==> compiled_v0_message(keypair_address(payer), instructions, lookup_tables, recent_blockhash)
            == Err::<solana_message::v0::Message, solana_message::CompileError>(error),
        compiled_v0_message(keypair_address(payer), instructions, lookup_tables, recent_blockhash) matches Err(
            error,
        ) ==> spec_build_v0_transaction(payer, instructions, recent_blockhash, lookup_tables) == Err::<
            solana_transaction::versioned::VersionedTransaction,
            TransactionBuildError,
        >(TransactionBuildError::Compile(error)),
{
    match compiled_v0_message(keypair_address(payer), instructions, lookup_tables, recent_blockhash) {
        Ok(message) => {
            assert(compiled_v0_message(keypair_address(payer), instructions, lookup_tables, recent_blockhash)
                == Ok::<solana_message::v0::Message, solana_message::CompileError>(message));
        },
        Err(_) => {},
    }
}

/// Compiles `instructions` into a v0 message paid for by `payer`, using
/// `recent_blockhash` and resolving accounts through `lookup_tables`, then
/// signs it with `payer`. A compilation failure is reported as `Compile`, a
/// message too long to serialize as `Encode`, and a signing failure as `Sign`.
pub fn build_v0_transaction(
    payer: &solana_keypair::Keypair,
    instructions: Vec<solana_message::Instruction>,
    recent_blockhash: solana_hash::Hash,
    lookup_tables: Vec<solana_message::AddressLookupTableAccount>,
) -> (res: Result<solana_transaction::versioned::VersionedTransaction, TransactionBuildError>)
    ensures
        res == spec_build_v0_transaction(*payer, instructions@, recent_blockhash, lookup_tables@),
{
    let payer_key = payer_address(payer);
    let message = match compile_v0_message(
        &payer_key,
        instructions.as_slice(),
        lookup_tables.as_slice(),
        recent_blockhash,
    ) {
        Ok(message) => message,
        Err(error) => return Err(TransactionBuildError::Compile(error)),
    };
    match serialize_v0_message(&message) {
        Ok(_) => {},
        Err(error) => return Err(TransactionBuildError::Encode(error)),
    }
    match sign_v0_message(message, payer) {
        Ok(transaction) => Ok(transaction),
        Err(error) => Err(TransactionBuildError::Sign(error)),
    }
}

} // verus!

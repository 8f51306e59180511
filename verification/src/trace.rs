//! The transaction side of a replay: validating the fields of a base
//! transaction or of a deposit transaction before anything is executed, and
//! reading the finished trace off the recorder's stack afterwards.

use vstd::prelude::*;
use vstd::string::StringExecFns;
use op_revm::transaction::abstraction::OpBuildError;
use revm::context::tx::{DeriveTxTypeError, TxEnvBuildError, TxEnvBuilder};
use revm::context::TxEnv;
use crate::inspector::{
    is_run, lemma_run_without_frames_records_nothing, lemma_runs_are_orderly, RecorderView,
    StackEntry, TraceEvent, TraceFrame, TraceProtocolViolation,
};
use crate::primitives::{zero_hash_bytes, Address, B256};

verus! {

/// `either::Either`, as `revm` re-exports it.
#[verifier::external_type_specification]
#[verifier::external_body]
#[verifier::reject_recursive_types(L)]
#[verifier::reject_recursive_types(R)]
pub struct ExEither<L, R>(revm::context_interface::either::Either<L, R>);

/// `SignedAuthorization` of `alloy_eip7702`, as `revm` re-exports it: a signed
/// authorization to set an account's code.
#[verifier::external_type_specification]
#[verifier::external_body]
pub struct ExSignedAuthorization(revm::context_interface::transaction::SignedAuthorization);

/// `RecoveredAuthorization` of `alloy_eip7702`, as `revm` re-exports it: an
/// authorization together with the authority recovered from its signature.
#[verifier::external_type_specification]
#[verifier::external_body]
pub struct ExRecoveredAuthorization(revm::context_interface::transaction::RecoveredAuthorization);

/// `revm::context::tx::TxEnvBuilder`, the builder of transaction environments.
#[verifier::external_type_specification]
#[verifier::external_body]
pub struct ExTxEnvBuilder(TxEnvBuilder);

/// `revm::context::tx::TxEnvBuildError`, the error of that builder, with its
/// variants.
#[verifier::external_type_specification]
pub struct ExTxEnvBuildError(TxEnvBuildError);

/// `revm::context::tx::DeriveTxTypeError`, with its variants.
#[verifier::external_type_specification]
pub struct ExDeriveTxTypeError(DeriveTxTypeError);

/// `op_revm::transaction::abstraction::OpBuildError`, the error of the
/// deposit-chain builder, with its variants.
#[verifier::external_type_specification]
pub struct ExOpBuildError(OpBuildError);

/// One entry of an authorization list. The builders only ask whether the list
/// is empty; the entries are carried through to the engine.
pub type AuthorizationItem = revm::context_interface::either::Either<
    revm::context_interface::transaction::SignedAuthorization,
    revm::context_interface::transaction::RecoveredAuthorization,
>;

/// Where a transaction goes: to an account, or into the creation of one.
#[derive(Clone, Copy, Debug)]
pub enum TxKind {
    Create,
    Call(Address),
}

/// The fields from which a base transaction is built.
#[derive(Clone, Debug)]
pub struct TxFields {
    /// The transaction type, where the caller fixes it; else it is derived.
    pub tx_type: Option<u8>,
    pub chain_id: u64,
    pub caller: Address,
    pub kind: TxKind,
    pub nonce: u64,
    pub gas_limit: u64,
    pub gas_price: u128,
    pub gas_priority_fee: Option<u128>,
    pub data: Vec<u8>,
    pub blob_hashes: Vec<B256>,
    pub max_fee_per_blob_gas: u128,
    pub authorization_list: Vec<AuthorizationItem>,
}

/// A base transaction that passed validation, with its type settled.
#[derive(Clone, Debug)]
pub struct BaseTx {
    pub tx_type: u8,
    pub fields: TxFields,
}

/// The fields from which a deposit-chain transaction is built.
#[derive(Clone, Debug)]
pub struct DepositFields {
    pub base: TxFields,
    /// The enveloped transaction bytes; a deposit carries none.
    pub enveloped_tx: Option<Vec<u8>>,
    /// The source hash; all zeros stands for "none".
    pub source_hash: B256,
    pub mint: Option<u128>,
    pub is_system_transaction: bool,
}

/// A deposit-chain transaction that passed validation.
#[derive(Clone, Debug)]
pub struct DepositTx {
    pub base: BaseTx,
    pub enveloped_tx: Option<Vec<u8>>,
    pub source_hash: B256,
    pub mint: Option<u128>,
    pub is_system_transaction: bool,
}

/// The kind of transaction whose target was missing.
#[derive(Clone, Copy, Debug, PartialEq, Eq, Structural)]
pub enum MissingTarget {
    ForEip4844,
    ForEip7702,
    ForEip7873,
}

/// Why no base transaction was built.
#[derive(Clone, Copy, Debug, PartialEq, Eq, Structural)]
pub enum TxBuildError {
    /// The transaction type could not be settled from the fields.
    DeriveError(MissingTarget),
    /// A transaction of the priority-fee model came without a priority fee.
    MissingGasPriorityFee,
    /// A blob-carrying transaction came without blob hashes.
    MissingBlobHashesForBlobTx,
    /// A delegated-authorization transaction came without authorizations.
    MissingAuthorizationList,
    /// A blob-carrying transaction came without a target address.
    MissingTargetForBlobTx,
}

/// Why no deposit-chain transaction was built.
#[derive(Clone, Copy, Debug, PartialEq, Eq, Structural)]
pub enum DepositBuildError {
    /// The base transaction was refused.
    Base(TxBuildError),
    /// A transaction that is no deposit came without its enveloped bytes.
    MissingEnvelopedTxBytes,
    /// A deposit came without a source hash.
    MissingSourceHashForDeposit,
}

/// The type byte of a legacy transaction.
pub const TX_TYPE_LEGACY: u8 = 0;

/// The type byte of a transaction of the priority-fee model.
pub const TX_TYPE_EIP1559: u8 = 2;

/// The type byte of a blob-carrying transaction.
pub const TX_TYPE_EIP4844: u8 = 3;

/// The type byte of a delegated-authorization transaction.
pub const TX_TYPE_EIP7702: u8 = 4;

/// The type byte of a deposit.
pub const TX_TYPE_DEPOSIT: u8 = 0x7e;

/// Which target was missing, from the engine's word for it.
pub open spec fn missing_target_of(error: DeriveTxTypeError) -> MissingTarget {
    match error {
        DeriveTxTypeError::MissingTargetForEip4844 => MissingTarget::ForEip4844,
        DeriveTxTypeError::MissingTargetForEip7702 => MissingTarget::ForEip7702,
        DeriveTxTypeError::MissingTargetForEip7873 => MissingTarget::ForEip7873,
    }
}

/// The refusal of a base transaction, from the engine's word for it.
pub open spec fn tx_build_error_of(error: TxEnvBuildError) -> TxBuildError {
    match error {
        TxEnvBuildError::DeriveErr(e) => TxBuildError::DeriveError(missing_target_of(e)),
        TxEnvBuildError::MissingGasPriorityFeeForEip1559 => TxBuildError::MissingGasPriorityFee,
        TxEnvBuildError::MissingBlobHashesForEip4844 => TxBuildError::MissingBlobHashesForBlobTx,
        TxEnvBuildError::MissingAuthorizationListForEip7702 => TxBuildError::MissingAuthorizationList,
        TxEnvBuildError::MissingTargetForEip4844 => TxBuildError::MissingTargetForBlobTx,
    }
}

/// The refusal of a deposit-chain transaction, from the engine's word for it.
pub open spec fn deposit_build_error_of(error: OpBuildError) -> DepositBuildError {
    match error {
        OpBuildError::Base(e) => DepositBuildError::Base(tx_build_error_of(e)),
        OpBuildError::MissingEnvelopedTxBytes => DepositBuildError::MissingEnvelopedTxBytes,
        OpBuildError::MissingSourceHashForDeposit => DepositBuildError::MissingSourceHashForDeposit,
    }
}

/// What the engine's builder makes of a base transaction whose type the
/// caller fixed as `tx_type`: the type itself, unless a field that the type
/// needs is missing.
pub open spec fn engine_fixed_type_outcome(fields: TxFields, tx_type: u8) -> Result<
    u8,
    TxEnvBuildError,
> {
    if tx_type == TX_TYPE_EIP1559 {
        if fields.gas_priority_fee is None {
            Err(TxEnvBuildError::MissingGasPriorityFeeForEip1559)
        } else {
            Ok(tx_type)
        }
    } else if tx_type == TX_TYPE_EIP4844 {
        if fields.gas_priority_fee is None {
            Err(TxEnvBuildError::MissingGasPriorityFeeForEip1559)
        } else if fields.blob_hashes@.len() == 0 {
            Err(TxEnvBuildError::MissingBlobHashesForEip4844)
        } else if fields.kind is Create {
            Err(TxEnvBuildError::MissingTargetForEip4844)
        } else {
            Ok(tx_type)
        }
    } else if tx_type == TX_TYPE_EIP7702 {
        if fields.gas_priority_fee is None {
            Err(TxEnvBuildError::MissingGasPriorityFeeForEip1559)
        } else if fields.authorization_list@.len() == 0 {
            Err(TxEnvBuildError::MissingAuthorizationListForEip7702)
        } else if fields.kind is Create {
            Err(TxEnvBuildError::DeriveErr(DeriveTxTypeError::MissingTargetForEip7702))
        } else {
            Ok(tx_type)
        }
    } else {
        Ok(tx_type)
    }
}

/// What the engine's builder makes of a base transaction whose type is left
/// open: the type that the fields call for, unless blobs or authorizations
/// come without a target.
pub open spec fn engine_derived_type_outcome(fields: TxFields) -> Result<u8, TxEnvBuildError> {
    if fields.blob_hashes@.len() > 0 || fields.max_fee_per_blob_gas > 0 {
        if fields.kind is Call {
            Ok(TX_TYPE_EIP4844)
        } else {
            Err(TxEnvBuildError::DeriveErr(DeriveTxTypeError::MissingTargetForEip4844))
        }
    } else if fields.authorization_list@.len() > 0 {
        if fields.kind is Call {
            Ok(TX_TYPE_EIP7702)
        } else {
            Err(TxEnvBuildError::DeriveErr(DeriveTxTypeError::MissingTargetForEip7702))
        }
    } else if fields.gas_priority_fee is Some {
        Ok(TX_TYPE_EIP1559)
    } else {
        Ok(TX_TYPE_LEGACY)
    }
}

/// What the engine's builder makes of the fields of a base transaction.
pub open spec fn engine_base_outcome(fields: TxFields) -> Result<u8, TxEnvBuildError> {
    match fields.tx_type {
        Some(tx_type) => engine_fixed_type_outcome(fields, tx_type),
        None => engine_derived_type_outcome(fields),
    }
}

/// A refusal of the base transaction as the engine's deposit-chain builder
/// passes it on.
pub open spec fn engine_passed_on(outcome: Result<u8, TxEnvBuildError>) -> Result<
    u8,
    OpBuildError,
> {
    match outcome {
        Ok(tx_type) => Ok(tx_type),
        Err(e) => Err(OpBuildError::Base(e)),
    }
}

/// What the engine's builder makes of the fields of a deposit-chain
/// transaction. A source hash makes a transaction of open type a deposit.
pub open spec fn engine_deposit_outcome(fields: DepositFields) -> Result<u8, OpBuildError> {
    let no_source = fields.source_hash.0@ == zero_hash_bytes();
    match fields.base.tx_type {
        Some(tx_type) => {
            if tx_type == TX_TYPE_DEPOSIT && no_source {
                Err(OpBuildError::MissingSourceHashForDeposit)
            } else if tx_type != TX_TYPE_DEPOSIT && fields.enveloped_tx is None {
                Err(OpBuildError::MissingEnvelopedTxBytes)
            } else {
                engine_passed_on(engine_base_outcome(fields.base))
            }
        },
        None => {
            if !no_source {
                Ok(TX_TYPE_DEPOSIT)
            } else if fields.enveloped_tx is None {
                Err(OpBuildError::MissingEnvelopedTxBytes)
            } else {
                engine_passed_on(engine_base_outcome(fields.base))
            }
        },
    }
}

/// The outcome of building a base transaction from `fields`: its type, or the
/// reason why it is refused.
pub open spec fn base_outcome(fields: TxFields) -> Result<u8, TxBuildError> {
    match engine_base_outcome(fields) {
        Ok(tx_type) => Ok(tx_type),
        Err(e) => Err(tx_build_error_of(e)),
    }
}

/// The outcome of building a deposit-chain transaction from `fields`: the
/// type of its base transaction, or the reason why it is refused.
pub open spec fn deposit_outcome(fields: DepositFields) -> Result<u8, DepositBuildError> {
    match engine_deposit_outcome(fields) {
        Ok(tx_type) => Ok(tx_type),
        Err(e) => Err(deposit_build_error_of(e)),
    }
}

/// `TxEnv::builder` of `revm` and its setters: a builder that was given every
/// field of `fields`, and no access list.
#[verifier::external_body]
fn tx_env_builder(fields: &TxFields) -> TxEnvBuilder {
    let kind = match fields.kind {
        TxKind::Call(to) => revm::primitives::TxKind::Call(to.0.into()),
        TxKind::Create => revm::primitives::TxKind::Create,
    };
    TxEnv::builder()
        .tx_type(fields.tx_type).chain_id(Some(fields.chain_id))
        .caller(fields.caller.0.into()).kind(kind).nonce(fields.nonce)
        .gas_limit(fields.gas_limit).gas_price(fields.gas_price)
        .gas_priority_fee(fields.gas_priority_fee).data(fields.data.clone().into())
        .blob_hashes(fields.blob_hashes.iter().map(|h| h.0.into()).collect())
        .max_fee_per_blob_gas(fields.max_fee_per_blob_gas)
        .authorization_list(fields.authorization_list.clone())
}

/// `TxEnvBuilder::build` of `revm`, on a builder that was given every field
/// of `fields`: on success the type of the transaction that it built.
#[verifier::external_body]
fn tx_env_build(fields: &TxFields) -> (r: Result<u8, TxEnvBuildError>)
    ensures
        r == engine_base_outcome(*fields),
{
    tx_env_builder(fields).build().map(|tx| tx.tx_type)
}

/// `OpTransactionBuilder::build` of `op_revm`, on a builder that was given
/// every field of `fields`: on success the type of the base transaction that
/// it built.
#[verifier::external_body]
fn op_transaction_build(fields: &DepositFields) -> (r: Result<u8, OpBuildError>)
    ensures
        r == engine_deposit_outcome(*fields),
{
    let builder = op_revm::OpTransaction::builder().base(tx_env_builder(&fields.base));
    let builder = builder.enveloped_tx(fields.enveloped_tx.clone().map(Into::into));
    let builder = builder.source_hash(fields.source_hash.0.into());
    let builder = match fields.mint { Some(mint) => builder.mint(mint), None => builder };
    let builder = match fields.is_system_transaction {
        true => builder.is_system_transaction(),
        false => builder.not_system_transaction(),
    };
    builder.build().map(|tx| tx.base.tx_type)
}

/// The engine's word for which target was missing, in this library's words.
pub fn missing_target(error: DeriveTxTypeError) -> (r: MissingTarget)
    ensures
        r == missing_target_of(error),
{
    match error {
        DeriveTxTypeError::MissingTargetForEip4844 => MissingTarget::ForEip4844,
        DeriveTxTypeError::MissingTargetForEip7702 => MissingTarget::ForEip7702,
        DeriveTxTypeError::MissingTargetForEip7873 => MissingTarget::ForEip7873,
    }
}

/// The engine's refusal of a base transaction, in this library's words.
pub fn tx_build_error(error: TxEnvBuildError) -> (r: TxBuildError)
    ensures
        r == tx_build_error_of(error),
{
    match error {
        TxEnvBuildError::DeriveErr(e) => TxBuildError::DeriveError(missing_target(e)),
        TxEnvBuildError::MissingGasPriorityFeeForEip1559 => TxBuildError::MissingGasPriorityFee,
        TxEnvBuildError::MissingBlobHashesForEip4844 => TxBuildError::MissingBlobHashesForBlobTx,
        TxEnvBuildError::MissingAuthorizationListForEip7702 => {
            TxBuildError::MissingAuthorizationList
        },
        TxEnvBuildError::MissingTargetForEip4844 => TxBuildError::MissingTargetForBlobTx,
    }
}

/// The engine's refusal of a deposit-chain transaction, in this library's
/// words.
pub fn deposit_build_error(error: OpBuildError) -> (r: DepositBuildError)
    ensures
        r == deposit_build_error_of(error),
{
    match error {
        OpBuildError::Base(e) => DepositBuildError::Base(tx_build_error(e)),
        OpBuildError::MissingEnvelopedTxBytes => DepositBuildError::MissingEnvelopedTxBytes,
        OpBuildError::MissingSourceHashForDeposit => DepositBuildError::MissingSourceHashForDeposit,
    }
}

/// Validates the fields of a base transaction and settles its type. Either
/// the transaction is returned whole, or an error and nothing else.
pub fn build_base_tx(fields: TxFields) -> (r: Result<BaseTx, TxBuildError>)
    ensures
        match base_outcome(fields) {
            Ok(tx_type) => r == Ok::<BaseTx, TxBuildError>(BaseTx { tx_type, fields }),
            Err(e) => r == Err::<BaseTx, TxBuildError>(e),
        },
{
    match tx_env_build(&fields) {
        Ok(tx_type) => Ok(BaseTx { tx_type, fields }),
        Err(e) => Err(tx_build_error(e)),
    }
}

/// Validates the fields of a deposit-chain transaction. Either the
/// transaction is returned whole, or an error and nothing else.
pub fn build_deposit_tx(fields: DepositFields) -> (r: Result<DepositTx, DepositBuildError>)
    ensures
        match deposit_outcome(fields) {
            Ok(tx_type) => r == Ok::<DepositTx, DepositBuildError>(
                DepositTx {
                    base: BaseTx { tx_type, fields: fields.base },
                    enveloped_tx: fields.enveloped_tx,
                    source_hash: fields.source_hash,
                    mint: fields.mint,
                    is_system_transaction: fields.is_system_transaction,
                },
            ),
            Err(e) => r == Err::<DepositTx, DepositBuildError>(e),
        },
{
    match op_transaction_build(&fields) {
        Ok(tx_type) => Ok(
            DepositTx {
                base: BaseTx { tx_type, fields: fields.base },
                enveloped_tx: fields.enveloped_tx,
                source_hash: fields.source_hash,
                mint: fields.mint,
                is_system_transaction: fields.is_system_transaction,
            },
        ),
        Err(e) => Err(deposit_build_error(e)),
    }
}

/// The fields are complete for the kind of transaction that they describe:
/// a priority fee where the type is of the priority-fee model or built on it,
/// blob hashes for a blob-carrying type, authorizations for a
/// delegated-authorization type, and a target wherever blobs or
/// authorizations are carried.
pub open spec fn is_complete(fields: TxFields) -> bool {
    let priced = fields.gas_priority_fee is Some;
    let targeted = fields.kind is Call;
    match fields.tx_type {
        Some(tx_type) => {
            &&& tx_type == TX_TYPE_EIP1559 ==> priced
            &&& tx_type == TX_TYPE_EIP4844 ==> priced && targeted && fields.blob_hashes@.len() > 0
            &&& tx_type == TX_TYPE_EIP7702 ==> priced && targeted
                && fields.authorization_list@.len() > 0
        },
        None => {
            let carries = fields.blob_hashes@.len() > 0 || fields.max_fee_per_blob_gas > 0
                || fields.authorization_list@.len() > 0;
            carries ==> targeted
        },
    }
}

/// Building a base transaction succeeds exactly on complete fields.
pub proof fn lemma_complete_fields_are_accepted(fields: TxFields)
    ensures
        base_outcome(fields) is Ok <==> is_complete(fields),
{
}

/// Each refusal of a base transaction names the first field that is missing:
/// the priority fee before the blob hashes or the authorizations, and these
/// before the target.
pub proof fn lemma_each_refusal_has_its_reason(fields: TxFields)
    ensures
        base_outcome(fields) == Err::<u8, TxBuildError>(TxBuildError::MissingGasPriorityFee) <==> {
            &&& fields.gas_priority_fee is None
            &&& fields.tx_type == Some(TX_TYPE_EIP1559) || fields.tx_type == Some(TX_TYPE_EIP4844)
                || fields.tx_type == Some(TX_TYPE_EIP7702)
        },
        base_outcome(fields) == Err::<u8, TxBuildError>(TxBuildError::MissingBlobHashesForBlobTx)
            <==> {
            &&& fields.tx_type == Some(TX_TYPE_EIP4844)
            &&& fields.gas_priority_fee is Some
            &&& fields.blob_hashes@.len() == 0
        },
        base_outcome(fields) == Err::<u8, TxBuildError>(TxBuildError::MissingAuthorizationList)
            <==> {
            &&& fields.tx_type == Some(TX_TYPE_EIP7702)
            &&& fields.gas_priority_fee is Some
            &&& fields.authorization_list@.len() == 0
        },
        base_outcome(fields) == Err::<u8, TxBuildError>(TxBuildError::MissingTargetForBlobTx) <==> {
            &&& fields.tx_type == Some(TX_TYPE_EIP4844)
            &&& fields.gas_priority_fee is Some
            &&& fields.blob_hashes@.len() > 0
            &&& fields.kind is Create
        },
        base_outcome(fields) matches Err(TxBuildError::DeriveError(_)) <==> {
            &&& fields.kind is Create
            &&& match fields.tx_type {
                Some(tx_type) => {
                    &&& tx_type == TX_TYPE_EIP7702
                    &&& fields.gas_priority_fee is Some
                    &&& fields.authorization_list@.len() > 0
                },
                None => fields.blob_hashes@.len() > 0 || fields.max_fee_per_blob_gas > 0
                    || fields.authorization_list@.len() > 0,
            }
        },
{
}

/// A deposit-chain transaction is refused for its own reasons before the base
/// transaction is looked at: a deposit without source hash, or a transaction
/// that is no deposit without its enveloped bytes.
pub proof fn lemma_deposit_refusals(fields: DepositFields)
    ensures
        deposit_outcome(fields) == Err::<u8, DepositBuildError>(
            DepositBuildError::MissingSourceHashForDeposit,
        ) <==> fields.base.tx_type == Some(TX_TYPE_DEPOSIT) && fields.source_hash.0@
            == zero_hash_bytes(),
        deposit_outcome(fields) == Err::<u8, DepositBuildError>(
            DepositBuildError::MissingEnvelopedTxBytes,
        ) <==> {
            &&& fields.enveloped_tx is None
            &&& fields.base.tx_type != Some(TX_TYPE_DEPOSIT)
            &&& fields.base.tx_type is None ==> fields.source_hash.0@ == zero_hash_bytes()
        },
        deposit_outcome(fields) matches Err(DepositBuildError::Base(e)) ==> base_outcome(
            fields.base,
        ) == Err::<u8, TxBuildError>(e),
{
}

/// What a refusal of a base transaction reads like.
pub open spec fn tx_build_error_text(error: TxBuildError) -> Seq<char> {
    match error {
        TxBuildError::DeriveError(_) => "TxEnvBuildError: Derive Error"@,
        TxBuildError::MissingGasPriorityFee => "TxEnvBuildError: MissingGasPriorityFeeForEip1559"@,
        TxBuildError::MissingTargetForBlobTx => "TxEnvBuildError: MissingTargetForEip4844"@,
        TxBuildError::MissingAuthorizationList => "TxEnvBuildError: MissingAuthorizationListForEip7702"@,
        TxBuildError::MissingBlobHashesForBlobTx => "TxEnvBuildError: MissingBlobHashesForEip4844"@,
    }
}

/// What a refusal of a deposit-chain transaction reads like.
pub open spec fn deposit_build_error_text(error: DepositBuildError) -> Seq<char> {
    match error {
        DepositBuildError::Base(_) => "OPTxEnvBuildError: Base"@,
        DepositBuildError::MissingEnvelopedTxBytes => "OPTxEnvBuildError: MissingEnvelopedTxBytes"@,
        DepositBuildError::MissingSourceHashForDeposit => "OPTxEnvBuildError: MissingSourceHashForDeposit"@,
    }
}

/// The message with which a replay reports a refused base transaction.
pub fn tx_build_error_message(error: TxBuildError) -> (message: String)
    ensures
        message@ == tx_build_error_text(error),
{
    match error {
        TxBuildError::DeriveError(_) => String::from_str("TxEnvBuildError: Derive Error"),
        TxBuildError::MissingGasPriorityFee => String::from_str(
            "TxEnvBuildError: MissingGasPriorityFeeForEip1559",
        ),
        TxBuildError::MissingTargetForBlobTx => String::from_str(
            "TxEnvBuildError: MissingTargetForEip4844",
        ),
        TxBuildError::MissingAuthorizationList => String::from_str(
            "TxEnvBuildError: MissingAuthorizationListForEip7702",
        ),
        TxBuildError::MissingBlobHashesForBlobTx => String::from_str(
            "TxEnvBuildError: MissingBlobHashesForEip4844",
        ),
    }
}

/// The message with which a replay reports a refused deposit-chain
/// transaction.
pub fn deposit_build_error_message(error: DepositBuildError) -> (message: String)
    ensures
        message@ == deposit_build_error_text(error),
{
    match error {
        DepositBuildError::Base(_) => String::from_str("OPTxEnvBuildError: Base"),
        DepositBuildError::MissingEnvelopedTxBytes => String::from_str(
            "OPTxEnvBuildError: MissingEnvelopedTxBytes",
        ),
        DepositBuildError::MissingSourceHashForDeposit => String::from_str(
            "OPTxEnvBuildError: MissingSourceHashForDeposit",
        ),
    }
}

/// The fields of the one kind of transaction that a replay submits: a call to
/// `to` under the priority-fee model, with the type left open, no blobs and
/// no authorizations.
pub open spec fn is_call_profile(
    fields: TxFields,
    chain_id: u64,
    from: Address,
    from_nonce: u64,
    to: Address,
    data: Vec<u8>,
    gas_limit: u64,
    gas_price: u128,
    gas_priority_fee: u128,
) -> bool {
    &&& fields.tx_type is None
    &&& fields.chain_id == chain_id
    &&& fields.caller == from
    &&& fields.kind == TxKind::Call(to)
    &&& fields.nonce == from_nonce
    &&& fields.gas_limit == gas_limit
    &&& fields.gas_price == gas_price
    &&& fields.gas_priority_fee == Some(gas_priority_fee)
    &&& fields.data == data
    &&& fields.blob_hashes@.len() == 0
    &&& fields.max_fee_per_blob_gas == 0
    &&& fields.authorization_list@.len() == 0
}

/// The fields of a call to `to` as a replay submits it.
pub fn call_fields(
    chain_id: u64,
    from: Address,
    from_nonce: u64,
    to: Address,
    data: Vec<u8>,
    gas_limit: u64,
    gas_price: u128,
    gas_priority_fee: u128,
) -> (fields: TxFields)
    ensures
        is_call_profile(
            fields,
            chain_id,
            from,
            from_nonce,
            to,
            data,
            gas_limit,
            gas_price,
            gas_priority_fee,
        ),
{
    TxFields {
        tx_type: None,
        chain_id,
        caller: from,
        kind: TxKind::Call(to),
        nonce: from_nonce,
        gas_limit,
        gas_price,
        gas_priority_fee: Some(gas_priority_fee),
        data,
        blob_hashes: Vec::new(),
        max_fee_per_blob_gas: 0,
        authorization_list: Vec::new(),
    }
}

/// The base transaction of a replay on the main chain. Its fields are
/// complete, so it is always built, as a transaction of the priority-fee
/// model.
pub fn prepare_transaction(
    chain_id: u64,
    from: Address,
    from_nonce: u64,
    to: Address,
    data: Vec<u8>,
    gas_limit: u64,
    gas_price: u128,
    gas_priority_fee: u128,
) -> (r: Result<BaseTx, String>)
    ensures
        r matches Ok(tx) && tx.tx_type == TX_TYPE_EIP1559 && is_call_profile(
            tx.fields,
            chain_id,
            from,
            from_nonce,
            to,
            data,
            gas_limit,
            gas_price,
            gas_priority_fee,
        ),
{
    let fields = call_fields(
        chain_id,
        from,
        from_nonce,
        to,
        data,
        gas_limit,
        gas_price,
        gas_priority_fee,
    );
    match build_base_tx(fields) {
        Ok(tx) => Ok(tx),
        Err(e) => Err(tx_build_error_message(e)),
    }
}

/// The source hash that a replay on a deposit chain gives its transaction:
/// thirty-two bytes of value 1.
pub fn replay_source_hash() -> (hash: B256)
    ensures
        hash.0@ == Seq::new(32, |i: int| 1u8),
{
    let hash = B256([1u8;32]);
    proof {
        assert(hash.0@ =~= Seq::new(32, |i: int| 1u8));
    }
    hash
}

/// The transaction of a replay on a deposit chain: the same call, wrapped as
/// a deposit that mints nothing, is no system transaction and carries the
/// replay's source hash. It is always built, and the source hash makes it a
/// deposit.
pub fn prepare_op_transaction(
    chain_id: u64,
    from: Address,
    from_nonce: u64,
    to: Address,
    data: Vec<u8>,
    gas_limit: u64,
    gas_price: u128,
    gas_priority_fee: u128,
) -> (r: Result<DepositTx, String>)
    ensures
        r matches Ok(tx) && {
            &&& tx.base.tx_type == TX_TYPE_DEPOSIT
            &&& is_call_profile(
                tx.base.fields,
                chain_id,
                from,
                from_nonce,
                to,
                data,
                gas_limit,
                gas_price,
                gas_priority_fee,
            )
            &&& tx.enveloped_tx is None
            &&& tx.source_hash.0@ == Seq::new(32, |i: int| 1u8)
            &&& tx.mint == Some(0u128)
            &&& !tx.is_system_transaction
        },
{
    let base = call_fields(
        chain_id,
        from,
        from_nonce,
        to,
        data,
        gas_limit,
        gas_price,
        gas_priority_fee,
    );
    let fields = DepositFields {
        base,
        enveloped_tx: None,
        source_hash: replay_source_hash(),
        mint: Some(0),
        is_system_transaction: false,
    };
    proof {
        assert(fields.source_hash.0@[0] == 1u8);
        assert(zero_hash_bytes()[0] == 0u8);
    }
    match build_deposit_tx(fields) {
        Ok(tx) => Ok(tx),
        Err(e) => Err(deposit_build_error_message(e)),
    }
}

/// What is read off the recorder's stack when execution has ended: nothing
/// where no frame was recorded, the root where it is alone and at depth 1,
/// and a violation otherwise.
pub open spec fn trace_outcome(stack: Seq<StackEntry>) -> Result<
    Option<TraceFrame>,
    TraceProtocolViolation,
> {
    if stack.len() == 0 {
        Ok(None)
    } else if stack.len() > 1 {
        Err(TraceProtocolViolation::MultipleRoots { remaining: (stack.len() - 1) as usize })
    } else if stack[0].0 != 1 {
        Err(TraceProtocolViolation::RootDepth { depth: stack[0].0 })
    } else {
        Ok(Some(stack[0].1))
    }
}

/// A run in which no frame is ever entered or left ends in the null trace,
/// and in no error.
pub proof fn lemma_run_without_frames_has_null_trace(
    states: Seq<RecorderView>,
    events: Seq<TraceEvent>,
)
    requires
        is_run(states, events),
        forall|i: int|
            #![trigger events[i]]
            0 <= i < events.len() ==> events[i] is Step || events[i] is Log,
    ensures
        trace_outcome(states.last().stack) == Ok::<Option<TraceFrame>, TraceProtocolViolation>(None),
{
    lemma_run_without_frames_records_nothing(states, events, states.len() - 1);
}

/// Whenever a run is back outside any frame with one frame on the stack,
/// that frame is the trace: it sits at depth 1 and is well nested. A run
/// never ends with a root at another depth.
pub proof fn lemma_run_ends_in_its_root(states: Seq<RecorderView>, events: Seq<TraceEvent>)
    requires
        is_run(states, events),
        states.last().depth == 0,
    ensures
        !(trace_outcome(states.last().stack) matches Err(TraceProtocolViolation::RootDepth { .. })),
        states.last().stack.len() == 1 ==> {
            &&& trace_outcome(states.last().stack) == Ok::<
                Option<TraceFrame>,
                TraceProtocolViolation,
            >(Some(states.last().stack[0].1))
            &&& states.last().stack[0].1.depth == 1
            &&& states.last().stack[0].1.well_nested()
        },
{
    lemma_runs_are_orderly(states, events, states.len() - 1);
    let stack = states.last().stack;
    if stack.len() > 0 {
        let _ = stack[0];
    }
}

/// Reads the finished trace off the recorder's stack. An empty stack is no
/// error: the engine may refuse a transaction before it enters any frame.
pub fn trace_result(buffer: Vec<StackEntry>) -> (r: Result<
    Option<TraceFrame>,
    TraceProtocolViolation,
>)
    ensures
        r == trace_outcome(buffer@),
{
    let mut buffer = buffer;
    match buffer.pop() {
        Some(result) => {
            if buffer.len() != 0 {
                return Err(TraceProtocolViolation::MultipleRoots { remaining: buffer.len() });
            }
            if result.0 != 1 {
                return Err(TraceProtocolViolation::RootDepth { depth: result.0 });
            }
            Ok(Some(result.1))
        },
        None => Ok(None),
    }
}

} // verus!

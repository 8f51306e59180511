use op_revm::transaction::deposit::DepositTransactionParts;
use op_revm::{DefaultOp, L1BlockInfo, OpBuilder, OpSpecId, OpTransaction};
use revm::context::result::{ExecutionResult, HaltReason};
use revm::context::{CfgEnv, TxEnv};
use revm::interpreter::{
    CallInputs, CallOutcome, CreateInputs, CreateOutcome, Interpreter, InterpreterTypes,
};
use revm::primitives::Log;
use revm::state::EvmState;
use revm::{Context, ExecuteEvm, InspectEvm, Inspector, MainBuilder, MainContext};
use serde_json::Value;
use trace_prestate::block::{create_block_env_from_block_details, BlockDetails, BlockEnv};
use trace_prestate::database::{
    check_prestate_code, create_in_memory_database_from_prestate_trace, AccountDetails,
};
use trace_prestate::inspector::{FrameKind, MyInspector, TraceFrame};
use trace_prestate::primitives::{Address, U256};
use trace_prestate::trace::{
    prepare_op_transaction, prepare_transaction, trace_result, BaseTx, TxKind,
};

const SENDER: Address = Address([0xa5; 20]);
const CONTRACT: Address = Address([0xc0; 20]);

struct Observer<'a> {
    recorder: MyInspector<'a>,
}

impl<'a, CTX, INTR: InterpreterTypes> Inspector<CTX, INTR> for Observer<'a> {
    fn step(&mut self, interp: &mut Interpreter<INTR>, _context: &mut CTX) {
        let spent = interp.gas.total_gas_spent();
        assert!(self.recorder.gas_used.checked_add(spent).is_some());
        self.recorder.step(spent);
    }

    fn call(&mut self, _context: &mut CTX, _inputs: &mut CallInputs) -> Option<CallOutcome> {
        self.recorder.call()
    }

    fn call_end(&mut self, _context: &mut CTX, inputs: &CallInputs, outcome: &mut CallOutcome) {
        assert!(self.recorder.current_depth >= 1);
        let inputs = serde_json::to_value(inputs).unwrap();
        let outcome = serde_json::to_value(&*outcome).unwrap();
        self.recorder.call_end(inputs, outcome).unwrap();
    }

    fn create(&mut self, _context: &mut CTX, _inputs: &mut CreateInputs) -> Option<CreateOutcome> {
        self.recorder.create()
    }

    fn create_end(
        &mut self,
        _context: &mut CTX,
        inputs: &CreateInputs,
        outcome: &mut CreateOutcome,
    ) {
        assert!(self.recorder.current_depth >= 1);
        let inputs = serde_json::to_value(inputs).unwrap();
        let outcome = serde_json::to_value(&*outcome).unwrap();
        self.recorder.create_end(inputs, outcome).unwrap();
    }

    fn log(&mut self, _context: &mut CTX, log: Log) {
        self.recorder.log(serde_json::to_value(&log).unwrap());
    }
}

fn engine_block(env: &BlockEnv) -> revm::context::BlockEnv {
    revm::context::BlockEnv {
        number: revm::primitives::U256::from_limbs(env.number.limbs),
        beneficiary: env.beneficiary.0.into(),
        timestamp: revm::primitives::U256::from_limbs(env.timestamp.limbs),
        gas_limit: env.gas_limit,
        basefee: env.basefee,
        difficulty: revm::primitives::U256::from_limbs(env.difficulty.limbs),
        prevrandao: env.prevrandao.map(|seed| seed.0.into()),
        blob_excess_gas_and_price: env.blob_excess_gas_and_price.map(|blob| {
            revm::context_interface::block::BlobExcessGasAndPrice {
                excess_blob_gas: blob.excess_blob_gas,
                blob_gasprice: blob.blob_gasprice,
            }
        }),
        slot_num: 0,
    }
}

fn engine_tx(tx: BaseTx) -> TxEnv {
    TxEnv {
        tx_type: tx.tx_type,
        caller: tx.fields.caller.0.into(),
        gas_limit: tx.fields.gas_limit,
        gas_price: tx.fields.gas_price,
        kind: match tx.fields.kind {
            TxKind::Call(to) => revm::primitives::TxKind::Call(to.0.into()),
            TxKind::Create => revm::primitives::TxKind::Create,
        },
        value: revm::primitives::U256::ZERO,
        data: tx.fields.data.into(),
        nonce: tx.fields.nonce,
        chain_id: Some(tx.fields.chain_id),
        access_list: Default::default(),
        gas_priority_fee: tx.fields.gas_priority_fee,
        blob_hashes: tx.fields.blob_hashes.iter().map(|hash| hash.0.into()).collect(),
        max_fee_per_blob_gas: tx.fields.max_fee_per_blob_gas,
        authorization_list: tx.fields.authorization_list,
    }
}

fn header() -> BlockDetails {
    BlockDetails {
        number: U256::from_u64(100),
        miner: Address([0xee; 20]),
        timestamp: U256::from_u64(1_700_000_000),
        gas_limit: U256::from_u64(30_000_000),
        base_fee_per_gas: U256::from_u64(1),
        difficulty: U256::from_u64(0),
        excess_blob_gas: U256::from_u64(0),
    }
}

/// Two calls into an account without code, then one log, then STOP.
fn two_calls_and_a_log() -> Vec<u8> {
    let call: [u8; 17] = [
        0x60, 0x00, 0x60, 0x00, 0x60, 0x00, 0x60, 0x00, 0x60, 0x00, 0x60, 0xaa, 0x61, 0xff, 0xff,
        0xf1, 0x50,
    ];
    let mut code = Vec::new();
    code.extend_from_slice(&call);
    code.extend_from_slice(&call);
    code.extend_from_slice(&[0x60, 0x00, 0x60, 0x00, 0xa0, 0x00]);
    code
}

fn prestate(code: Vec<u8>, sender_balance: u64) -> Vec<(Address, AccountDetails)> {
    vec![
        (
            SENDER,
            AccountDetails {
                balance: Some(U256::from_u64(sender_balance)),
                nonce: Some(4),
                code: None,
                storage: None,
            },
        ),
        (CONTRACT, AccountDetails { balance: None, nonce: Some(1), code: Some(code), storage: None }),
    ]
}

fn replay(
    snapshot: Vec<(Address, AccountDetails)>,
    data: Vec<u8>,
) -> Result<(ExecutionResult<HaltReason>, EvmState, Option<TraceFrame>), String> {
    let chain_id = 1;
    let tx = prepare_transaction(chain_id, SENDER, 4, CONTRACT, data, 1_000_000, 10, 1)?;
    let block = create_block_env_from_block_details(header()).unwrap();
    assert!(check_prestate_code(&snapshot));
    let database = create_in_memory_database_from_prestate_trace(snapshot);
    let context = Context::mainnet()
        .with_db(database)
        .with_cfg(CfgEnv::new().with_chain_id(chain_id))
        .with_block(engine_block(&block));
    let mut buffer = Vec::new();
    let observer = Observer { recorder: MyInspector::new(&mut buffer) };
    let mut evm = context.build_mainnet_with_inspector(observer);
    let result = evm.inspect_one_tx(engine_tx(tx)).map_err(|error| error.to_string())?;
    let state = evm.finalize();
    let trace = trace_result(buffer).unwrap();
    Ok((result, state, trace))
}

#[test]
fn call_with_two_sub_calls_and_one_log_gives_a_root_with_two_children() {
    let (result, state, trace) = replay(prestate(two_calls_and_a_log(), 100_000_000), Vec::new())
        .unwrap();
    assert!(result.is_success());
    let root = trace.unwrap();
    assert_eq!(root.kind, FrameKind::Call);
    assert_eq!(root.depth, 1);
    assert_eq!(root.logs.len(), 1);
    assert_eq!(root.calls.len(), 2);
    for child in root.calls.iter() {
        assert_eq!(child.kind, FrameKind::Call);
        assert_eq!(child.depth, 2);
        assert!(child.calls.is_empty());
        assert!(child.logs.is_empty());
    }
    assert!(matches!(root.inputs, Value::Object(_)));
    assert!(matches!(root.outcome, Value::Object(_)));
    let sender: revm::primitives::Address = SENDER.0.into();
    assert_eq!(state[&sender].info.nonce, 5);
    assert!(state[&sender].info.balance < revm::primitives::U256::from(100_000_000u64));
}

#[test]
fn call_into_an_account_without_code_gives_a_root_without_children() {
    let (result, _state, trace) = replay(prestate(Vec::new(), 100_000_000), vec![1, 2, 3]).unwrap();
    assert!(result.is_success());
    let root = trace.unwrap();
    assert_eq!(root.kind, FrameKind::Call);
    assert!(root.calls.is_empty());
    assert!(root.logs.is_empty());
}

#[test]
fn transaction_that_the_engine_refuses_is_an_error_of_the_replay() {
    let refused = replay(prestate(two_calls_and_a_log(), 10), Vec::new());
    assert!(refused.is_err());
}

#[test]
fn replaying_twice_gives_the_same_outcome_state_and_trace() {
    let one = replay(prestate(two_calls_and_a_log(), 100_000_000), vec![7]).unwrap();
    let two = replay(prestate(two_calls_and_a_log(), 100_000_000), vec![7]).unwrap();
    assert_eq!(one.0, two.0);
    assert_eq!(one.1, two.1);
    assert_eq!(one.2, two.2);
}

#[test]
fn deposit_chain_replay_records_the_same_tree() {
    let chain_id = 10;
    let tx = prepare_op_transaction(chain_id, SENDER, 4, CONTRACT, Vec::new(), 1_000_000, 10, 1)
        .unwrap();
    let op_tx = OpTransaction {
        base: engine_tx(tx.base),
        enveloped_tx: tx.enveloped_tx.map(Into::into),
        deposit: DepositTransactionParts {
            source_hash: tx.source_hash.0.into(),
            mint: tx.mint,
            is_system_transaction: tx.is_system_transaction,
        },
    };
    let block = create_block_env_from_block_details(header()).unwrap();
    let snapshot = prestate(two_calls_and_a_log(), 100_000_000);
    assert!(check_prestate_code(&snapshot));
    let context = Context::op()
        .with_db(create_in_memory_database_from_prestate_trace(snapshot))
        .with_block(engine_block(&block))
        .with_cfg(CfgEnv::new_with_spec(OpSpecId::default()).with_chain_id(chain_id))
        .with_chain(L1BlockInfo::default());
    let mut buffer = Vec::new();
    let observer = Observer { recorder: MyInspector::new(&mut buffer) };
    let mut evm = context.build_op_with_inspector(observer);
    let result = evm.inspect_one_tx(op_tx).unwrap();
    let _state = evm.finalize();
    assert!(result.is_success());
    let root = trace_result(buffer).unwrap().unwrap();
    assert_eq!(root.kind, FrameKind::Call);
    assert_eq!(root.calls.len(), 2);
    assert_eq!(root.logs.len(), 1);
}

use move_vm_ext::errors::{CapabilityKind, DuplicateCapabilityError};
use move_vm_ext::extensions::{
    NativeCodeContext, NativeContextExtensions, NativeTableContext, NativeTransactionContext,
};
use move_vm_ext::natives::{
    NativeGasParameters, NativeRegistration, CODE_NATIVE, HASH_NATIVE, RESERVED_MODULE,
    TABLE_NATIVE, TRANSACTION_CONTEXT_NATIVE,
};
use move_vm_ext::session_id::{SessionId, GENESIS_SCOPE_ID, VOID_SCOPE_ID};
use move_vm_ext::vm::MoveVmExt;

/// A stand-in for the caller's state resolver; this layer only borrows it.
struct StateStore {
    value: u64,
}

fn registration(module: u64, function: u64, gas_cost: u64) -> NativeRegistration {
    NativeRegistration {
        module,
        function,
        gas_cost,
    }
}

#[test]
fn create_with_default_params_succeeds() {
    let host = MoveVmExt::new(NativeGasParameters::default());
    assert!(host.is_ok());
    let host = host.unwrap();
    let natives = host.move_vm().natives();
    assert_eq!(natives.len(), 4);
    assert_eq!(natives[0], registration(RESERVED_MODULE, TABLE_NATIVE, 0));
    assert_eq!(
        natives[1],
        registration(RESERVED_MODULE, TRANSACTION_CONTEXT_NATIVE, 0)
    );
    assert_eq!(natives[2], registration(RESERVED_MODULE, CODE_NATIVE, 0));
    assert_eq!(natives[3], registration(RESERVED_MODULE, HASH_NATIVE, 0));
}

#[test]
fn create_with_fresh_registrations_succeeds() {
    let params = NativeGasParameters {
        registrations: vec![registration(7, 1, 10), registration(7, 2, 25)],
    };
    let host = MoveVmExt::new(params).unwrap();
    let natives = host.move_vm().natives();
    assert_eq!(natives.len(), 6);
    assert_eq!(natives[4], registration(7, 1, 10));
    assert_eq!(natives[5], registration(7, 2, 25));
}

#[test]
fn create_with_reserved_collision_fails() {
    // Scenario: one registration claims the reserved storage-table slot.
    let params = NativeGasParameters {
        registrations: vec![registration(RESERVED_MODULE, TABLE_NATIVE, 3)],
    };
    assert!(MoveVmExt::new(params).is_err());
}

#[test]
fn create_with_duplicate_registrations_fails() {
    // Two registrations claim the same fresh slot; gas costs do not matter.
    let params = NativeGasParameters {
        registrations: vec![registration(9, 4, 1), registration(9, 4, 2)],
    };
    assert!(MoveVmExt::new(params).is_err());
}

#[test]
fn txn_session_reports_script_hash() {
    let host = MoveVmExt::new(NativeGasParameters::default()).unwrap();
    let store = StateStore { value: 11 };
    let session = host.new_session(
        &store,
        SessionId::Txn {
            sender: 0xA1,
            sequence_number: 7,
            script_hash: vec![0xDE, 0xAD],
        },
    );
    let tx = session.extensions().transaction_context().as_ref().unwrap();
    assert_eq!(*tx.script_hash(), vec![0xDE, 0xAD]);
}

#[test]
fn void_session_reports_empty_hash() {
    let host = MoveVmExt::new(NativeGasParameters::default()).unwrap();
    let store = StateStore { value: 0 };
    let session = host.new_session(&store, SessionId::Void);
    let tx = session.extensions().transaction_context().as_ref().unwrap();
    assert_eq!(*tx.script_hash(), Vec::<u8>::new());
}

#[test]
fn genesis_session_reports_empty_hash() {
    let host = MoveVmExt::new(NativeGasParameters::default()).unwrap();
    let store = StateStore { value: 0 };
    let session = host.new_session(&store, SessionId::Genesis);
    let tx = session.extensions().transaction_context().as_ref().unwrap();
    assert_eq!(*tx.script_hash(), Vec::<u8>::new());
}

#[test]
fn same_identity_same_table_scope() {
    let host = MoveVmExt::new(NativeGasParameters::default()).unwrap();
    let store = StateStore { value: 5 };
    let id = SessionId::Txn {
        sender: 42,
        sequence_number: 9,
        script_hash: vec![1, 2, 3],
    };
    let first = host.new_session(&store, id.clone());
    let second = host.new_session(&store, id);
    let scope1 = first
        .extensions()
        .table_context()
        .as_ref()
        .unwrap()
        .scope_id();
    let scope2 = second
        .extensions()
        .table_context()
        .as_ref()
        .unwrap()
        .scope_id();
    assert_eq!(scope1, scope2);
    // The two sessions are independent objects: dropping one leaves the
    // other fully usable.
    drop(first);
    let tx = second.extensions().transaction_context().as_ref().unwrap();
    assert_eq!(*tx.script_hash(), vec![1, 2, 3]);
}

#[test]
fn txn_uuid_combines_sender_and_sequence() {
    let id = SessionId::Txn {
        sender: 2,
        sequence_number: 3,
        script_hash: vec![],
    };
    assert_eq!(id.as_uuid(), 2u128 * (1u128 << 64) + 3);
    assert_eq!(SessionId::Genesis.as_uuid(), GENESIS_SCOPE_ID);
    assert_eq!(SessionId::Void.as_uuid(), VOID_SCOPE_ID);
}

#[test]
fn session_scope_matches_identity_uuid() {
    let host = MoveVmExt::new(NativeGasParameters::default()).unwrap();
    let store = StateStore { value: 5 };
    let id = SessionId::Txn {
        sender: 0xA1,
        sequence_number: 7,
        script_hash: vec![0xDE, 0xAD],
    };
    let uuid = id.as_uuid();
    let session = host.new_session(&store, id);
    let table = session.extensions().table_context().as_ref().unwrap();
    assert_eq!(table.scope_id(), uuid);
}

#[test]
fn session_borrows_machine_and_resolver() {
    let host = MoveVmExt::new(NativeGasParameters::default()).unwrap();
    let store = StateStore { value: 77 };
    let session = host.new_session(&store, SessionId::Void);
    assert_eq!(session.remote().value, 77);
    assert_eq!(session.move_vm().natives().len(), 4);
    let table = session.extensions().table_context().as_ref().unwrap();
    assert_eq!(table.resolver().value, 77);
}

#[test]
fn code_context_starts_empty() {
    let host = MoveVmExt::new(NativeGasParameters::default()).unwrap();
    let store = StateStore { value: 0 };
    let session = host.new_session(&store, SessionId::Void);
    let code = session.extensions().code_context().as_ref().unwrap();
    assert!(code.requested_module_bundle().is_none());
}

#[test]
fn duplicate_capability_insertion_refused() {
    let store = StateStore { value: 1 };
    let mut bundle: NativeContextExtensions<StateStore> = NativeContextExtensions::default();

    assert!(bundle
        .add_table_context(NativeTableContext::new(3, &store))
        .is_ok());
    assert_eq!(
        bundle.add_table_context(NativeTableContext::new(4, &store)),
        Err(DuplicateCapabilityError {
            kind: CapabilityKind::Table
        })
    );

    assert!(bundle
        .add_transaction_context(NativeTransactionContext::new(vec![5]))
        .is_ok());
    assert_eq!(
        bundle.add_transaction_context(NativeTransactionContext::new(vec![6])),
        Err(DuplicateCapabilityError {
            kind: CapabilityKind::TransactionMetadata
        })
    );

    assert!(bundle.add_code_context(NativeCodeContext::default()).is_ok());
    assert_eq!(
        bundle.add_code_context(NativeCodeContext::default()),
        Err(DuplicateCapabilityError {
            kind: CapabilityKind::CodePublishing
        })
    );
}

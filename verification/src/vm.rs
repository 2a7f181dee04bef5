//! The host: owns the machine instance and is the sole factory for
//! execution sessions.

use vstd::prelude::*;
use vstd::pervasive::unreached;

use crate::errors::InitializationError;
use crate::extensions::{
    NativeCodeContext, NativeContextExtensions, NativeTableContext, NativeTransactionContext,
};
use crate::move_vm::MoveVM;
use crate::natives::{aptos_natives, base_natives, slots_distinct, NativeGasParameters};
use crate::session_id::SessionId;

verus! {

/// The virtual-machine host. Created once with a fixed native catalogue,
/// immutable afterward, and shared read-only by every session opened on it.
pub struct MoveVmExt {
    inner: MoveVM,
}

/// One execution session: a borrowing handle combining the machine, the
/// freshly assembled extension bundle, and the resolver supplying state for
/// this unit of work. Dropped when the unit of work ends.
pub struct SessionExt<'r, 'l, R> {
    vm: &'l MoveVM,
    remote: &'r R,
    extensions: NativeContextExtensions<'r, R>,
}

/// What `MoveVmExt::new_session` promises of the session it returns, given
/// the host it was opened on, the resolver, and the session identity:
/// the session borrows that host's machine and that resolver, and its
/// bundle holds exactly one capability of every kind, each derived from the
/// identity — the table capability bound to the identity's table scope and
/// the resolver, the transaction-metadata capability reporting the
/// identity's code hash (empty for every non-transaction identity), and a
/// code-publishing capability with nothing staged.
pub open spec fn session_built_from<'r, 'l, R>(
    s: SessionExt<'r, 'l, R>,
    host: MoveVmExt,
    remote: &'r R,
    id: SessionId,
) -> bool {
    &&& s.spec_move_vm() == host.spec_move_vm()
    &&& s.spec_remote() == remote
    &&& s.spec_extensions().spec_table() matches Some(t)
    &&& t.spec_scope_id() == id.spec_uuid()
    &&& t.spec_resolver() == remote
    &&& s.spec_extensions().spec_transaction() matches Some(tx)
    &&& tx.spec_script_hash() == id.spec_script_hash()
    &&& s.spec_extensions().spec_code() matches Some(c)
    &&& c.spec_requested_module_bundle() is None
}

impl<'r, 'l, R> SessionExt<'r, 'l, R> {
    /// The machine this session executes on.
    pub closed spec fn spec_move_vm(self) -> MoveVM {
        *self.vm
    }

    /// The resolver this session reads state through.
    pub closed spec fn spec_remote(self) -> &'r R {
        self.remote
    }

    /// The extension bundle this session carries.
    pub closed spec fn spec_extensions(self) -> NativeContextExtensions<'r, R> {
        self.extensions
    }

    /// Binds a session to a machine, a resolver, and an extension bundle.
    pub fn new(
        vm: &'l MoveVM,
        remote: &'r R,
        extensions: NativeContextExtensions<'r, R>,
    ) -> (s: Self)
        ensures
            s.spec_move_vm() == *vm,
            s.spec_remote() == remote,
            s.spec_extensions() == extensions,
    {
        SessionExt { vm, remote, extensions }
    }

    /// The extension bundle this session carries.
    pub fn extensions(&self) -> (r: &NativeContextExtensions<'r, R>)
        ensures
            *r == self.spec_extensions(),
    {
        &self.extensions
    }

    /// The resolver this session reads state through.
    pub fn remote(&self) -> (r: &'r R)
        ensures
            r == self.spec_remote(),
    {
        self.remote
    }

    /// The machine this session executes on.
    pub fn move_vm(&self) -> (r: &'l MoveVM)
        ensures
            *r == self.spec_move_vm(),
    {
        self.vm
    }
}

impl MoveVmExt {
    /// The machine instance this host owns.
    pub closed spec fn spec_move_vm(self) -> MoveVM {
        self.inner
    }

    /// A host only ever holds a machine with a collision-free catalogue.
    pub open spec fn wf(self) -> bool {
        self.spec_move_vm().wf()
    }

    /// Creates the host: assembles the native catalogue from the given
    /// gas parameters and initializes the machine with it. Succeeds exactly
    /// when the catalogue — the reserved built-in slots followed by the
    /// parameters' registrations — is free of slot collisions; a rejected
    /// catalogue is fatal and surfaces as an `InitializationError`.
    pub fn new(native_gas_params: NativeGasParameters) -> (r: Result<Self, InitializationError>)
        ensures
            r is Ok <==> slots_distinct(base_natives() + native_gas_params.registrations@),
            r matches Ok(host) ==> host.wf() && host.spec_move_vm().spec_natives() == base_natives()
                + native_gas_params.registrations@,
    {
        match MoveVM::new(aptos_natives(native_gas_params)) {
            Ok(inner) => Ok(MoveVmExt { inner }),
            Err(e) => Err(e),
        }
    }

    /// Opens one session against the given resolver under the given
    /// identity. Builds the extension bundle fresh — table capability bound
    /// to the identity's table scope, transaction metadata reporting the
    /// identity's code hash, code publishing with nothing staged — and
    /// never fails: the fixed construction sequence is proved to insert
    /// each capability kind exactly once.
    pub fn new_session<'r, 'l, R>(&'l self, remote: &'r R, session_id: SessionId) -> (s: SessionExt<
        'r,
        'l,
        R,
    >)
        ensures
            session_built_from(s, *self, remote, session_id),
            s.spec_extensions().is_complete(),
    {
        let mut extensions = NativeContextExtensions::<'r, R>::default();

        let uuid = session_id.as_uuid();
        match extensions.add_table_context(NativeTableContext::new(uuid, remote)) {
            Ok(_) => (),
            Err(_) => unreached(),
        }

        let script_hash = match session_id {
            SessionId::Txn { sender: _, sequence_number: _, script_hash } => script_hash,
            _ => Vec::new(),
        };
        match extensions.add_transaction_context(NativeTransactionContext::new(script_hash)) {
            Ok(_) => (),
            Err(_) => unreached(),
        }
        match extensions.add_code_context(NativeCodeContext::default()) {
            Ok(_) => (),
            Err(_) => unreached(),
        }

        SessionExt::new(&self.inner, remote, extensions)
    }

    /// The machine instance this host owns.
    pub fn move_vm(&self) -> (r: &MoveVM)
        ensures
            *r == self.spec_move_vm(),
    {
        &self.inner
    }
}

/// A transaction session reports exactly the transaction's code hash: for
/// every session built from a "transaction" identity, the bundle's
/// transaction-metadata capability reports the hash that identity carries.
pub proof fn lemma_txn_bundle_reports_hash<'r, 'l, R>(
    s: SessionExt<'r, 'l, R>,
    host: MoveVmExt,
    remote: &'r R,
    id: SessionId,
)
    requires
        session_built_from(s, host, remote, id),
        id is Txn,
    ensures
        s.spec_extensions().spec_transaction() matches Some(tx) && tx.spec_script_hash()
            == id->script_hash@,
{
}

/// A non-transaction session reports the empty code hash, whatever its
/// variant: for every session built from an identity other than
/// "transaction", the bundle's transaction-metadata capability reports an
/// empty byte sequence.
pub proof fn lemma_other_bundle_reports_empty_hash<'r, 'l, R>(
    s: SessionExt<'r, 'l, R>,
    host: MoveVmExt,
    remote: &'r R,
    id: SessionId,
)
    requires
        session_built_from(s, host, remote, id),
        !(id is Txn),
    ensures
        s.spec_extensions().spec_transaction() matches Some(tx) && tx.spec_script_hash()
            == Seq::<u8>::empty(),
{
}

/// Opening sessions is idempotent in the table scope: two sessions built
/// from the same resolver and the same identity — even on different hosts —
/// carry table capabilities bound to the same scope identifier and to that
/// resolver, while each session owns its bundle outright.
pub proof fn lemma_same_identity_same_scope<'r, 'l1, 'l2, R>(
    s1: SessionExt<'r, 'l1, R>,
    s2: SessionExt<'r, 'l2, R>,
    host1: MoveVmExt,
    host2: MoveVmExt,
    remote: &'r R,
    id: SessionId,
)
    requires
        session_built_from(s1, host1, remote, id),
        session_built_from(s2, host2, remote, id),
    ensures
        s1.spec_extensions().spec_table() matches Some(t1)
            && (s2.spec_extensions().spec_table() matches Some(t2) && t1.spec_scope_id()
            == t2.spec_scope_id() && t1.spec_resolver() == t2.spec_resolver()),
{
}

} // verus!

//! The per-session native capabilities and the bundle that holds exactly
//! one of each kind.

use vstd::prelude::*;

use crate::errors::{CapabilityKind, DuplicateCapabilityError};

verus! {

/// The storage-table capability: bound at construction to a session-scoped
/// table identifier and to the resolver borrowed for the session.
pub struct NativeTableContext<'r, R> {
    scope_id: u128,
    resolver: &'r R,
}

impl<'r, R> NativeTableContext<'r, R> {
    /// The table scope this capability addresses.
    pub closed spec fn spec_scope_id(self) -> u128 {
        self.scope_id
    }

    /// The resolver this capability reads state through.
    pub closed spec fn spec_resolver(self) -> &'r R {
        self.resolver
    }

    /// Binds a storage-table capability to a table scope and a resolver.
    pub fn new(scope_id: u128, resolver: &'r R) -> (r: Self)
        ensures
            r.spec_scope_id() == scope_id,
            r.spec_resolver() == resolver,
    {
        NativeTableContext { scope_id, resolver }
    }

    /// The table scope this capability addresses.
    pub fn scope_id(&self) -> (s: u128)
        ensures
            s == self.spec_scope_id(),
    {
        self.scope_id
    }

    /// The resolver this capability reads state through.
    pub fn resolver(&self) -> (r: &'r R)
        ensures
            r == self.spec_resolver(),
    {
        self.resolver
    }
}

/// The transaction-metadata capability: reports the content hash of the
/// code the session executes.
pub struct NativeTransactionContext {
    script_hash: Vec<u8>,
}

impl NativeTransactionContext {
    /// The code content hash this capability reports.
    pub closed spec fn spec_script_hash(self) -> Seq<u8> {
        self.script_hash@
    }

    /// Builds the capability around the given code content hash.
    pub fn new(script_hash: Vec<u8>) -> (r: Self)
        ensures
            r.spec_script_hash() == script_hash@,
    {
        NativeTransactionContext { script_hash }
    }

    /// The code content hash this capability reports.
    pub fn script_hash(&self) -> (h: &Vec<u8>)
        ensures
            h@ == self.spec_script_hash(),
    {
        &self.script_hash
    }
}

/// The code-publishing capability. A session stages at most one module
/// bundle for publication; a fresh capability stages none.
pub struct NativeCodeContext {
    requested_module_bundle: Option<Vec<u8>>,
}

impl NativeCodeContext {
    /// The module bundle staged for publication, if any.
    pub closed spec fn spec_requested_module_bundle(self) -> Option<Seq<u8>> {
        match self.requested_module_bundle {
            Some(b) => Some(b@),
            None => None,
        }
    }

    /// The module bundle staged for publication, if any.
    pub fn requested_module_bundle(&self) -> (r: &Option<Vec<u8>>)
        ensures
            match *r {
                Some(b) => self.spec_requested_module_bundle() == Some(b@),
                None => self.spec_requested_module_bundle() is None,
            },
    {
        &self.requested_module_bundle
    }
}

impl Default for NativeCodeContext {
    /// A fresh capability with nothing staged for publication.
    fn default() -> (r: Self)
        ensures
            r.spec_requested_module_bundle() is None,
    {
        NativeCodeContext { requested_module_bundle: None }
    }
}

/// An extension bundle under assembly: at most one capability of each kind.
/// Membership is fixed once the session holding the bundle is returned;
/// inserting a second capability of a kind is refused as a
/// `DuplicateCapabilityError`.
pub struct NativeContextExtensions<'r, R> {
    table: Option<NativeTableContext<'r, R>>,
    transaction: Option<NativeTransactionContext>,
    code: Option<NativeCodeContext>,
}

impl<'r, R> NativeContextExtensions<'r, R> {
    /// The storage-table capability, once inserted.
    pub closed spec fn spec_table(self) -> Option<NativeTableContext<'r, R>> {
        self.table
    }

    /// The transaction-metadata capability, once inserted.
    pub closed spec fn spec_transaction(self) -> Option<NativeTransactionContext> {
        self.transaction
    }

    /// The code-publishing capability, once inserted.
    pub closed spec fn spec_code(self) -> Option<NativeCodeContext> {
        self.code
    }

    /// Whether the bundle holds exactly one capability of every kind.
    pub open spec fn is_complete(self) -> bool {
        self.spec_table() is Some && self.spec_transaction() is Some && self.spec_code() is Some
    }

    /// The storage-table capability, once inserted.
    pub fn table_context(&self) -> (r: &Option<NativeTableContext<'r, R>>)
        ensures
            *r == self.spec_table(),
    {
        &self.table
    }

    /// The transaction-metadata capability, once inserted.
    pub fn transaction_context(&self) -> (r: &Option<NativeTransactionContext>)
        ensures
            *r == self.spec_transaction(),
    {
        &self.transaction
    }

    /// The code-publishing capability, once inserted.
    pub fn code_context(&self) -> (r: &Option<NativeCodeContext>)
        ensures
            *r == self.spec_code(),
    {
        &self.code
    }

    /// Inserts the storage-table capability, refusing a second one.
    pub fn add_table_context(&mut self, ctx: NativeTableContext<'r, R>) -> (r: Result<
        (),
        DuplicateCapabilityError,
    >)
        ensures
            old(self).spec_table() is None ==> r is Ok && final(self).spec_table() == Some(ctx),
            old(self).spec_table() is Some ==> (r matches Err(e)
                && e.kind == CapabilityKind::Table) && final(self).spec_table() == old(
                self,
            ).spec_table(),
            final(self).spec_transaction() == old(self).spec_transaction(),
            final(self).spec_code() == old(self).spec_code(),
    {
        if self.table.is_some() {
            Err(DuplicateCapabilityError { kind: CapabilityKind::Table })
        } else {
            self.table = Some(ctx);
            Ok(())
        }
    }

    /// Inserts the transaction-metadata capability, refusing a second one.
    pub fn add_transaction_context(&mut self, ctx: NativeTransactionContext) -> (r: Result<
        (),
        DuplicateCapabilityError,
    >)
        ensures
            old(self).spec_transaction() is None ==> r is Ok && final(self).spec_transaction()
                == Some(ctx),
            old(self).spec_transaction() is Some ==> (r matches Err(e)
                && e.kind == CapabilityKind::TransactionMetadata) && final(self).spec_transaction()
                == old(self).spec_transaction(),
            final(self).spec_table() == old(self).spec_table(),
            final(self).spec_code() == old(self).spec_code(),
    {
        if self.transaction.is_some() {
            Err(DuplicateCapabilityError { kind: CapabilityKind::TransactionMetadata })
        } else {
            self.transaction = Some(ctx);
            Ok(())
        }
    }

    /// Inserts the code-publishing capability, refusing a second one.
    pub fn add_code_context(&mut self, ctx: NativeCodeContext) -> (r: Result<
        (),
        DuplicateCapabilityError,
    >)
        ensures
            old(self).spec_code() is None ==> r is Ok && final(self).spec_code() == Some(ctx),
            old(self).spec_code() is Some ==> (r matches Err(e)
                && e.kind == CapabilityKind::CodePublishing) && final(self).spec_code() == old(
                self,
            ).spec_code(),
            final(self).spec_table() == old(self).spec_table(),
            final(self).spec_transaction() == old(self).spec_transaction(),
    {
        if self.code.is_some() {
            Err(DuplicateCapabilityError { kind: CapabilityKind::CodePublishing })
        } else {
            self.code = Some(ctx);
            Ok(())
        }
    }
}

impl<'r, R> Default for NativeContextExtensions<'r, R> {
    /// An empty bundle, holding no capability of any kind yet.
    fn default() -> (r: Self)
        ensures
            r.spec_table() is None,
            r.spec_transaction() is None,
            r.spec_code() is None,
    {
        NativeContextExtensions { table: None, transaction: None, code: None }
    }
}

} // verus!

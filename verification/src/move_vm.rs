//! The machine instance: a model of the bytecode executor's construction
//! surface. Construction validates the native catalogue; everything past
//! that (interpretation, gas metering) is outside this layer.

use vstd::prelude::*;

use crate::errors::InitializationError;
use crate::natives::{catalogue_slots_distinct, slots_distinct, NativeRegistration};

verus! {

/// One machine instance, holding the validated native-function catalogue it
/// was created with. Never mutated after construction.
pub struct MoveVM {
    natives: Vec<NativeRegistration>,
}

impl MoveVM {
    /// The catalogue this machine was created with.
    pub closed spec fn spec_natives(self) -> Seq<NativeRegistration> {
        self.natives@
    }

    /// A machine only ever holds a collision-free catalogue.
    pub open spec fn wf(self) -> bool {
        slots_distinct(self.spec_natives())
    }

    /// Creates a machine from a native catalogue. Succeeds exactly when no
    /// two entries of the catalogue claim the same module/function slot;
    /// otherwise the catalogue is rejected outright.
    pub fn new(natives: Vec<NativeRegistration>) -> (r: Result<MoveVM, InitializationError>)
        ensures
            r is Ok <==> slots_distinct(natives@),
            r matches Ok(vm) ==> vm.wf() && vm.spec_natives() == natives@,
    {
        if catalogue_slots_distinct(&natives) {
            Ok(MoveVM { natives })
        } else {
            Err(InitializationError)
        }
    }

    /// The catalogue entries, in registration order.
    pub fn natives(&self) -> (r: &Vec<NativeRegistration>)
        ensures
            r@ == self.spec_natives(),
    {
        &self.natives
    }
}

} // verus!

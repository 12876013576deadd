//! Resolution of two conflicting versions of a register.
use vstd::prelude::*;
use crate::element::Element;
use crate::sync::crdt::{LWWRegister, lww_join};

verus! {

/// Chooses the register that a replica keeps when its own and a remote version differ.
pub trait ConflictResolver<T> {
    /// The register kept out of `local` and `remote`.
    fn resolve(&self, local: &LWWRegister<T>, remote: &LWWRegister<T>) -> LWWRegister<T>;
}

/// Keeps the last write, as merging registers does.
pub struct LWWResolver;

impl<T: Element> ConflictResolver<T> for LWWResolver {
    fn resolve(&self, local: &LWWRegister<T>, remote: &LWWRegister<T>) -> (r: LWWRegister<T>)
        ensures
            r@ == lww_join(local@, remote@),
    {
        let mut result = local.duplicate();
        result.merge(remote.duplicate());
        result
    }
}

/// Resolves string registers with a function that the application gives.
pub struct ManualResolver<F> where
    F: Fn(&LWWRegister<String>, &LWWRegister<String>) -> LWWRegister<String>,
 {
    resolve_fn: F,
}

impl<F> ManualResolver<F> where
    F: Fn(&LWWRegister<String>, &LWWRegister<String>) -> LWWRegister<String>,
 {
    /// The function can be called on any two registers.
    #[verifier::type_invariant]
    spec fn callable(self) -> bool {
        forall|a: &LWWRegister<String>, b: &LWWRegister<String>|
            #[trigger] call_requires(self.resolve_fn, (a, b))
    }

    /// A resolver that applies `resolve_fn`.
    pub fn new(resolve_fn: F) -> (r: Self)
        requires
            forall|a: &LWWRegister<String>, b: &LWWRegister<String>|
                #[trigger] call_requires(resolve_fn, (a, b)),
        ensures
            r.function() == resolve_fn,
    {
        Self { resolve_fn }
    }

    /// The function that resolves conflicts.
    pub closed spec fn function(&self) -> F {
        self.resolve_fn
    }
}

impl<F> ConflictResolver<String> for ManualResolver<F> where
    F: Fn(&LWWRegister<String>, &LWWRegister<String>) -> LWWRegister<String>,
 {
    fn resolve(&self, local: &LWWRegister<String>, remote: &LWWRegister<String>) -> (r:
        LWWRegister<String>)
        ensures
            call_ensures(self.function(), (local, remote), r),
    {
        proof {
            use_type_invariant(self);
        }
        (self.resolve_fn)(local, remote)
    }
}

} // verus!

//! Capture of the process environment through `fakeenv`.
//!
//! The whole environment is read once into a plain vector of (name, value)
//! pairs; everything downstream works on that snapshot and is verified for
//! every snapshot whatever the process environment held.

use vstd::prelude::*;

verus! {

/// Declares `fakeenv::EnvStore`, the handle to a real or fake process
/// environment, so that a value of it can be passed to the capture below.
#[verifier::external_type_specification]
#[verifier::external_body]
pub struct ExEnvStore(fakeenv::EnvStore);

/// Relies on `fakeenv::EnvStore::fake`: a store holding a private copy of
/// the process environment, detached from later changes to it.  Nothing is
/// assumed of the store's contents.
#[verifier::external_body]
fn fake_store() -> fakeenv::EnvStore {
    fakeenv::EnvStore::fake()
}

/// Relies on `fakeenv::EnvStore::vars_os`: one (name, value) pair for each
/// variable of the store's snapshot.  Names and values are carried over
/// lossily where they are not valid unicode.  Nothing is assumed of the
/// result: every caller is verified for an arbitrary snapshot.
#[verifier::external_body]
fn store_vars(store: &fakeenv::EnvStore) -> Vec<(String, String)> {
    store.vars_os().map(
        |pair| (pair.0.to_string_lossy().into_owned(), pair.1.to_string_lossy().into_owned()),
    ).collect()
}

/// Takes one snapshot of the process environment.
pub fn capture_env() -> Vec<(String, String)> {
    let store = fake_store();
    store_vars(&store)
}

} // verus!

//! Opaque descriptive records.
//!
//! These values describe the instrumented process (its language, runtime,
//! host, and so on). The delivery pipeline never inspects them: each one
//! carries the JSON text of an already-assembled object and is threaded
//! through to the caller's metadata untouched.

use vstd::prelude::*;

verus! {

/// The language of the instrumented service, as assembled JSON text.
pub struct Language {
    pub json: String,
}

/// The runtime of the instrumented service, as assembled JSON text.
pub struct Runtime {
    pub json: String,
}

/// The framework of the instrumented service, as assembled JSON text.
pub struct Framework {
    pub json: String,
}

/// The service node descriptor, as assembled JSON text.
pub struct ServiceNode {
    pub json: String,
}

/// The process descriptor, as assembled JSON text.
pub struct Process {
    pub json: String,
}

/// The host system descriptor, as assembled JSON text.
pub struct System {
    pub json: String,
}

/// The user descriptor, as assembled JSON text.
pub struct User {
    pub json: String,
}

/// The cloud-environment descriptor, as assembled JSON text.
pub struct Cloud {
    pub json: String,
}

} // verus!

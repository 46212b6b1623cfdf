//! Identity records describing the benchmark target and the harness host.

use vstd::prelude::*;

verus! {

/// Git identity of the client under test.
#[derive(Debug)]
pub struct Git {
    pub branch: String,
    pub commit: String,
}

/// Operating-system identity.
#[derive(Debug)]
pub struct Os {
    pub family: String,
}

/// Service identity: type, name, version and git identity.
#[derive(Debug)]
pub struct Service {
    pub ty: String,
    pub name: String,
    pub version: String,
    pub git: Git,
}

/// Language runtime of the harness itself.
#[derive(Debug)]
pub struct Runtime {
    pub name: String,
    pub version: String,
}

/// The system under test.
#[derive(Debug)]
pub struct Target {
    pub service: Service,
    pub os: Os,
}

/// The host that drives the benchmark: the same service identity plus the
/// harness's own runtime.
#[derive(Debug)]
pub struct Runner {
    pub service: Service,
    pub runtime: Runtime,
    pub os: Os,
}

} // verus!

//! The capability tags an agent may advertise.
//!
//! The set of tags is open: a tag that is not listed here is carried
//! untouched.

use vstd::prelude::*;

verus! {

/// The agent runs the registrar.
pub const REGISTRAR: &'static str = "registrar";

/// The agent serves the `node.package` request family.
pub const NODE_PACKAGE: &'static str = "node.package";

/// The agent serves the `node.enroll` request family.
pub const NODE_ENROLL: &'static str = "node.enroll";

/// The agent supervises the rollback of a failed update.
pub const ROLLBACK_SUPERVISOR: &'static str = "rollback-supervisor";

/// The agent runs on the host of the manager.
pub const COLOCATED_REVIEW: &'static str = "colocated:review";

/// The agent runs on the host of the web front end.
pub const COLOCATED_AICE_WEB_NEXT: &'static str = "colocated:aice-web-next";

} // verus!

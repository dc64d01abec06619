//! Resource-declaration and fetch protocol for schedulable tasks.
//!
//! Units of work ("tasks") declare, ahead of execution, which shared
//! resources they read and which they mutate, so that an external
//! scheduler can decide -- without running any task -- which tasks may
//! execute concurrently and which must be serialized.  The declarations
//! are a contract: a bundle type's declared read and write sets must be
//! exactly the resources its fetch operation accesses.  Here that
//! contract is stated in specifications and proved, rather than left as
//! a documented obligation.

pub mod bundles;
pub mod conflict;
pub mod resource;
pub mod task;

pub use resource::{ResourceId, Resources};
pub use task::{Closure, Task, TaskData};


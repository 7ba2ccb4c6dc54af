//! A remote-process control engine: it attaches to a running process,
//! reads and writes its memory, and makes it execute kernel syscalls on
//! behalf of the controller, using the host's tracing facility as the
//! transport. Alongside the engine live a handful of small verified data
//! structures: a growable arena with stable handles, single-value and
//! counted borrow cells, and string splitting utilities.

pub mod arena;
pub mod bytes;
pub mod cell;
pub mod errors;
pub mod host;
pub mod protocol;
pub mod refcell;
pub mod regs;
pub mod scrape;
pub mod strsplit;
pub mod strtok;
pub(crate) mod trace;

// Lifecycle supervision for a bundled backend executable ("sidecar").
//
// A desktop shell launches a long-running backend executable as a child
// process and either forgets the handle (fire-and-forget) or keeps it and
// relays every line the child writes to a log sink (supervised).  This
// library holds the verified core of that supervisor: the child-process
// state machine, the log sink with its per-stream ordering guarantees, and
// the validation of the child's output as UTF-8 text.  The operating-system
// calls themselves (spawning, reading the pipes, killing) happen outside the
// library; their outcomes are handed in as plain values.

pub mod errors;
pub mod sink;
pub mod supervisor;
pub mod text;

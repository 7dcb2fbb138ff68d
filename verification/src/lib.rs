// A runtime supervisor: locates a backend runtime on disk (development
// virtual environment or bundled distribution), plans its launch, and
// tracks the supervised child process so that termination at shutdown is
// race-free and idempotent. The host shell performs the actual OS calls;
// every decision it acts on is made and verified here.

pub mod errors;
pub mod locator;
pub mod supervisor;

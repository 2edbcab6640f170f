//! Erase-job engine: job registry, erase-method selection, multi-pass
//! overwrite planning with progress accounting, post-erase digests and
//! erasure certificates.

mod certificate;
mod clock;
mod digest;
mod execution;
mod method;
mod notify;
mod overwrite;
mod registry;
mod text;

pub use certificate::{build_certificate, Certificate};
pub use clock::{seconds_or_zero, timestamp};
pub use digest::{digest_hex, verification_digest};
pub use execution::{lemma_terminal_and_finish, lemma_unauthorized_run_overwrites, Event, FailReason,
    Phase,
};
pub use method::{
    ata_erase_succeeded, ata_security_supported, lemma_unauthorized_never_hardware, plan_hardware, select_method,
    HardwarePlan, Method, Profile,
};
pub use notify::Notice;
pub use overwrite::{
    chunk_bytes, lemma_pass_covers_target, lemma_progress_within_pass, lemma_quick_single_zero_pass,
    lemma_secure_three_passes, pass_progress, passes, progress_message, Chunk,
    Overwrite, Pass, Pattern, CHUNK_SIZE, FULL_PROGRESS, RUNNING_CEILING, START_PROGRESS,
};
pub use registry::{lemma_progress_monotone, not_found_message, Job, JobState, Registry, SubmitError};
pub use text::{contains_bytes, str_equals};

// Command-invocation and process-orchestration layer of an audio-to-subtitle
// desktop backend. The library validates a conversion request, derives the
// subtitle output location from the input location, builds the exact argument
// vector for the external transcription pipeline, and maps the observed
// process outcome into a structured result or error. A second component
// builds the platform-appropriate file-manager "reveal" invocation. Running
// the external processes is left to the surrounding application shell; every
// decision about what to run and what to report is made here, under contract.

pub mod convert;
pub mod invocation;
pub mod numeral;
pub mod pathname;
pub mod reveal_dispatch;

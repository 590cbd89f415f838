pub mod analysis;
pub mod capability;
pub mod caps;
pub mod evidence;
pub mod evidence_helpers;
pub mod inspect;
pub mod kconfig;
pub mod kernel;
pub mod ranking;
pub mod scan;
pub mod seqs;
pub mod snapshot;
pub mod text;
pub mod update;

//! Verified core of an osu!standard difficulty and performance evaluator.
//!
//! The library holds the discrete parts of the pipeline: object kinds and
//! counts, the index plan that links each difficulty object to its
//! predecessors, the wall-clock section bookkeeping shared by every strain
//! skill, the offbeat/doubles state machine of the rhythm-complexity skill,
//! the score bookkeeping of the performance calculator, mod decisions and the
//! aim variants.
pub mod aim_type;
pub mod objects;
pub mod rhythm;
pub mod score;
pub mod sections;
pub mod mods;

//! Latency and reliability benchmarking of a blockchain node's RPC endpoint:
//! the probe battery, the per-probe runner, the join of concurrent units and
//! the aggregation of a session into a ranked report.

mod health;
mod laws;
mod outcome;
mod probe;
mod rating;
mod session;
mod stats;
mod summary;

pub use outcome::{block_target_slot, Outcome, BLOCK_SLOT_MARGIN};
pub use probe::{planned_invocations, registry, ProbeKind, PROBE_COUNT};
pub use rating::{get_speed_rating, rate_band, RateBand, SpeedRating};
pub use summary::{failure_messages, summarize, summarize_probe, ProbeSummary, SessionSummary};
pub use session::{join_units, Runner, UnitReport};
pub use laws::{lemma_full_batteries, lemma_overall_pools_probes, lemma_no_success_ranks_last, lemma_session_length, lemma_success_rate, lemma_summary_order_independent};
pub use health::{health_outcome, health_verdict};

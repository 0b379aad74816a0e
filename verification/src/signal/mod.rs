//! Signals, the combinators that derive one signal from others, the adapter
//! that turns a signal into a stream, and the mutable variable that feeds a
//! signal graph from outside.

mod always;
mod filter_map;
mod flatten;
mod map;
mod map2;
mod map_dedupe;
mod shared;
mod state;
mod stream;
mod traits;
pub mod unsync;

pub use self::always::{always, Always};
pub use self::filter_map::{
    lemma_filter_map_reports_what_was_kept, lemma_one_empty_event, FilterMap,
};
pub use self::flatten::{lemma_switch_does_not_force_a_report, switched, Flatten};
pub use self::map::{lemma_map_passes_no_change, Mapped};
pub use self::map_dedupe::{lemma_dedupe_reports_only_new_values, told_apart, MapDedupe};
pub use self::map2::{
    combined_by, count_changed, count_due, due, latest, lemma_map2_never_drops_an_update,
    pair_clone, pairs_up, seen, Map2,
};
pub use self::shared::Unconstrained;
pub use self::state::State;
pub use self::stream::{
    drop_handle, lemma_stop_is_final, step_of, Async, DropHandle, DropStream, Flag, SignalStream,
};
pub use self::traits::{is_run, polled_from, Signal, SignalExt, REDRIVE_LIMIT};

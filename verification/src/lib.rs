//! Core of a donation platform: a donor moves value to a streamer, an
//! immutable per-donation record is persisted, and a shared aggregate is
//! updated, in a strict order that keeps the durable state consistent even
//! when the value transfer fails.
//!
//! The value-transfer service, the clock oracle and the event sink are
//! external collaborators: the processor here decides what to do, states the
//! transfer to perform, and settles the durable state once the outcome of
//! the transfer is known. The surrounding runtime performs the transfer,
//! reads the clock and broadcasts the returned event.

pub mod processor;
pub mod records;

pub use processor::begin_donation;
pub use processor::initialize;
pub use processor::make_donation;
pub use records::Donation;
pub use records::DonationError;
pub use records::DonationEvent;
pub use records::Identity;
pub use records::StroompConfig;
pub use records::TransferOrder;
pub use records::TransferOutcome;

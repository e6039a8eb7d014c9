//! A terminal resource monitor for a hardware-enforced secure-enclave
//! subsystem. The library holds the verified core: converting raw kernel
//! units into kilobyte quantities, decoding enclave lifecycle bitmasks,
//! parsing the two kernel statistics streams, deriving per-second rates
//! from consecutive cumulative samples, laying out the dashboard text, and
//! the event-driven state machine that decides when the session ends.

pub mod flags;
pub mod memory;
pub mod parse;
pub mod rates;
pub mod records;
pub mod render;
pub mod text;
pub mod ui;

pub use flags::EnclaveState;
pub use flags::LifecycleFlag;
pub use memory::Memory;
pub use parse::ParseError;
pub use rates::RateTracker;
pub use rates::Rates;
pub use records::Enclave;
pub use records::GlobalSnapshot;
pub use render::Frame;
pub use ui::KeyPress;
pub use ui::UiAction;
pub use ui::UiEvent;
pub use ui::UiState;

//! A temporary exclusive mutable view into a reference-counted cell.
//!
//! A shared-ownership cell normally hands out its pointee by immutable
//! reference only, because other owners could observe a mutation. This crate
//! adds one capability to such a cell: when the caller holds the only strong
//! (owning) reference, it may open a scoped window of exclusive mutable
//! access. While the window is open the cell's strong count is held at zero,
//! so a weak (observing) reference that tries to upgrade fails, exactly as if
//! the pointee were gone; when the window closes, the count is restored to
//! one and upgrades succeed again, now yielding the mutated pointee.

mod laws;
mod layout;
mod rc_box;

pub use laws::lemma_open_window_suppresses_upgrade;
pub use laws::lemma_restored_block_admits_upgrade;
pub use layout::data_offset_align;
pub use layout::data_offset_of;
pub use layout::data_offset_spec;
pub use layout::header_size;
pub use layout::lemma_data_offset_aligned;
pub use layout::lemma_data_offset_minimal;
pub use rc_box::BorrowRefMut;
pub use rc_box::OtherStrongReferencesExist;
pub use rc_box::RcBorrowMut;
pub use rc_box::RcBox;

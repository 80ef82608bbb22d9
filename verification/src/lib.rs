//! Converter between the two physical layouts of a fixed-size save file:
//! the console layout and the PC-editable layout.
//!
//! The library holds the layout geometry, the 8-byte marker codec, and the
//! two byte-layout transforms (console to editor and back). File reading and
//! writing, argument handling and foreign bindings live outside the library;
//! spilled bytes travel in and out of the transforms as plain values.

pub mod constants;
pub mod marker;
pub mod utils;
pub mod conversion;

pub use marker::has_any_marker_at_08;
pub use marker::has_dual_magic;
pub use marker::has_magic_at;
pub use marker::looks_like_v2;
pub use marker::make_marker;
pub use marker::try_read_marker;
pub use conversion::convert_auto;
pub use conversion::pcready_to_ps4;
pub use conversion::ps4_to_pcready;
pub use utils::all_zero;
pub use utils::append_zeros;
pub use utils::sha1_hex;

//! A safe, verified front for a desktop "application indicator" (system-tray
//! icon) facility.
//!
//! The crate keeps a plain-value model of the indicator's observable state
//! (category, status, the various name and label strings, the attached menu
//! reference) and proves how every operation reads or changes that state.
//! The byte-level boundary work — turning an optional, possibly ill-formed
//! native C string into validated text or a typed [`Error`] — is verified
//! here as well.  The process that actually talks to the native library
//! forwards each call and hands this crate the plain values.

mod codes;
mod error;
mod indicator;
mod text;

pub use codes::AppIndicatorCategory;
pub use codes::AppIndicatorStatus;
pub use codes::lemma_category_code_injective;
pub use codes::lemma_status_code_injective;
pub use error::Error;
pub use error::ErrorReason;
pub use indicator::AppIndicator;
pub use indicator::IndicatorView;
pub use indicator::MenuRef;
pub use indicator::WidgetRef;
pub use indicator::lemma_category_fixed;
pub use indicator::lemma_menu_round_trip;
pub use indicator::lemma_status_round_trip;
pub use indicator::lemma_title_round_trip;
pub use text::cstr_to_string;
pub use text::decoded_chars;
pub use text::is_utf8_cont;
pub use text::is_valid_utf8;
pub use text::lemma_ascii_decodes_to_itself;
pub use text::lemma_ascii_is_valid_utf8;
pub use text::utf8_char_len;
pub use text::utf8_encoding_valid;
pub use text::utf8_scalar_value;
pub use text::utf8_seq_valid;

pub mod confirm;
pub mod diagnostics;
pub mod exclusion;
pub mod i18n;
pub mod in_flight;
pub mod ocr;
pub mod packs;
pub mod snip;
pub mod text;
pub mod window_state;

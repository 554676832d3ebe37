//! The core of a tray utility that switches a desktop between its light and
//! its dark appearance.
//!
//! The appearance is persisted as an integer flag in two named fields of a
//! configuration store: `0` stands for dark, every other value for light, and
//! a flag that cannot be read counts as light. A click on the tray indicator
//! switches once: it opens the external theme resource given for the target
//! mode or, where none was given, writes the flag of the target mode. The
//! indicator then shows the glyph of the mode that the next click leads to.
//!
//! Nothing here touches the desktop. [`PersistedAppearance`] and
//! [`SystemTray`] hold as plain values what the store and the indicator
//! hold. A program reads the store, asks for the decision and carries it
//! out.

pub mod laws;
pub mod store;
pub mod switch;
pub mod theme;
pub mod tray;

pub use store::PersistedAppearance;
pub use switch::SwitchAction;
pub use theme::ThemeMode;
pub use tray::{Glyph, SystemTray, TOOLTIP};

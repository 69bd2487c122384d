//! Verified models of Elden Ring's native menu-manager, message-repository
//! and system-step structures: checked views of their raw state words and
//! bitfields, the child-step accessors of the boot step tree, the
//! indexed-state table of the menu manager, and the text the debug panels
//! render from raw values.

pub mod bits;
pub mod debug_menu;
pub mod display_text;
pub mod menu_man;
pub mod msg_repository;
pub mod ptr;
pub mod rva;
pub mod system_step;

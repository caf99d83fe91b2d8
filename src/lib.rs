//! A tabbed terminal shell with one text field: the tab selection, the
//! text-editing component and the key routing between them, with their
//! contracts proved.

pub mod keys;
pub mod shell;
pub mod tabs;
pub mod textinput;

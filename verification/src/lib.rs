//! barkdocs: the core of a Markdown viewer for the terminal.
//!
//! Markdown text is parsed into a document of blocks ([`assembler`],
//! [`markdown`]), the blocks are rendered into a buffer of styled lines
//! ([`render`], [`style`], [`theme`], [`highlight`]), and the buffer is
//! searched ([`search`]) and shown in panes ([`app`], [`display`]). The state
//! of the viewer and what the keys do to it is in [`app`], [`documents`],
//! [`overlays`] and [`input`]. What holds of every document and every buffer
//! is proved in [`laws`].
//!
//! The library reads no file, no clock but for the time of a visit, no
//! clipboard and no network: a program around it does, and hands it plain
//! values.

pub mod app;
pub mod assembler;
pub mod config;
pub mod display;
pub mod documents;
pub mod events;
pub mod github;
pub mod highlight;
pub mod input;
pub mod laws;
pub mod layout;
pub mod markdown;
pub mod overlays;
pub mod render;
pub mod search;
pub mod storage;
pub mod style;
pub mod text;
pub mod theme;

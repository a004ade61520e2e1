//! An embeddable VT core's interface, with its encodings proved.
//!
//! Feed bytes in, read a grid out. The terminal owns no pty and spawns no
//! child: replies it generates (DA, DSR, ...) queue up until they are
//! drained, and it is the caller's job to forward those to whatever is on
//! the other end. Input goes the same way: key, text, mouse and paste events
//! are encoded by the terminal by whatever protocol the application
//! negotiated, and the bytes join the same reply queue.
//!
//! This crate holds what the embedder side decides and decodes: the cell,
//! colour, attribute and mode encodings the facade hands out ([`cell`],
//! [`state`]), the key and modifier codes it takes in ([`input`]), the
//! callback bookkeeping ([`events`]), reply draining ([`replies`]) and the
//! argument rules of the terminal wrapper ([`terminal`]). The raw records and
//! constants of the facade's ABI are in [`sys`].
#![allow(non_camel_case_types)]

pub mod bits;
pub mod cell;
pub mod events;
pub mod input;
pub mod replies;
pub mod state;
pub mod sys;
pub mod terminal;

pub use cell::{Attributes, Cell, ColorSource, Rgb};
pub use events::Events;
pub use input::{InputCall, Key, KeyAction, KeyEvent, Modifiers, MouseButton};
pub use replies::ReplyDrain;
pub use state::{Cursor, Memory, Modes};

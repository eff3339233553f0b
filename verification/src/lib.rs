//! Decoding and validation of the header chunk of a Standard MIDI File.
//!
//! [`MIDIFile::new`] takes the bytes of a file and decodes the fourteen bytes
//! of its `MThd` chunk. What counts as a header, and what is reported of bytes
//! that are none, is defined by [`header::decode_header`]; the module `laws`
//! states what follows from that definition.

pub mod encoding;
pub mod error;
pub mod header;
pub mod laws;
pub mod midi_file;
pub mod options;

pub use error::HeaderError;
pub use header::{DecodedHeader, DivisionKind, FileFormat};
pub use midi_file::MIDIFile;
pub use options::Options;

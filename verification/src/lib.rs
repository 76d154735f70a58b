//! A verified orchestration layer for streaming video decoding.
//!
//! The heavy lifting — bitstream parsing and H.264 decoding — is done by an
//! external codec library that the surrounding application calls through its
//! foreign interface.  What this crate verifies is everything the application
//! itself decides: the chunked feed loop that offers input bytes to the
//! parser, the submit/drain protocol that pulls decoded frames out of the
//! decoder, the frame numbering, and the exact bytes of the raw grayscale
//! (PGM) images written for each frame.
//!
//! [`driver`] holds the run state machine: the caller performs each returned
//! [`driver::Action`] against the codec library and feeds the outcome back as
//! the next [`driver::Event`].  [`pgm`] builds the output image bytes.

pub mod driver;
pub mod pgm;

//! A small verified library behind a command-line tool that fetches a named
//! `.gitignore` template from a repository-hosting API, decodes its base64
//! payload, and writes it to `./.gitignore` after an overwrite prompt.
//!
//! The library holds the pipeline's logic: selecting the template from the
//! argument list, building the request URL, stripping whitespace from the
//! payload, decoding it, and deciding whether the file may be written. The
//! surrounding binary performs the network call, the prompt, and the file
//! write.

pub mod cli;
pub mod codec;
pub mod remote;
pub mod text;

//! Client-side access to the HTTP control API of an IPFS daemon.
//!
//! The crate reads content identifiers and paths, finds the daemon's local
//! endpoint from its address descriptor, frames uploads as multipart bodies
//! and plans one HTTP request per daemon operation. It reads no file and
//! sends nothing: the caller hands in what the descriptor file holds, sends
//! the planned request and reports back how that went.
//!
//! Every function has a contract that Verus proves. Hexadecimal, content
//! identifiers, multi-protocol addresses, URLs, media types and random
//! characters come from the crates `hex`, `cid`, `multiaddr`, `url`, `mime`
//! and `rand`: each call into them stands in a small function of its own
//! whose contract is taken on trust and says so.

pub mod error;
pub mod text;
pub mod digest;
pub mod path;
pub mod location;
pub mod endpoint;
pub mod multipart;
pub mod api;

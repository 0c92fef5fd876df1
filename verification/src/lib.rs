//! Netfilter connection tracking over netlink.
//!
//! The crate holds the attribute layer of the conntrack netlink protocol:
//! nested type-length-value attributes, the messages that ask the kernel to
//! dump its table or to delete entries from it, and the decoding of dumped
//! entries into flows. Everything works on plain bytes; the socket that
//! carries them belongs to the caller.
//!
//! * [`attribute`]: one attribute, how it is built and how it is encoded.
//! * [`codec`]: decoding a run of attributes, and lookup by type code.
//! * [`flow`]: from the attributes of a dumped entry to a [`Flow`].
//! * [`command`]: the attribute that says which entries to delete.
//! * [`message`]: requests for the kernel, and the entries of a dump.
//! * [`laws`]: what holds between encoding, decoding and lookup.

pub mod attribute;
pub mod codec;
pub mod codes;
pub mod command;
pub mod error;
pub mod flow;
pub mod laws;
pub mod message;
pub mod model;
pub mod wire;

pub use attribute::{make_attribute, Attribute, AttributeConfig, IntoBuffer};
pub use codec::{decode, AttributeTree};
pub use command::{build_delete, Command};
pub use error::{AttributeBuildError, DecodeError};
pub use flow::{decode_flow, decode_tuple};
pub use message::{
    decode_dump, decode_entry, delete_request, dump_request, DumpFailure, DumpReport, Request,
};
pub use model::{Flow, IpAddress, Tuple};

//! Resolution of the absolute filesystem path of the currently running
//! executable image.
//!
//! There is no portable API for this query: Linux, DragonFly and NetBSD
//! expose the path as a pseudo-filesystem symbolic link, FreeBSD answers a
//! kernel-management query, Darwin offers a dynamic-loader call, illumos and
//! Solaris hand out a pointer into kernel-owned memory, and Windows fills a
//! caller-supplied buffer that must be grown until the path fits.
//!
//! Each strategy splits into two halves. The single OS call — inherently
//! unsafe foreign code — lives in the thin platform layer that accompanies
//! this crate. Everything that can be wrong in subtler ways lives here, as
//! verified code: deciding from the call's observed outcome whether the query
//! failed, how many bytes of the buffer are valid, what the caller receives,
//! and, for Windows, the whole capacity-doubling retry protocol.

pub mod dyld;
pub mod error;
pub mod kernel_string;
pub mod link;
pub mod negotiate;
pub mod sysctl;

pub use error::OsError;

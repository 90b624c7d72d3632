//! Page resolver for a web4 gateway: classifies request paths, negotiates
//! which external content-store keys must be preloaded, and synthesizes the
//! final HTML or javascript document from registry data and preloaded content.
use vstd::prelude::*;

pub mod codec;
pub mod community;
pub mod project;
pub mod escape;
pub mod registry;
pub mod resolver;
pub mod strutil;

verus! {

/// The fixed account that hosts shared web4 resources such as the browser
/// client script.
pub const WEB4_RESOURCE_ACCOUNT: &'static str = "devhub.near";

} // verus!

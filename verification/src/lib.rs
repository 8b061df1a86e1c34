//! A verified core for a utility-class styled markup UI description.
//!
//! The crate turns a restricted HTML/XML document annotated with
//! utility-class tokens (`flex`, `w-[120px]`, `bg-[#1a2b3c]`, ...) into a
//! typed tree of UI nodes carrying fully resolved style records.
//!
//! The pipeline has three verified stages:
//! 1. the style resolver ([`tailwind::Style::parse`]) maps a class-attribute
//!    string to a [`tailwind::Style`] record with last-token-wins conflict
//!    resolution and per-edge shorthand updates;
//! 2. the node converter ([`dom::XNode::convert`]) maps a generic attributed
//!    markup tree ([`raw::RawElement`]) to the closed node variant set
//!    {Container, Text, Image, Button};
//! 3. the resolution pass ([`dom::XNode::resolve`]) fills in resource
//!    handles for images and threads a single default font down the tree.
//!
//! The only unverified boundary is the thin layer over the XML parser in
//! [`xml`], which extracts a plain [`raw::RawDocument`] from parsed XML.

pub mod document;
pub mod dom;
pub mod grammar;
pub mod raw;
pub mod registry;
pub mod resource;
pub mod tailwind;
pub mod walk;
pub mod xml;

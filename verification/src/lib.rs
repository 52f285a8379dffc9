//! Typed markup trees and their rendering to text.
//!
//! A tree is built from elements ([`tags::div`], [`tags::span`], [`tags::html`]),
//! text leaves ([`tags::Text`]) and attributes ([`attributes`]). Marker traits
//! decide at compile time which attributes and which children an element may
//! hold. Rendering is specified by the `markup` spec functions, and every
//! executable renderer is proved to return exactly that text.
pub mod attributes;
pub mod tags;

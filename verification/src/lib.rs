//! A model of an Objective-C-style native object bridge: reference-counted
//! ownership wrappers over opaque native handles, typed collection wrappers,
//! and a string bridge that converts between host UTF-8 text and native
//! UTF-16 code units.

pub mod appkit;
pub mod foundation;
pub mod natural_language;
pub mod runtime;

//! Types of the merchant-facing surface.

pub mod definitions;

//! Conversion engine for a Kubernetes custom-resource conversion webhook.
//!
//! The engine is a pure, stateless transform: it receives a batch of raw
//! resource objects together with a desired target version, and returns each
//! object rewritten to that version, or a precise failure. The migration rule
//! moves `spec.secretName` into the version-specific sub-objects
//! (`spec.kafka`, `spec.openSearch`) when converting forward.

pub mod adapter;
pub mod object;
pub mod transform;
pub mod version;

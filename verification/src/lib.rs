use vstd::prelude::*;

pub mod backup;
pub mod bootstrap;
pub mod commands;
pub mod decimal;
pub mod evaluate;
pub mod flake;
pub mod flake_hash;
pub mod installed;
pub mod launch;
pub mod nix;
pub mod paths;
pub mod releases;
pub mod revs;
pub mod screens;
pub mod settings;
pub mod sources;
pub mod text;
pub mod window;
pub mod wine;

verus! {

/// Steam application id of Titanfall 2.
pub const TITANFALL_ID: u32 = 1237970;

} // verus!

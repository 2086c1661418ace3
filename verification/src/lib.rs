//! Navigation engine of a small space-exploration game.
//!
//! A player steers a cursor over a galactic map, holds the confirm key to
//! warp the ship to the cursor, arrives at solar systems, and visits their
//! planets to collect crystals, fuel and components. The maps report what
//! happened as events, and the session books the events into the player's
//! account and the galaxy.
//!
//! Positions are whole numbers of coordinate steps, a thousand to the map
//! unit, and times are whole nanoseconds, so that every rule is exact.
//!
//! Every type has a model (its view), the rules are spec functions on the
//! models, and every function states in `requires` / `ensures` what it does
//! to the model. What holds of whole gestures is stated and proved in
//! [`components::gesture`].
//!
//! - [`util`]: distances on the plane, and the events.
//! - [`objects`]: planets and solar systems.
//! - [`components::galaxy_map`]: the galactic map and the warp between
//!   positions.
//! - [`components::star_map`]: the map of one system and the warp between
//!   planets.
//! - [`app`]: the session, with the menu and the booking of events.
//! - [`login`]: the login screen.
//! - [`user`], [`storage`]: the player's account and the saved state.
//! - [`input`], [`clock`]: keys and time.

pub mod app;
pub mod clock;
pub mod components;
pub mod input;
pub mod login;
pub mod objects;
pub mod storage;
pub mod user;
pub mod util;

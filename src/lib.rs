//! Spritesheet composition: a declarative description of a grid of renders of
//! one scene, seen from a catalog of view directions at evenly spaced animation
//! poses, with the layout arithmetic and the error reporting around it.
//! Rendering the requests and writing the image are left to a backend.
pub mod query;
pub mod layout;
pub mod sprites;
pub mod resolve;

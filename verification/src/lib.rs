use vstd::prelude::*;

pub mod api;
pub mod client;
pub mod codes;
pub mod combobox;
pub mod daily;
pub mod feedback;
pub mod game;
pub mod mode;
pub mod play;
pub mod random;
pub mod score;
pub mod scoring;
pub mod seed;
pub mod sets;
pub mod store;
pub mod text;
pub mod types;
pub mod wikipedia;

verus! {

} // verus!

//! The decision core of a tiling Wayland compositor.
use vstd::prelude::*;

pub mod assoc;
pub mod backend;
pub mod cli;
pub mod config;
pub mod egui;
pub mod focus;
pub mod focus_target;
pub mod frame_clock;
pub mod geometry;
pub mod handlers;
pub mod input;
pub mod ipc;
pub mod output;
pub mod seqs;
pub mod state;
pub mod text;
pub mod time;

verus! {

} // verus!

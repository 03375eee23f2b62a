//! The protocols that clients speak.
pub mod background_effect;
pub mod compositor;
pub mod dnd;
pub mod foreign_toplevel_list;
pub mod fractional_scale;
pub mod gamma_control;
pub mod idle_inhibit;
pub mod layer_shell;
pub mod pointer_constraints;
pub mod screencopy;
pub mod seat;
pub mod session_lock;
pub mod xdg_activation;
pub mod xdg_dialog;
pub mod xdg_shell;

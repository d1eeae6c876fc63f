//! A status-bar utility modelled as a controller: the launch hook, the
//! menu-open hook and the menu's actions each take the controller's state to
//! a new state and to the commands that the host toolkit carries out.

pub mod clock;
pub mod delegate;
pub mod menu;

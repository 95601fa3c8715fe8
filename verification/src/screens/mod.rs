//! The screens of the `nia` player: their state, what they show and how
//! they react to clicks and to the server's replies.

pub mod album_screen;
pub mod login_screen;
pub mod main_screen;

pub use album_screen::{AlbumScreen, AlbumView};
pub use login_screen::{LoginRequest, LoginScreen, TextInput};
pub use main_screen::{MainRoute, MainScreen, MainView};

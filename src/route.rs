use vstd::prelude::*;

verus! {

/// The mutually exclusive screens of the application.
#[derive(Clone, Copy, Debug, PartialEq, Eq, Structural)]
pub enum Route {
    Intro,
    MainMenu,
    CharacterCreator,
    LoadGame,
    Settings,
}

/// What a route's interaction handler decided to do about one click.
#[derive(Clone, Copy, Debug, PartialEq, Eq, Structural)]
pub enum Action {
    /// The click is acknowledged and nothing changes.
    Nothing,
    /// Tear down the active route and activate the given one.
    Navigate(Route),
    /// Ask the application to terminate.
    Exit,
}

} // verus!

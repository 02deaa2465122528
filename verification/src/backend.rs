//! The sets of backends that a player is built from. A front end names one
//! type for each service; the player reaches them through these traits.
use vstd::prelude::*;

verus! {

/// The backends that the core of the player is generic over.
pub trait Backends {
    type Audio;
    type Navigator;
    type Renderer;
    type Input;
}

/// A front end's backends, and access to each of them.
pub trait Backend {
    type Audio;
    type Log;
    type Navigator;
    type Renderer;
    type Storage;
    type Ui;
    type Video;

    fn audio(&self) -> &Self::Audio;

    fn audio_mut(&mut self) -> &mut Self::Audio;

    fn log(&self) -> &Self::Log;

    fn log_mut(&mut self) -> &mut Self::Log;

    fn navigator(&self) -> &Self::Navigator;

    fn navigator_mut(&mut self) -> &mut Self::Navigator;

    fn renderer(&self) -> &Self::Renderer;

    fn renderer_mut(&mut self) -> &mut Self::Renderer;

    fn storage(&self) -> &Self::Storage;

    fn storage_mut(&mut self) -> &mut Self::Storage;

    fn ui(&self) -> &Self::Ui;

    fn ui_mut(&mut self) -> &mut Self::Ui;

    fn video(&self) -> &Self::Video;

    fn video_mut(&mut self) -> &mut Self::Video;
}

} // verus!

//! Core logic of a glyph-based 2D game engine: random generators, shape
//! rasterisation, an object pool, an event/timer centre and the start-up
//! configuration, each with a machine-checked contract.
//!
//! Process-wide state of the engine (the configuration, the event centre,
//! the timers, the texture cache) is held in values that the caller owns and
//! passes in.
pub mod audio;
pub mod event;
pub mod event_mutex;
pub mod init;
pub mod render;
pub mod strmap;
pub mod util;

use vstd::prelude::*;

verus! {

/// Target frames per second for the main game loop.
pub const GAME_FRAME: u32 = 60;

/// Frames during which the start-up logo shows in text mode.
pub const LOGO_FRAME: u32 = GAME_FRAME / 4 * 2;

/// Frames during which the start-up logo shows in graphics mode.
pub const GRAPHICS_LOGO_FRAME: u32 = GAME_FRAME / 4 * 5;

/// Game configuration: name and project path.
#[derive(Debug, Clone)]
pub struct GameConfig {
    /// Game name identifier
    pub game_name: String,
    /// Project root path for asset loading
    pub project_path: String,
}

/// Texture data loaded from the symbol atlas before it goes to the GPU.
#[derive(Debug, Clone)]
pub struct PixelTextureData {
    /// Texture width in pixels
    pub width: u32,
    /// Texture height in pixels
    pub height: u32,
    /// Raw RGBA pixel data
    pub data: Vec<u8>,
}

/// The cached texture data; it must have been loaded.
pub fn get_pixel_texture_data(slot: &Option<PixelTextureData>) -> (r: &PixelTextureData)
    requires
        *slot is Some,
    ensures
        *r == (*slot)->0,
{
    slot.as_ref().unwrap()
}

/// Sets the configuration unless one is set already (the first call wins).
pub fn init_game_config(config: &mut Option<GameConfig>, game_name: &str, project_path: &str)
    ensures
        *old(config) is Some ==> *final(config) == *old(config),
        *old(config) is None ==> *final(config) is Some && (*final(config))->0.game_name@ == game_name@
            && (*final(config))->0.project_path@ == project_path@,
{
    if config.is_none() {
        *config = Some(
            GameConfig { game_name: game_name.to_owned(), project_path: project_path.to_owned() },
        );
    }
}

/// The configuration; when none is set, a default one (empty name, project
/// path ".") is set first.
pub fn get_game_config(config: &mut Option<GameConfig>) -> (r: &GameConfig)
    ensures
        *old(config) is Some ==> *final(config) == *old(config),
        *old(config) is None ==> r.game_name@ == Seq::<char>::empty() && r.project_path@ == "."@,
        *final(config) == Some(*r),
{
    if config.is_none() {
        *config = Some(GameConfig { game_name: String::new(), project_path: ".".to_owned() });
    }
    config.as_ref().unwrap()
}

} // verus!

//! Start-up configuration and asset caches.
//!
//! The configuration is set once: the first `init_game_config` wins, and
//! `get_game_config` falls back to a default when nothing was set. The
//! caches are plain values here; a program keeps them where it likes (the
//! engine keeps them in process-wide cells).
use vstd::prelude::*;
use vstd::string::StringExecFns;

verus! {

/// Window display mode for the application.
#[derive(Debug, Clone, Copy, PartialEq, Eq, Structural)]
pub enum WindowMode {
    /// Normal windowed mode
    Window,
    /// Fullscreen stretched to fill the entire screen
    Fullscreen,
    /// Fullscreen with preserved aspect ratio (letterboxing)
    FullscreenFit,
}

impl WindowMode {
    /// Whether the application runs in either fullscreen mode.
    pub fn is_fullscreen(&self) -> (r: bool)
        ensures
            r == (*self is Fullscreen || *self is FullscreenFit),
    {
        match self {
            WindowMode::Fullscreen | WindowMode::FullscreenFit => true,
            WindowMode::Window => false,
        }
    }

    /// Whether the aspect ratio is preserved (letterboxing).
    pub fn is_fit(&self) -> (r: bool)
        ensures
            r == (*self is FullscreenFit),
    {
        match self {
            WindowMode::FullscreenFit => true,
            _ => false,
        }
    }
}

impl Default for WindowMode {
    fn default() -> (r: Self)
        ensures
            r == WindowMode::Window,
    {
        WindowMode::Window
    }
}

/// High-level runtime mode for an application.
#[derive(Debug, Clone, Copy, PartialEq, Eq, Structural)]
pub enum RunMode {
    /// The 2D/TUI runtime.
    TwoD,
    /// The voxel-oriented 3D runtime.
    ThreeD,
}

impl Default for RunMode {
    fn default() -> (r: Self)
        ensures
            r == RunMode::TwoD,
    {
        RunMode::TwoD
    }
}

/// Game configuration, set once at start-up.
#[derive(Debug, Clone)]
pub struct GameConfig {
    /// Game name identifier
    pub game_name: String,
    /// Project root path for asset loading
    pub project_path: String,
    /// Window display mode
    pub window_mode: WindowMode,
    /// High-level render/runtime mode
    pub run_mode: RunMode,
}

/// The configuration made of the given parts.
pub open spec fn config_is(
    c: GameConfig,
    game_name: Seq<char>,
    project_path: Seq<char>,
    window_mode: WindowMode,
    run_mode: RunMode,
) -> bool {
    &&& c.game_name@ == game_name
    &&& c.project_path@ == project_path
    &&& c.window_mode == window_mode
    &&& c.run_mode == run_mode
}

/// What `init_game_config` does to the configuration cell: an empty cell
/// gets the configuration made of the given parts, a set one stays.
pub open spec fn config_after_init(
    before: Option<GameConfig>,
    after: Option<GameConfig>,
    game_name: Seq<char>,
    project_path: Seq<char>,
    window_mode: WindowMode,
    run_mode: RunMode,
) -> bool {
    &&& before is Some ==> after == before
    &&& before is None ==> after is Some && config_is(
        after->0,
        game_name,
        project_path,
        window_mode,
        run_mode,
    )
}

/// What `get_game_config` does: a set cell stays and its configuration is
/// returned; an empty one gets the default configuration, which is
/// returned.
pub open spec fn config_read(before: Option<GameConfig>, after: Option<GameConfig>, r: GameConfig) -> bool {
    &&& before is Some ==> after == before
    &&& before is None ==> config_is(r, Seq::empty(), "."@, WindowMode::Window, RunMode::TwoD)
    &&& after == Some(r)
}

/// The first configuration set is the one read back, however many times it
/// is set afterwards: a read after an initialisation of an empty cell gives
/// the parts it was initialised with, and a read after an initialisation of
/// a set cell gives what was set before.
pub proof fn law_first_config_is_read(
    c0: Option<GameConfig>,
    c1: Option<GameConfig>,
    c2: Option<GameConfig>,
    r: GameConfig,
    game_name: Seq<char>,
    project_path: Seq<char>,
    window_mode: WindowMode,
    run_mode: RunMode,
)
    requires
        config_after_init(c0, c1, game_name, project_path, window_mode, run_mode),
        config_read(c1, c2, r),
    ensures
        c0 is None ==> config_is(r, game_name, project_path, window_mode, run_mode),
        c0 is Some ==> r == c0->0,
        c2 == c1,
{
}

/// Sets the configuration unless one is set already (the first call wins).
pub fn init_game_config(
    config: &mut Option<GameConfig>,
    game_name: &str,
    project_path: &str,
    window_mode: WindowMode,
    run_mode: RunMode,
)
    ensures
        config_after_init(*old(config), *final(config), game_name@, project_path@, window_mode, run_mode),
{
    if config.is_none() {
        *config = Some(
            GameConfig {
                game_name: game_name.to_owned(),
                project_path: project_path.to_owned(),
                window_mode,
                run_mode,
            },
        );
    }
}

/// The configuration; when none is set, a default one (empty name, project
/// path ".", windowed, 2D) is set first.
pub fn get_game_config(config: &mut Option<GameConfig>) -> (r: &GameConfig)
    ensures
        config_read(*old(config), *final(config), *r),
{
    if config.is_none() {
        *config = Some(
            GameConfig {
                game_name: String::new(),
                project_path: ".".to_owned(),
                window_mode: WindowMode::Window,
                run_mode: RunMode::TwoD,
            },
        );
    }
    config.as_ref().unwrap()
}

/// Stores the app data passed in at start-up, unless some is stored already.
pub fn set_wasm_app_data(slot: &mut Option<String>, data: &str)
    ensures
        *old(slot) is Some ==> *final(slot) == *old(slot),
        *old(slot) is None ==> *final(slot) is Some && (*final(slot))->0@ == data@,
{
    if slot.is_none() {
        *slot = Some(data.to_owned());
    }
}

/// The app data passed in at start-up, if any.
pub fn get_wasm_app_data(slot: &Option<String>) -> (r: Option<&str>)
    ensures
        r is Some <==> *slot is Some,
        r matches Some(d) ==> d@ == (*slot)->0@,
{
    match slot {
        Some(s) => Some(s.as_str()),
        None => None,
    }
}

/// Layer data for the texture-array mode: square RGBA layers of
/// `layer_size` pixels a side.
#[derive(Debug, Clone)]
pub struct PixelLayerData {
    /// Layer size in pixels (all layers are square)
    pub layer_size: u32,
    /// Raw RGBA data for each layer
    pub layers: Vec<Vec<u8>>,
}

/// Calls `f` on the cached layer data, if there is some.
pub fn with_pixel_layer_data<R, F: FnOnce(&PixelLayerData) -> R>(
    cell: &Option<PixelLayerData>,
    f: F,
) -> (r: Option<R>)
    requires
        *cell matches Some(d) ==> call_requires(f, (&d,)),
    ensures
        r is Some <==> *cell is Some,
        r matches Some(v) ==> call_ensures(f, (&(*cell)->0,), v),
{
    match cell {
        Some(d) => Some(f(d)),
        None => None,
    }
}

/// Releases the cached layer data.
pub fn clear_pixel_layer_data(cell: &mut Option<PixelLayerData>)
    ensures
        *final(cell) is None,
{
    *cell = None;
}

/// The message when the symbol map is not ready.
pub open spec fn no_symbol_map_msg() -> Seq<char> {
    "Layered symbol map not initialized"@
}

/// Caches the layers once the symbol map is ready. `cell_pixel_size` is the
/// cell size that the layered symbol map gives, `None` when the map is not
/// initialised; on success the caller sets the symbol width and height from
/// it.
fn init_pixel_assets_inner(
    cell: &mut Option<PixelLayerData>,
    cell_pixel_size: Option<u32>,
    layer_size: u32,
    layers: Vec<Vec<u8>>,
) -> (r: Result<(), String>)
    ensures
        cell_pixel_size is None ==> r is Err && r->Err_0@ == no_symbol_map_msg()
            && *final(cell) == *old(cell),
        cell_pixel_size is Some ==> r is Ok && *final(cell) == Some(
            PixelLayerData { layer_size, layers },
        ),
{
    match cell_pixel_size {
        None => Err("Layered symbol map not initialized".to_owned()),
        Some(_) => {
            *cell = Some(PixelLayerData { layer_size, layers });
            Ok(())
        },
    }
}

/// The pix directory of the project at `project_path`, with `sep` as the
/// path separator: `{project_path}{sep}assets/pix`.
pub fn app_pix_dir(project_path: &str, sep: &str) -> (r: String)
    ensures
        r@ == project_path@ + sep@ + "assets/pix"@,
{
    let mut r = String::from_str(project_path);
    r.append(sep);
    r.append("assets/pix");
    r
}

/// The path of the layered symbol map in the pix directory `pix`.
pub fn symbol_map_file(pix: &str) -> (r: String)
    ensures
        r@ == pix@ + "/layered_symbol_map.json"@,
{
    let mut r = String::from_str(pix);
    r.append("/layered_symbol_map.json");
    r
}

/// The message when neither pix directory holds a symbol map.
pub open spec fn no_pix_dir_msg(app_pix: Seq<char>) -> Seq<char> {
    "Cannot find layered_symbol_map.json in '"@ + app_pix + "' or 'assets/pix'"@
}

/// Picks the pix directory: the project's own `app_pix` when its symbol map
/// exists (`app_has_map`), else the shared `assets/pix` when the map there
/// exists (`root_has_map`); otherwise an error naming both places.
pub fn choose_pix_base(app_pix: &str, app_has_map: bool, root_has_map: bool) -> (r: Result<
    String,
    String,
>)
    ensures
        app_has_map ==> r is Ok && r->Ok_0@ == app_pix@,
        !app_has_map && root_has_map ==> r is Ok && r->Ok_0@ == "assets/pix"@,
        !app_has_map && !root_has_map ==> r is Err && r->Err_0@ == no_pix_dir_msg(app_pix@),
{
    if app_has_map {
        Ok(String::from_str(app_pix))
    } else if root_has_map {
        Ok(String::from_str("assets/pix"))
    } else {
        let mut e = String::from_str("Cannot find layered_symbol_map.json in '");
        e.append(app_pix);
        e.append("' or 'assets/pix'");
        Err(e)
    }
}

/// Checks the sizes of loaded layer images against the symbol map's layer
/// size, in load order: `Err(i)` names the first layer `i` whose width or
/// height (`dims[i]`) differs from `layer_size`; `Ok(())` when all match.
pub fn check_layer_sizes(layer_size: u32, dims: &Vec<(u32, u32)>) -> (r: Result<(), usize>)
    ensures
        r is Ok <==> forall|i: int| 0 <= i < dims@.len() ==> #[trigger] dims@[i] == (layer_size, layer_size),
        r matches Err(i) ==> i < dims@.len() && dims@[i as int] != (layer_size, layer_size)
            && forall|j: int| 0 <= j < i ==> #[trigger] dims@[j] == (layer_size, layer_size),
{
    let mut i: usize = 0;
    while i < dims.len()
        invariant
            0 <= i <= dims@.len(),
            forall|j: int| 0 <= j < i ==> #[trigger] dims@[j] == (layer_size, layer_size),
        decreases dims@.len() - i,
    {
        let (w, h) = dims[i];
        if w != layer_size || h != layer_size {
            return Err(i);
        }
        i += 1;
    }
    Ok(())
}

/// The bytes of one RGBA layer of `layer_size` pixels a side.
pub open spec fn layer_bytes(layer_size: u32) -> int {
    layer_size as int * layer_size as int * 4
}

/// The `i`-th layer of concatenated layer data.
pub open spec fn layer_chunk(data: Seq<u8>, layer_size: u32, i: int) -> Seq<u8> {
    data.subrange(i * layer_bytes(layer_size), (i + 1) * layer_bytes(layer_size))
}

/// Initialises the assets for the web build: sets the configuration (project
/// path ".", fullscreen, the given run mode), then, when the symbol map was
/// initialised (`cell_pixel_size` is its cell size) and `layer_data` holds
/// `layer_count` layers, splits it into layers and caches them. Returns
/// whether it succeeded: it fails when the symbol map failed or the data is
/// too short.
#[verifier::loop_isolation(false)]
pub fn wasm_init_pixel_assets(
    config: &mut Option<GameConfig>,
    cell: &mut Option<PixelLayerData>,
    game_name: &str,
    layer_size: u32,
    layer_count: u32,
    layer_data: &[u8],
    cell_pixel_size: Option<u32>,
    run_mode: RunMode,
) -> (r: bool)
    requires
        layer_bytes(layer_size) <= u32::MAX,
        layer_data@.len() + layer_bytes(layer_size) <= usize::MAX,
    ensures
        config_after_init(*old(config), *final(config), game_name@, "."@, WindowMode::Fullscreen, run_mode),
        r <==> (cell_pixel_size is Some && layer_count * layer_bytes(layer_size)
            <= layer_data@.len()),
        r ==> *final(cell) is Some && (*final(cell))->0.layer_size
            == layer_size && (*final(cell))->0.layers@.len() == layer_count && forall|t: int|
            0 <= t < layer_count ==> (#[trigger] (*final(cell))->0.layers@[t])@ == layer_chunk(
                layer_data@,
                layer_size,
                t,
            ),
        !r ==> *final(cell) == *old(cell),
{
    init_game_config(config, game_name, ".", WindowMode::Fullscreen, run_mode);
    if cell_pixel_size.is_none() {
        return false;
    }
    let bytes_per_layer = (layer_size * layer_size * 4) as usize;
    let mut layers: Vec<Vec<u8>> = Vec::new();
    let mut i: u32 = 0;
    let mut start: usize = 0;
    while i < layer_count
        invariant
            bytes_per_layer == layer_bytes(layer_size),
            layer_data@.len() + bytes_per_layer <= usize::MAX,
            0 <= i <= layer_count,
            start == i * bytes_per_layer,
            start <= layer_data@.len(),
            layers@.len() == i,
            forall|t: int|
                0 <= t < i ==> (#[trigger] layers@[t])@ == layer_chunk(layer_data@, layer_size, t),
        decreases layer_count - i,
    {
        let end = start + bytes_per_layer;
        if end > layer_data.len() {
            proof {
                assert(layer_count * bytes_per_layer >= i * bytes_per_layer + bytes_per_layer)
                    by (nonlinear_arith)
                    requires
                        i < layer_count,
                        bytes_per_layer >= 0,
                ;
            }
            return false;
        }
        let mut chunk: Vec<u8> = Vec::new();
        let mut p: usize = start;
        while p < end
            invariant
                start <= p <= end,
                end <= layer_data@.len(),
                chunk@ == layer_data@.subrange(start as int, p as int),
            decreases end - p,
        {
            chunk.push(layer_data[p]);
            p += 1;
            assert(chunk@ =~= layer_data@.subrange(start as int, p as int));
        }
        layers.push(chunk);
        proof {
            assert(end == (i + 1) * bytes_per_layer) by (nonlinear_arith)
                requires
                    start == i * bytes_per_layer,
                    end == start + bytes_per_layer,
            ;
            assert(layers@[i as int]@ == layer_chunk(layer_data@, layer_size, i as int));
        }
        start = end;
        i += 1;
    }
    proof {
        assert(start == layer_count * bytes_per_layer);
    }
    match init_pixel_assets_inner(cell, cell_pixel_size, layer_size, layers) {
        Ok(()) => true,
        Err(_) => false,
    }
}

} // verus!

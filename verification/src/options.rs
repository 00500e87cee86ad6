use vstd::prelude::*;

verus! {

/// Rendering parameters of the engine.
#[derive(Clone)]
pub struct RenderingOption {
    pub validation_layers: bool,
    pub image_count: usize,
}

impl Default for RenderingOption {
    fn default() -> (r: Self)
        ensures
            r.validation_layers,
            r.image_count == 2,
    {
        RenderingOption { validation_layers: true, image_count: 2 }
    }
}

/// Parameters of a window.
#[derive(Clone)]
pub struct WindowOptions {
    pub name: String,
}

impl Default for WindowOptions {
    fn default() -> (r: Self)
        ensures
            r.name@ == "Asaogea"@,
    {
        WindowOptions { name: "Asaogea".to_owned() }
    }
}

/// Parameters of the whole engine.
#[derive(Clone)]
pub struct Options {
    pub rendering: RenderingOption,
    pub main_window: WindowOptions,
}

impl Default for Options {
    fn default() -> (r: Self)
        ensures
            r.rendering.validation_layers,
            r.rendering.image_count == 2,
            r.main_window.name@ == "Asaogea"@,
    {
        Options { rendering: RenderingOption::default(), main_window: WindowOptions::default() }
    }
}

} // verus!

use vstd::prelude::*;

verus! {

/// The abstract value of an [`EngineConfig`].
pub struct ConfigView {
    pub title: Seq<char>,
    pub width: u32,
    pub height: u32,
    pub resizable: bool,
    pub without_titlebar: bool,
}

/// Window settings, consumed once when the window is created.
pub struct EngineConfig {
    title: String,
    width: u32,
    height: u32,
    resizable: bool,
    without_titlebar: bool,
}

impl View for EngineConfig {
    type V = ConfigView;

    closed spec fn view(&self) -> ConfigView {
        ConfigView {
            title: self.title@,
            width: self.width,
            height: self.height,
            resizable: self.resizable,
            without_titlebar: self.without_titlebar,
        }
    }
}

impl EngineConfig {
    /// An empty title, a zero size, fixed size, with a title bar.
    pub fn new() -> (r: Self)
        ensures
            r@ == (ConfigView {
                title: Seq::empty(),
                width: 0,
                height: 0,
                resizable: false,
                without_titlebar: false,
            }),
    {
        let title = String::new();
        EngineConfig { title, width: 0, height: 0, resizable: false, without_titlebar: false }
    }

    pub fn title(self, title: String) -> (r: Self)
        ensures
            r@ == (ConfigView { title: title@, ..self@ }),
    {
        EngineConfig { title, ..self }
    }

    pub fn width(self, width: u32) -> (r: Self)
        ensures
            r@ == (ConfigView { width, ..self@ }),
    {
        EngineConfig { width, ..self }
    }

    pub fn height(self, height: u32) -> (r: Self)
        ensures
            r@ == (ConfigView { height, ..self@ }),
    {
        EngineConfig { height, ..self }
    }

    pub fn resizable(self, resizable: bool) -> (r: Self)
        ensures
            r@ == (ConfigView { resizable, ..self@ }),
    {
        EngineConfig { resizable, ..self }
    }

    pub fn without_titlebar(self, without_titlebar: bool) -> (r: Self)
        ensures
            r@ == (ConfigView { without_titlebar, ..self@ }),
    {
        EngineConfig { without_titlebar, ..self }
    }

    pub fn window_title(&self) -> (r: &str)
        ensures
            r@ == self@.title,
    {
        self.title.as_str()
    }

    pub fn window_width(&self) -> (r: u32)
        ensures
            r == self@.width,
    {
        self.width
    }

    pub fn window_height(&self) -> (r: u32)
        ensures
            r == self@.height,
    {
        self.height
    }

    pub fn is_resizable(&self) -> (r: bool)
        ensures
            r == self@.resizable,
    {
        self.resizable
    }

    /// Whether the window gets decorations: the opposite of `without_titlebar`.
    pub fn decorated(&self) -> (r: bool)
        ensures
            r == !self@.without_titlebar,
    {
        !self.without_titlebar
    }
}

} // verus!

use vstd::prelude::*;
use core::marker::PhantomData;
use crate::geometry::{centered_origin, centering_computable, half_toward_zero, rect_height, rect_width, Rect, WindowFrame};

verus! {

/// What a window is opened with: its title, its size and, optionally, where
/// its top-left corner goes. Sizes and positions are in whole pixels.
/// `S` is the application state that the window's content is built from.
pub struct WindowDesc<S> {
    pub title: Option<String>,
    pub width: i32,
    pub height: i32,
    pub position: Option<(i32, i32)>,
    pub state: PhantomData<S>,
}

impl<S> WindowDesc<S> {
    /// A description with the given title and size and no fixed position.
    pub fn new(title: Option<String>, width: i32, height: i32) -> (desc: Self)
        ensures
            desc.title == title,
            desc.width == width,
            desc.height == height,
            desc.position is None,
    {
        WindowDesc { title, width, height, position: None, state: PhantomData }
    }

    /// The same description, placed with its top-left corner at `(x, y)`.
    pub fn with_position(self, x: i32, y: i32) -> (desc: Self)
        ensures
            desc.title == self.title,
            desc.width == self.width,
            desc.height == self.height,
            desc.position == Some((x, y)),
    {
        WindowDesc { position: Some((x, y)), ..self }
    }

    /// The frame a window of this description is created with: at its
    /// position if it has one, whatever the desktop; else centred on
    /// `desktop`; `None` when it has no position and no desktop is given.
    pub fn initial_frame(&self, desktop: Option<Rect>) -> (frame: Option<WindowFrame>)
        requires
            self.position is None ==> (desktop matches Some(d) ==> centering_computable(
                d,
                self.width,
                self.height,
            )),
        ensures
            frame == initial_frame_of(self.position, self.width, self.height, desktop),
            frame matches Some(f) ==> f.width == self.width && f.height == self.height,
            self.position matches Some(p) ==> (frame matches Some(f) && f.x == p.0 && f.y == p.1),
    {
        match self.position {
            Some((x, y)) => Some(WindowFrame { x, y, width: self.width, height: self.height }),
            None => match desktop {
                Some(d) => {
                    let (x, y) = centered_origin(d, self.width, self.height);
                    Some(WindowFrame { x, y, width: self.width, height: self.height })
                },
                None => None,
            },
        }
    }
}

/// The frame a window with the given position and size starts in: at the
/// position when there is one; else centred on the desktop, when one is
/// known.
pub open spec fn initial_frame_of(
    position: Option<(i32, i32)>,
    width: i32,
    height: i32,
    desktop: Option<Rect>,
) -> Option<WindowFrame> {
    match position {
        Some(p) => Some(WindowFrame { x: p.0, y: p.1, width, height }),
        None => match desktop {
            Some(d) => Some(
                WindowFrame {
                    x: half_toward_zero(rect_width(d) - width) as i32,
                    y: half_toward_zero(rect_height(d) - height) as i32,
                    width,
                    height,
                },
            ),
            None => None,
        },
    }
}

/// Collects the windows an application opens at start-up, the renderer
/// settings, and, once launched, the application state and translations.
/// It always holds at least the window it was created with.
///
/// `S` is the application state, `C` the renderer's settings and `M` the
/// translations; the launcher only carries the latter two.
pub struct AppLauncher<S: Sync + 'static, C, M> {
    windows: Vec<WindowDesc<S>>,
    translation_map: Option<M>,
    wgpu_config: C,
    state: Option<S>,
}

/// The title a launch is announced with: the first window's title, or
/// `"rosin app"` when that window has none.
pub open spec fn launch_title_of<S>(windows: Seq<WindowDesc<S>>) -> Seq<char> {
    match windows[0].title {
        Some(t) => t@,
        None => "rosin app"@,
    }
}

impl<S: Sync + 'static, C, M> AppLauncher<S, C, M> {
    /// The windows to open, in the order they were added.
    pub closed spec fn windows(&self) -> Seq<WindowDesc<S>> {
        self.windows@
    }

    pub closed spec fn config(&self) -> C {
        self.wgpu_config
    }

    pub closed spec fn translations(&self) -> Option<M> {
        self.translation_map
    }

    pub closed spec fn app_state(&self) -> Option<S> {
        self.state
    }

    /// A launcher always has at least one window.
    #[verifier::type_invariant]
    closed spec fn has_a_window(&self) -> bool {
        self.windows@.len() >= 1
    }

    /// A launcher that opens `window`, with the renderer's default settings
    /// and nothing launched yet.
    pub fn new(window: WindowDesc<S>) -> (launcher: Self) where C: Default
        ensures
            launcher.windows() == seq![window],
            call_ensures(C::default, (), launcher.config()),
            launcher.translations() is None,
            launcher.app_state() is None,
    {
        let mut windows: Vec<WindowDesc<S>> = Vec::new();
        windows.push(window);
        AppLauncher { windows, translation_map: None, wgpu_config: C::default(), state: None }
    }

    /// The same launcher with `config` in place of its renderer settings.
    pub fn with_wgpu_config(self, config: C) -> (launcher: Self)
        ensures
            launcher.windows() == self.windows(),
            launcher.config() == config,
            launcher.translations() == self.translations(),
            launcher.app_state() == self.app_state(),
    {
        proof {
            use_type_invariant(&self);
        }
        let AppLauncher { windows, translation_map, wgpu_config: _, state } = self;
        AppLauncher { windows, translation_map, wgpu_config: config, state }
    }

    /// The same launcher with `window` opened after all the windows it
    /// already has.
    pub fn add_window(self, window: WindowDesc<S>) -> (launcher: Self)
        ensures
            launcher.windows() == self.windows().push(window),
            launcher.config() == self.config(),
            launcher.translations() == self.translations(),
            launcher.app_state() == self.app_state(),
    {
        proof {
            use_type_invariant(&self);
        }
        let AppLauncher { mut windows, translation_map, wgpu_config, state } = self;
        windows.push(window);
        AppLauncher { windows, translation_map, wgpu_config, state }
    }

    /// The windows to open, first to last; there is always at least one.
    pub fn windows_to_open(&self) -> (windows: &[WindowDesc<S>])
        ensures
            windows@ == self.windows(),
            windows@.len() >= 1,
    {
        proof {
            use_type_invariant(self);
        }
        self.windows.as_slice()
    }

    /// The renderer settings, to hand on to the renderer.
    pub fn wgpu_config(&self) -> (config: &C)
        ensures
            *config == self.config(),
    {
        &self.wgpu_config
    }

    /// The translations, once the launch has begun.
    pub fn translation_map(&self) -> (map: Option<&M>)
        ensures
            map == (match self.translations() {
                Some(m) => Some(&m),
                None => None::<&M>,
            }),
    {
        self.translation_map.as_ref()
    }

    /// The application state, once the launch has begun.
    pub fn state(&self) -> (state: Option<&S>)
        ensures
            state == (match self.app_state() {
                Some(s) => Some(&s),
                None => None::<&S>,
            }),
    {
        self.state.as_ref()
    }

    /// The title the launch is announced with.
    pub fn launch_title(&self) -> (title: &str)
        ensures
            title@ == launch_title_of(self.windows()),
            self.windows()[0].title matches Some(t) ==> title@ == t@,
            self.windows()[0].title is None ==> title@ == "rosin app"@,
    {
        proof {
            use_type_invariant(self);
        }
        match &self.windows[0].title {
            Some(t) => t.as_str(),
            None => "rosin app",
        }
    }

    /// Takes on the application state and translations at launch; the
    /// windows and renderer settings stay as they are.
    pub fn begin_launch(&mut self, state: S, translation_map: M)
        ensures
            final(self).windows() == old(self).windows(),
            final(self).config() == old(self).config(),
            final(self).app_state() == Some(state),
            final(self).translations() == Some(translation_map),
    {
        proof {
            use_type_invariant(&*self);
        }
        self.state = Some(state);
        self.translation_map = Some(translation_map);
    }
}

/// What the message loop does with the answer of one `GetMessageW` call.
#[derive(Clone, Copy, Debug, PartialEq, Eq)]
pub enum LoopStep {
    /// Translate and dispatch the message, then wait for the next one.
    Dispatch,
    /// Leave the loop.
    Quit,
}

/// The loop goes on for every nonzero answer, `-1` among them, and quits on
/// zero, which `GetMessageW` returns for `WM_QUIT`: the launcher tests the
/// answer with `BOOL::ok`, which fails exactly on zero.
pub fn message_loop_step(get_message_result: i32) -> (step: LoopStep)
    ensures
        (step == LoopStep::Quit) <==> get_message_result == 0,
{
    if get_message_result == 0 {
        LoopStep::Quit
    } else {
        LoopStep::Dispatch
    }
}

} // verus!

use vstd::prelude::*;

verus! {

/// How `ShowWindow` is asked to show a window.
#[derive(Clone, Copy, Debug, PartialEq, Eq)]
pub enum ShowCommand {
    /// `SW_NORMAL`: activate and show at the window's normal size.
    Normal,
    /// `SW_MINIMIZE`.
    Minimize,
    /// `SW_MAXIMIZE`.
    Maximize,
    /// `SW_RESTORE`: back from minimized or maximized.
    Restore,
}

impl ShowCommand {
    /// The `SHOW_WINDOW_CMD` value Win32 gives the command.
    pub fn code(self) -> (code: i32)
        ensures
            self == ShowCommand::Normal ==> code == 1,
            self == ShowCommand::Minimize ==> code == 6,
            self == ShowCommand::Maximize ==> code == 3,
            self == ShowCommand::Restore ==> code == 9,
    {
        match self {
            ShowCommand::Normal => 1,
            ShowCommand::Minimize => 6,
            ShowCommand::Maximize => 3,
            ShowCommand::Restore => 9,
        }
    }
}

/// One `ShowWindow` call: which window, and how to show it.
#[derive(Clone, Copy, Debug, PartialEq, Eq)]
pub struct ShowWindowCall {
    pub hwnd: isize,
    pub command: ShowCommand,
}

/// A native window as the view layer holds it: the value of its `HWND`.
pub struct RosinView {
    hwnd: isize,
}

impl RosinView {
    /// The window's handle value.
    pub closed spec fn handle(&self) -> isize {
        self.hwnd
    }

    /// The view of the window whose `HWND` has the value `hwnd`.
    pub fn from_hwnd(hwnd: isize) -> (view: Self)
        ensures
            view.handle() == hwnd,
    {
        RosinView { hwnd }
    }

    pub fn hwnd(&self) -> (hwnd: isize)
        ensures
            hwnd == self.handle(),
    {
        self.hwnd
    }

    /// The call that minimizes this window.
    pub fn minimize(&self) -> (call: ShowWindowCall)
        ensures
            call == (ShowWindowCall { hwnd: self.handle(), command: ShowCommand::Minimize }),
    {
        ShowWindowCall { hwnd: self.hwnd, command: ShowCommand::Minimize }
    }

    /// The call that maximizes this window.
    pub fn maximize(&self) -> (call: ShowWindowCall)
        ensures
            call == (ShowWindowCall { hwnd: self.handle(), command: ShowCommand::Maximize }),
    {
        ShowWindowCall { hwnd: self.hwnd, command: ShowCommand::Maximize }
    }

    /// The call that restores this window from minimized or maximized.
    pub fn restore(&self) -> (call: ShowWindowCall)
        ensures
            call == (ShowWindowCall { hwnd: self.handle(), command: ShowCommand::Restore }),
    {
        ShowWindowCall { hwnd: self.hwnd, command: ShowCommand::Restore }
    }

    /// The call that first shows a newly created window.
    pub fn show_initially(&self) -> (call: ShowWindowCall)
        ensures
            call == (ShowWindowCall { hwnd: self.handle(), command: ShowCommand::Normal }),
    {
        ShowWindowCall { hwnd: self.hwnd, command: ShowCommand::Normal }
    }
}

/// A view that may only be used on the thread that owns its window.
/// Win32 tells which thread that is but not which is the program's main
/// one, so the owner is the thread the window was created on.
pub struct ThreadLockedView {
    view: RosinView,
    thread_id: u32,
}

impl ThreadLockedView {
    pub closed spec fn owner(&self) -> u32 {
        self.thread_id
    }

    pub closed spec fn locked(&self) -> RosinView {
        self.view
    }

    /// Locks `view` to the thread `thread_id`, the one that owns its window.
    pub fn new(view: RosinView, thread_id: u32) -> (locked: Self)
        ensures
            locked.owner() == thread_id,
            locked.locked() == view,
    {
        ThreadLockedView { view, thread_id }
    }

    /// The thread the view is locked to.
    pub fn owner_thread(&self) -> (id: u32)
        ensures
            id == self.owner(),
    {
        self.thread_id
    }

    /// The handle value of the locked view's window. Only the value is
    /// read, the window is not reached, so any thread may ask for it.
    pub fn view_hwnd(&self) -> (hwnd: isize)
        ensures
            hwnd == self.locked().handle(),
    {
        self.view.hwnd()
    }

    /// Runs `f` on the view now if `current_thread` is the owner thread,
    /// and gives back what it returned; gives back `None`, without running
    /// it, on any other thread.
    pub fn try_on_thread<F, R>(&self, current_thread: u32, f: F) -> (result: Option<R>) where
        F: FnOnce(&RosinView) -> R,
        requires
            current_thread == self.owner() ==> f.requires((&self.locked(),)),
        ensures
            result is Some <==> current_thread == self.owner(),
            result matches Some(r) ==> f.ensures((&self.locked(),), r),
    {
        if self.thread_id == current_thread {
            Some(f(&self.view))
        } else {
            None
        }
    }
}

/// The graphics state of one view: the factory it draws with and, once it
/// has been made, the render target on the window. `F` and `T` are the
/// renderer's factory and target types.
pub struct ViewState<F, T> {
    pub factory: F,
    pub render_target: Option<T>,
}

impl<F, T> ViewState<F, T> {
    /// The state of a view that has a factory and no render target yet.
    pub fn new(factory: F) -> (state: Self)
        ensures
            state.factory == factory,
            state.render_target is None,
    {
        ViewState { factory, render_target: None }
    }

    /// Whether initialising the graphics has a render target to make; it
    /// makes one only while there is none.
    pub fn needs_render_target(&self) -> (needs: bool)
        ensures
            needs <==> self.render_target is None,
    {
        self.render_target.is_none()
    }

    /// Keeps `target` as the view's render target, made because there was
    /// none.
    pub fn install_render_target(&mut self, target: T)
        requires
            old(self).render_target is None,
        ensures
            final(self).render_target == Some(target),
            final(self).factory == old(self).factory,
    {
        self.render_target = Some(target);
    }

    /// Releases the graphics: drops the render target, keeps the factory.
    pub fn release_graphics(&mut self)
        ensures
            final(self).render_target is None,
            final(self).factory == old(self).factory,
    {
        self.render_target = None;
    }

    /// Releases all the state the view holds beyond its factory.
    pub fn release(&mut self)
        ensures
            final(self).render_target is None,
            final(self).factory == old(self).factory,
    {
        self.release_graphics();
    }
}

} // verus!

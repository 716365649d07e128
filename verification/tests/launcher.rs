use rosin::launcher::{message_loop_step, AppLauncher, LoopStep, WindowDesc};

type Launcher = AppLauncher<u32, u16, String>;

fn desc(title: Option<&str>, width: i32) -> WindowDesc<u32> {
    WindowDesc::new(title.map(|t| t.to_string()), width, 100)
}

#[test]
fn new_launcher_opens_its_window() {
    let launcher = Launcher::new(desc(Some("main"), 300));
    let windows = launcher.windows_to_open();
    assert_eq!(windows.len(), 1);
    assert_eq!(windows[0].title.as_deref(), Some("main"));
    assert_eq!(windows[0].width, 300);
    assert_eq!(*launcher.wgpu_config(), 0);
    assert_eq!(launcher.translation_map(), None);
    assert_eq!(launcher.state(), None);
}

#[test]
fn add_window_appends_in_order() {
    let launcher = Launcher::new(desc(Some("a"), 1)).add_window(desc(Some("b"), 2)).add_window(desc(None, 3));
    let widths: Vec<i32> = launcher.windows_to_open().iter().map(|w| w.width).collect();
    assert_eq!(widths, vec![1, 2, 3]);
}

#[test]
fn with_wgpu_config_stores_config() {
    let launcher = Launcher::new(desc(Some("a"), 1)).add_window(desc(None, 2));
    let launcher = launcher.with_wgpu_config(7);
    assert_eq!(*launcher.wgpu_config(), 7);
    assert_eq!(launcher.windows_to_open().len(), 2);
    assert_eq!(launcher.launch_title(), "a");
    let launcher = launcher.add_window(desc(None, 3));
    assert_eq!(*launcher.wgpu_config(), 7);
}

#[test]
fn launch_title_is_first_window_title() {
    let launcher = Launcher::new(desc(Some("first"), 1)).add_window(desc(Some("second"), 2));
    assert_eq!(launcher.launch_title(), "first");
}

#[test]
fn launch_title_defaults_when_untitled() {
    let launcher = Launcher::new(desc(None, 1)).add_window(desc(Some("second"), 2));
    assert_eq!(launcher.launch_title(), "rosin app");
}

#[test]
fn begin_launch_keeps_state_and_translations() {
    let mut launcher = Launcher::new(desc(Some("a"), 1)).with_wgpu_config(3);
    launcher.begin_launch(42, "fr-FR".to_string());
    assert_eq!(launcher.state(), Some(&42));
    assert_eq!(launcher.translation_map().map(|m| m.as_str()), Some("fr-FR"));
    assert_eq!(launcher.windows_to_open().len(), 1);
    assert_eq!(*launcher.wgpu_config(), 3);
    assert_eq!(launcher.launch_title(), "a");
}

#[test]
fn message_loop_quits_only_on_zero() {
    assert_eq!(message_loop_step(0), LoopStep::Quit);
    assert_eq!(message_loop_step(1), LoopStep::Dispatch);
    assert_eq!(message_loop_step(-1), LoopStep::Dispatch);
    assert_eq!(message_loop_step(i32::MAX), LoopStep::Dispatch);
}

use asaogea::ui::{ContextRegistry, ImGuiContext, Ui, Window};
use std::cell::Cell;

struct Panel {
    name: &'static str,
    renders: Cell<u32>,
}

impl Panel {
    fn new(name: &'static str) -> Panel {
        Panel { name, renders: Cell::new(0) }
    }
}

impl Window for Panel {
    fn spec_name(&self) -> vstd::seq::Seq<char> {
        unreachable!()
    }

    fn render(&self) {
        self.renders.set(self.renders.get() + 1);
    }

    fn get_name(&self) -> String {
        self.name.to_string()
    }

    fn keep_open(&self) -> bool {
        true
    }

    fn close(&self) {}
}

#[test]
fn windows_are_kept_in_opening_order() {
    let mut ui: Ui<Panel> = Ui::new();
    assert!(ui.names().is_empty());
    ui.open_window(Panel::new("scene"));
    ui.open_window(Panel::new("profiler"));
    assert_eq!(ui.names(), vec!["scene".to_string(), "profiler".to_string()]);
}

#[test]
fn opening_a_window_replaces_one_of_the_same_name() {
    let mut ui: Ui<Panel> = Ui::new();
    ui.open_window(Panel::new("scene"));
    ui.open_window(Panel::new("profiler"));
    ui.open_window(Panel::new("scene"));
    assert_eq!(ui.names(), vec!["profiler".to_string(), "scene".to_string()]);
}

#[test]
fn closing_a_window_removes_it_by_name() {
    let mut ui: Ui<Panel> = Ui::new();
    ui.open_window(Panel::new("scene"));
    ui.open_window(Panel::new("profiler"));
    ui.close_window(&Panel::new("scene"));
    assert_eq!(ui.names(), vec!["profiler".to_string()]);
    ui.close_window(&Panel::new("missing"));
    assert_eq!(ui.names(), vec!["profiler".to_string()]);
}

#[test]
fn rendering_renders_each_window() {
    let mut ui: Ui<Panel> = Ui::new();
    ui.open_window(Panel::new("a"));
    ui.open_window(Panel::new("b"));
    ui.render_window();
    ui.render_window();
    assert_eq!(ui.names().len(), 2);
}

#[test]
fn contexts_keep_their_native_handle() {
    let mut ctx: ImGuiContext<Panel> = ImGuiContext::new(77);
    assert_eq!(ctx.raw(), 77);
    ctx.ui_mut().open_window(Panel::new("debug"));
    let suspended = ctx.suspend();
    let ctx = suspended.activate();
    assert_eq!(ctx.raw(), 77);
    assert_eq!(ctx.ui().names(), vec!["debug".to_string()]);
}

#[test]
fn one_context_is_current_at_a_time() {
    let mut registry: ContextRegistry<Panel> = ContextRegistry::new();
    assert_eq!(registry.active_owner(), None);
    let a = registry.register(ImGuiContext::new(10));
    let b = registry.register(ImGuiContext::new(20));
    assert_eq!((a, b), (0, 1));
    assert_eq!(registry.activate(a), Some(10));
    assert_eq!(registry.active_owner(), Some(a));
    // Activating the current context again changes nothing.
    assert_eq!(registry.activate(a), None);
    registry.ui_mut(a).open_window(Panel::new("a-window"));
    assert_eq!(registry.activate(b), Some(20));
    assert_eq!(registry.active_owner(), Some(b));
    assert!(registry.ui(b).names().is_empty());
    registry.suspend(b);
    assert_eq!(registry.active_owner(), None);
    assert_eq!(registry.activate(a), Some(10));
    assert_eq!(registry.ui(a).names(), vec!["a-window".to_string()]);
}

#[test]
fn windows_can_be_opened_and_closed_by_an_explicit_name() {
    let mut ui: Ui<Panel> = Ui::new();
    ui.open_named_window("left".to_string(), Panel::new("scene"));
    ui.open_named_window("right".to_string(), Panel::new("scene"));
    ui.open_named_window("left".to_string(), Panel::new("other"));
    assert_eq!(ui.names(), vec!["right".to_string(), "left".to_string()]);
    ui.close_named_window(&"right".to_string());
    assert_eq!(ui.names(), vec!["left".to_string()]);
}

#[test]
fn opening_then_closing_a_name_leaves_the_other_windows() {
    let mut ui: Ui<Panel> = Ui::new();
    ui.open_window(Panel::new("a"));
    ui.open_window(Panel::new("b"));
    ui.open_window(Panel::new("c"));
    ui.close_window(&Panel::new("c"));
    assert_eq!(ui.names(), vec!["a".to_string(), "b".to_string()]);
    ui.open_window(Panel::new("a"));
    ui.open_window(Panel::new("a"));
    assert_eq!(ui.names(), vec!["b".to_string(), "a".to_string()]);
}

#[test]
fn reopening_a_name_keeps_only_the_new_window() {
    let mut ui: Ui<Panel> = Ui::new();
    ui.open_window(Panel::new("stats"));
    ui.open_window(Panel::new("scene"));
    let replacement = Panel::new("stats");
    replacement.renders.set(7);
    ui.open_window(replacement);
    assert_eq!(ui.names(), vec!["scene".to_string(), "stats".to_string()]);
}

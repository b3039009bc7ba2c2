use egui::Color32;
use egui_dataframe::decor::Decorator;

fn deco3(border: Option<Color32>, fill: Option<Color32>, fg: Option<Color32>) -> Decorator {
    Decorator::new(
        egui::vec2(60.0, 20.0),
        egui::Sense::click(),
        vec![border, fill, fg],
        egui::Align2::LEFT_TOP,
        egui::vec2(0.0, 0.0),
        egui::FontId::default(),
    )
}

fn with_ui(f: impl FnOnce(&mut egui::Ui)) {
    let ctx = egui::Context::default();
    let mut input = egui::RawInput::default();
    input.screen_rect = Some(egui::Rect::from_min_size(
        egui::pos2(0.0, 0.0),
        egui::vec2(800.0, 600.0),
    ));
    let _ = ctx.run(input, |ctx| {
        egui::CentralPanel::default().show(ctx, |ui| f(ui));
    });
}

#[test]
fn test_dataframe() {
    assert_eq!(
        Decorator::opt(&[Color32::RED, Color32::GREEN]),
        [Some(Color32::RED), Some(Color32::GREEN)]
    );
}

#[test]
fn opt_empty_slice() {
    assert_eq!(Decorator::opt(&[]), Vec::<Option<Color32>>::new());
}

#[test]
fn no_foreground_paints_plain_label() {
    let d = deco3(Some(Color32::RED), Some(Color32::BLUE), None);
    with_ui(|ui| {
        let r = d.disp(ui, "plain");
        assert!(r.is_none());
    });
}

#[test]
fn foreground_allocates_interactive_region() {
    let d = deco3(Some(Color32::RED), Some(Color32::BLUE), Some(Color32::WHITE));
    assert!(d.is_boxed());
    with_ui(|ui| {
        let r = d.disp(ui, "boxed");
        assert!(r.is_some());
    });
}

#[test]
fn partial_box_draws_no_rectangle() {
    let only_border = deco3(Some(Color32::RED), None, Some(Color32::WHITE));
    let only_fill = deco3(None, Some(Color32::BLUE), Some(Color32::WHITE));
    assert!(!only_border.is_boxed());
    assert!(!only_fill.is_boxed());
    with_ui(|ui| {
        assert!(only_border.disp(ui, "a").is_some());
        assert!(only_fill.disp(ui, "b").is_some());
    });
}

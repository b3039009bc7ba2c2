use egui::Color32;
use egui_dataframe::decor::Decorator;
use egui_dataframe::desc::DFDesc;
use egui_dataframe::desc::Role;
use egui_dataframe::schema::ColType;
use egui_dataframe::schema::Schema;

fn deco_fg(fg: Color32) -> Decorator {
    Decorator::new(
        egui::vec2(60.0, 20.0),
        egui::Sense::hover(),
        vec![None, None, Some(fg)],
        egui::Align2::LEFT_TOP,
        egui::vec2(0.0, 0.0),
        egui::FontId::default(),
    )
}

fn schema_cols(names: &[&str]) -> Schema {
    let mut s = Schema::new();
    for n in names {
        s.push(n.to_string(), ColType::Text);
    }
    s
}

fn defaults() -> (Decorator, Decorator) {
    (deco_fg(Color32::YELLOW), deco_fg(Color32::GRAY))
}

#[test]
fn new_starts_with_empty_overrides() {
    let d = DFDesc::new(defaults(), schema_cols(&["id", "name"]));
    assert_eq!(d.deco.len(), 0);
    assert_eq!(d.schema.fields.len(), 2);
}

#[test]
fn empty_overrides_resolve_to_defaults() {
    let d = DFDesc::new(defaults(), schema_cols(&["a", "b", "c"]));
    for i in 0..7 {
        assert_eq!(d.resolve(i, Role::Head).cols, deco_fg(Color32::YELLOW).cols);
        assert_eq!(d.resolve(i, Role::Body).cols, deco_fg(Color32::GRAY).cols);
    }
}

#[test]
fn holes_resolve_to_defaults_overrides_win() {
    let h = deco_fg(Color32::RED);
    let d = DFDesc::new(defaults(), schema_cols(&["a", "b"]))
        .all_from(vec![(None, None), (Some(h.clone()), None)]);
    assert_eq!(d.resolve(0, Role::Head).cols, deco_fg(Color32::YELLOW).cols);
    assert_eq!(d.resolve(1, Role::Head).cols, h.cols);
    assert_eq!(d.resolve(0, Role::Body).cols, deco_fg(Color32::GRAY).cols);
    assert_eq!(d.resolve(1, Role::Body).cols, deco_fg(Color32::GRAY).cols);
}

#[test]
fn all_default_one_pair_per_column() {
    let d = DFDesc::new(defaults(), schema_cols(&["a", "b", "c"])).all_default();
    assert_eq!(d.deco.len(), 3);
    for pair in &d.deco {
        assert!(matches!(pair, (None, None)));
    }
}

#[test]
fn all_absent_behaves_like_empty() {
    let empty = DFDesc::new(defaults(), schema_cols(&["a", "b"]));
    let absent = DFDesc::new(defaults(), schema_cols(&["a", "b"])).all_default();
    for i in 0..2 {
        assert_eq!(
            empty.resolve(i, Role::Head).cols,
            absent.resolve(i, Role::Head).cols
        );
        assert_eq!(
            empty.resolve(i, Role::Body).cols,
            absent.resolve(i, Role::Body).cols
        );
    }
}

#[test]
fn all_from_round_trip() {
    let h0 = deco_fg(Color32::RED);
    let b1 = deco_fg(Color32::GREEN);
    let overrides = vec![(Some(h0.clone()), None), (None, Some(b1.clone()))];
    let d = DFDesc::new(defaults(), schema_cols(&["a", "b"])).all_from(overrides.clone());
    assert_eq!(d.resolve(0, Role::Head).cols, h0.cols);
    assert_eq!(d.resolve(0, Role::Body).cols, deco_fg(Color32::GRAY).cols);
    assert_eq!(d.resolve(1, Role::Head).cols, deco_fg(Color32::YELLOW).cols);
    assert_eq!(d.resolve(1, Role::Body).cols, b1.cols);
}

#[test]
fn cell_positions_row_major() {
    let positions = egui_dataframe::desc::cell_positions(2, 3);
    assert_eq!(
        positions,
        vec![(0, 0), (0, 1), (0, 2), (1, 0), (1, 1), (1, 2)]
    );
}

#[test]
fn cell_positions_degenerate() {
    assert_eq!(egui_dataframe::desc::cell_positions(0, 5), vec![]);
    assert_eq!(egui_dataframe::desc::cell_positions(4, 0), vec![]);
}

#[test]
fn push_appends_one_pair() {
    let mut d = DFDesc::new(defaults(), schema_cols(&["a", "b"]));
    d.push((Some(deco_fg(Color32::RED)), None));
    d.push((None, Some(deco_fg(Color32::GREEN))));
    assert_eq!(d.deco.len(), 2);
    assert!(d.deco[0].0.is_some());
    assert!(d.deco[1].1.is_some());
}

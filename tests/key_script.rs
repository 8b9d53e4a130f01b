use criterion_plot::key::{Horizontal, Justification, KeyProperties, Order, Position, Stacked, Vertical};

#[test]
fn default_key_is_on_with_nothing_else() {
    let k = KeyProperties::default();
    assert_eq!(k.script(), "set key on \n");
}

#[test]
fn hidden_key_ignores_other_settings() {
    let mut k = KeyProperties::default();
    k.position(Position::Outside(Vertical::Bottom, Horizontal::Left))
        .title("prices")
        .boxed(true)
        .stacked(Stacked::Vertically)
        .hide_key();
    assert_eq!(k.script(), "set key off\n");
}

#[test]
fn shown_key_lists_options_in_order() {
    let mut k = KeyProperties::default();
    k.boxed(true)
        .title("Legend")
        .order(Order::SampleText)
        .justification(Justification::Left)
        .stacked(Stacked::Horizontally)
        .position(Position::Inside(Vertical::Top, Horizontal::Right));
    assert_eq!(
        k.script(),
        "set key on inside top right horizontal Left reverse title 'Legend' box \n"
    );
}

#[test]
fn outside_position_and_text_sample_order() {
    let mut k = KeyProperties::default();
    k.position(Position::Outside(Vertical::Center, Horizontal::Center))
        .order(Order::TextSample)
        .justification(Justification::Right);
    assert_eq!(k.script(), "set key on outside center center Right noreverse \n");
}

#[test]
fn hide_then_show_restores_settings() {
    let mut k = KeyProperties::default();
    k.title("t").boxed(true);
    let before = k.script();
    k.hide_key();
    assert_eq!(k.script(), "set key off\n");
    k.show();
    assert_eq!(k.script(), before);
    assert_eq!(before, "set key on title 't' box \n");
}

#[test]
fn key_title_is_not_escaped() {
    let mut k = KeyProperties::default();
    k.title("it's");
    assert_eq!(k.script(), "set key on title 'it's' \n");
}

#[test]
fn key_script_twice_is_identical() {
    let mut k = KeyProperties::default();
    k.stacked(Stacked::Vertically).title("x");
    let a = k.script();
    let b = k.script();
    assert_eq!(a, b);
    assert_eq!(a, "set key on vertical title 'x' \n");
}

use filter_design::themes::{darker, lighter, AppTheme, Rgba};

#[test]
fn shading_saturates_and_keeps_alpha() {
    let c = Rgba { r: 239, g: 240, b: 5, a: 200 };
    assert_eq!(darker(c, 10), Rgba { r: 229, g: 230, b: 0, a: 200 });
    assert_eq!(lighter(c, 20), Rgba { r: 255, g: 255, b: 25, a: 200 });
    assert_eq!(darker(c, 0), c);
    assert_eq!(lighter(c, 0), c);
}

#[test]
fn lighter_undoes_darker_without_saturation() {
    let c = Rgba { r: 200, g: 202, b: 204, a: 255 };
    assert_eq!(lighter(darker(c, 10), 10), c);
    assert_eq!(darker(lighter(c, 15), 15), c);
    assert_eq!(AppTheme::default(), AppTheme::Breeze);
}

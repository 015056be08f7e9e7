use styled_text::align::HorizontalAlign;
use styled_text::align::TextAlignment;
use styled_text::align::VerticalAlign;

#[test]
fn default_alignment_is_top_left() {
    let alignment = TextAlignment::default();
    assert_eq!(alignment.horizontal, HorizontalAlign::Left);
    assert_eq!(alignment.vertical, VerticalAlign::Top);
}

#[test]
fn horizontal_to_layout_maps_each_variant() {
    assert_eq!(
        HorizontalAlign::Left.to_layout(),
        glyph_brush_layout::HorizontalAlign::Left
    );
    assert_eq!(
        HorizontalAlign::Center.to_layout(),
        glyph_brush_layout::HorizontalAlign::Center
    );
    assert_eq!(
        HorizontalAlign::Right.to_layout(),
        glyph_brush_layout::HorizontalAlign::Right
    );
}

#[test]
fn vertical_to_layout_maps_each_variant() {
    assert_eq!(
        VerticalAlign::Top.to_layout(),
        glyph_brush_layout::VerticalAlign::Top
    );
    assert_eq!(
        VerticalAlign::Center.to_layout(),
        glyph_brush_layout::VerticalAlign::Center
    );
    assert_eq!(
        VerticalAlign::Bottom.to_layout(),
        glyph_brush_layout::VerticalAlign::Bottom
    );
}

#[test]
fn horizontal_to_layout_is_injective() {
    let all = [
        HorizontalAlign::Left,
        HorizontalAlign::Center,
        HorizontalAlign::Right,
    ];
    for a in all {
        for b in all {
            if a != b {
                assert_ne!(a.to_layout(), b.to_layout());
            }
        }
    }
}

#[test]
fn vertical_to_layout_is_injective() {
    let all = [
        VerticalAlign::Top,
        VerticalAlign::Center,
        VerticalAlign::Bottom,
    ];
    for a in all {
        for b in all {
            if a != b {
                assert_ne!(a.to_layout(), b.to_layout());
            }
        }
    }
}

#[test]
fn horizontal_tags_round_trip() {
    let all = [
        HorizontalAlign::Left,
        HorizontalAlign::Center,
        HorizontalAlign::Right,
    ];
    for h in all {
        assert_eq!(HorizontalAlign::from_tag(h.tag()), Some(h));
    }
    assert_eq!(HorizontalAlign::Left.tag(), 0);
    assert_eq!(HorizontalAlign::Center.tag(), 1);
    assert_eq!(HorizontalAlign::Right.tag(), 2);
}

#[test]
fn vertical_tags_round_trip() {
    let all = [
        VerticalAlign::Top,
        VerticalAlign::Center,
        VerticalAlign::Bottom,
    ];
    for v in all {
        assert_eq!(VerticalAlign::from_tag(v.tag()), Some(v));
    }
    assert_eq!(VerticalAlign::Top.tag(), 0);
    assert_eq!(VerticalAlign::Center.tag(), 1);
    assert_eq!(VerticalAlign::Bottom.tag(), 2);
}

#[test]
fn unknown_tags_are_rejected() {
    assert_eq!(HorizontalAlign::from_tag(3), None);
    assert_eq!(HorizontalAlign::from_tag(255), None);
    assert_eq!(VerticalAlign::from_tag(3), None);
    assert_eq!(VerticalAlign::from_tag(255), None);
}

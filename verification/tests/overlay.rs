use bevy_audio_anim_demo::overlay::{
    hint_overlay, title_overlay, Placement, ScreenEdge, FONT_PATH, HINT_FONT_PX,
    OVERLAY_MARGIN_PX, TITLE_FONT_PX,
};

#[test]
fn hint_sits_bottom_left_in_small_font() {
    let o = hint_overlay("空格: 暂停/恢复");
    assert_eq!(o.text, "空格: 暂停/恢复");
    assert_eq!(o.font_path, "fonts/wqy-microhei.ttc");
    assert_eq!(
        o.placement,
        Placement { edge: ScreenEdge::Bottom, edge_offset_px: 12, left_px: 12, font_px: 16 }
    );
}

#[test]
fn title_sits_top_left_in_large_font() {
    let o = title_overlay("AnimationPlayer 演示");
    assert_eq!(o.text, "AnimationPlayer 演示");
    assert_eq!(o.font_path, FONT_PATH);
    assert_eq!(
        o.placement,
        Placement { edge: ScreenEdge::Top, edge_offset_px: 12, left_px: 12, font_px: 20 }
    );
}

#[test]
fn hint_keeps_multiline_and_empty_text() {
    let multi = "1: Survey | 2: Walk | 3: Run\n空格: 暂停/恢复 | +/-: 变速";
    assert_eq!(hint_overlay(multi).text, multi);
    assert_eq!(hint_overlay("").text, "");
    assert_eq!(title_overlay("").text, "");
}

#[test]
fn hint_and_title_mirror_each_other() {
    let h = hint_overlay("same").placement;
    let t = title_overlay("same").placement;
    assert_ne!(h.edge, t.edge);
    assert_eq!(h.edge_offset_px, t.edge_offset_px);
    assert_eq!(h.left_px, t.left_px);
    assert!(h.font_px < t.font_px);
}

#[test]
fn layout_constants() {
    assert_eq!(OVERLAY_MARGIN_PX, 12);
    assert_eq!(HINT_FONT_PX, 16);
    assert_eq!(TITLE_FONT_PX, 20);
    assert_eq!(FONT_PATH, "fonts/wqy-microhei.ttc");
}

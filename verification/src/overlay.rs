//! On-screen text: the control hint at the bottom and the title at the top.
use vstd::prelude::*;

verus! {

/// Path of the CJK font (WenQuanYi Micro Hei), relative to the asset directory.
pub const FONT_PATH: &'static str = "fonts/wqy-microhei.ttc";

/// Distance of every overlay text from its edge and from the left, in pixels.
pub const OVERLAY_MARGIN_PX: u32 = 12;

/// Font size of the control hint, in pixels.
pub const HINT_FONT_PX: u32 = 16;

/// Font size of the title, in pixels.
pub const TITLE_FONT_PX: u32 = 20;

/// Which screen edge an overlay text hangs from.
#[derive(Clone, Copy, Debug, PartialEq, Eq, Structural)]
pub enum ScreenEdge {
    Top,
    Bottom,
}

/// Where and how large an overlay text is drawn, in logical pixels.
#[derive(Clone, Copy, Debug, PartialEq, Eq, Structural)]
pub struct Placement {
    /// The edge the text is pinned to.
    pub edge: ScreenEdge,
    /// Distance from that edge.
    pub edge_offset_px: u32,
    /// Distance from the left edge of the screen.
    pub left_px: u32,
    /// Font size.
    pub font_px: u32,
}

/// A text together with where it is drawn.
pub struct OverlayText {
    pub text: String,
    /// The font the text is drawn in, as an asset path.
    pub font_path: &'static str,
    pub placement: Placement,
}

/// Placement of the control hint: the bottom left corner, in the small font.
pub open spec fn hint_placement() -> Placement {
    Placement {
        edge: ScreenEdge::Bottom,
        edge_offset_px: OVERLAY_MARGIN_PX,
        left_px: OVERLAY_MARGIN_PX,
        font_px: HINT_FONT_PX,
    }
}

/// Placement of the title: the top left corner, in the large font.
pub open spec fn title_placement() -> Placement {
    Placement {
        edge: ScreenEdge::Top,
        edge_offset_px: OVERLAY_MARGIN_PX,
        left_px: OVERLAY_MARGIN_PX,
        font_px: TITLE_FONT_PX,
    }
}

/// The control hint showing `text` at the bottom of the screen.
pub fn hint_overlay(text: &str) -> (o: OverlayText)
    ensures
        o.text@ == text@,
        o.font_path@ == FONT_PATH@,
        o.placement == hint_placement(),
{
    OverlayText {
        text: text.to_owned(),
        font_path: FONT_PATH,
        placement: Placement {
            edge: ScreenEdge::Bottom,
            edge_offset_px: OVERLAY_MARGIN_PX,
            left_px: OVERLAY_MARGIN_PX,
            font_px: HINT_FONT_PX,
        },
    }
}

/// The title showing `text` at the top of the screen.
pub fn title_overlay(text: &str) -> (o: OverlayText)
    ensures
        o.text@ == text@,
        o.font_path@ == FONT_PATH@,
        o.placement == title_placement(),
{
    OverlayText {
        text: text.to_owned(),
        font_path: FONT_PATH,
        placement: Placement {
            edge: ScreenEdge::Top,
            edge_offset_px: OVERLAY_MARGIN_PX,
            left_px: OVERLAY_MARGIN_PX,
            font_px: TITLE_FONT_PX,
        },
    }
}

/// The hint and the title hang from opposite edges, sit the same distance
/// from their edge and from the left, and the title is drawn larger.
pub proof fn lemma_hint_title_mirror()
    ensures
        hint_placement().edge != title_placement().edge,
        hint_placement().edge_offset_px == title_placement().edge_offset_px,
        hint_placement().left_px == title_placement().left_px,
        hint_placement().font_px < title_placement().font_px,
{
}

} // verus!

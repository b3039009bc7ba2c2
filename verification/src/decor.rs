//! A [`Decorator`] describes how one piece of text is painted on an egui
//! surface: extent, interaction sense, an ordered triple of optional
//! colors (border, fill, foreground), text anchor, text offset and font.
//!
//! Painting follows a fixed rule: without a foreground color the text is a
//! plain non-interactive label; with one, an interactive region is
//! allocated and the text is drawn into it, under a filled and stroked
//! rectangle exactly when border and fill are both present.

use vstd::prelude::*;

use egui::Align2;
use egui::Color32;
use egui::FontId;
use egui::Painter;
use egui::Rect;
use egui::Response;
use egui::RichText;
use egui::Rounding;
use egui::Sense;
use egui::Stroke;
use egui::Ui;
use egui::Vec2;

verus! {

#[verifier::external_type_specification]
#[verifier::external_body]
pub struct ExUi(Ui);

#[verifier::external_type_specification]
#[verifier::external_body]
pub struct ExResponse(Response);

#[verifier::external_type_specification]
#[verifier::external_body]
pub struct ExPainter(Painter);

#[verifier::external_type_specification]
#[verifier::external_body]
pub struct ExVec2(Vec2);

#[verifier::external_type_specification]
#[verifier::external_body]
pub struct ExSense(Sense);

#[verifier::external_type_specification]
#[verifier::external_body]
pub struct ExColor32(Color32);

#[verifier::external_type_specification]
#[verifier::external_body]
pub struct ExAlign2(Align2);

#[verifier::external_type_specification]
#[verifier::external_body]
pub struct ExFontId(FontId);

#[verifier::external_type_specification]
#[verifier::external_body]
pub struct ExRect(Rect);

/// Relies on `Clone` for egui's `Vec2`, a plain copyable value: the clone
/// equals the original.
pub assume_specification[ <Vec2 as Clone>::clone ](v: &Vec2) -> (r: Vec2)
    ensures
        r == *v,
;

/// Relies on `Clone` for egui's `Sense`, a plain copyable value: the
/// clone equals the original.
pub assume_specification[ <Sense as Clone>::clone ](v: &Sense) -> (r: Sense)
    ensures
        r == *v,
;

/// Relies on `Clone` for egui's `Color32`, a plain copyable value: the
/// clone equals the original.
pub assume_specification[ <Color32 as Clone>::clone ](v: &Color32) -> (r: Color32)
    ensures
        r == *v,
;

/// Relies on `Clone` for egui's `Align2`, a plain copyable value: the
/// clone equals the original.
pub assume_specification[ <Align2 as Clone>::clone ](v: &Align2) -> (r: Align2)
    ensures
        r == *v,
;

/// Relies on `Clone` for egui's `FontId`, a derived field-by-field clone
/// of a plain value type: the clone equals the original.
pub assume_specification[ <FontId as Clone>::clone ](v: &FontId) -> (r: FontId)
    ensures
        r == *v,
;

/// Relies on egui's `Ui::allocate_painter`: allocates a region of the
/// given size with the given interaction sense and returns the region's
/// response together with a painter clipped to it. Allocating always
/// changes the surface: it advances the `Ui`'s cursor and bumps its
/// widget id counter.
#[verifier::external_body]
fn alloc_painter(ui: &mut Ui, sz: Vec2, sense: Sense) -> (rp: (Response, Painter))
    ensures
        *final(ui) != *old(ui),
{
    ui.allocate_painter(sz, sense)
}

/// Relies on egui's `Response::rect` field: the allocated rectangle.
#[verifier::external_body]
fn response_rect(resp: &Response) -> (rc: Rect) {
    resp.rect
}

/// Relies on egui's `Painter::rect`: paints `rc` filled with `fill` and
/// stroked one unit wide with `border`, without rounded corners.
#[verifier::external_body]
fn paint_rect(p: &Painter, rc: Rect, fill: Color32, border: Color32) {
    let _ = p.rect(rc, Rounding::ZERO, fill, Stroke::new(1u16, border));
}

/// Relies on egui's `Painter::text`: draws `txt` at `rc.min + ofs` with
/// the given anchor, font and color.
#[verifier::external_body]
fn paint_text(p: &Painter, rc: Rect, ofs: Vec2, align: Align2, txt: &str, font: &FontId, color: Color32) {
    let _ = p.text(rc.min + ofs, align, txt, font.clone(), color);
}

/// Relies on egui's `Ui::label`: renders `txt` as a plain non-interactive
/// label in the font's size and family. Placing the label always changes
/// the surface: it advances the `Ui`'s cursor and bumps its widget id
/// counter.
#[verifier::external_body]
fn plain_label(ui: &mut Ui, txt: &str, font: &FontId)
    ensures
        *final(ui) != *old(ui),
{
    let _ = ui.label(RichText::new(txt).size(font.size).family(font.family.clone()));
}

/// How one piece of text is painted: extent, interaction sense, the color
/// triple [border, fill, foreground], text anchor, text offset and font.
#[derive(Debug, Clone)]
pub struct Decorator {
    /// Extent of the allocated region when the text is painted boxed.
    pub sz: Vec2,
    /// Interaction sense of the allocated region.
    pub sense: Sense,
    /// Ordered optional colors: `[border, fill, foreground]`.
    pub cols: Vec<Option<Color32>>,
    /// Anchor of the text within the region.
    pub align: Align2,
    /// Offset added to the region's top-left corner for the text anchor.
    pub ofs: Vec2,
    /// Font family and size of the text.
    pub fontid: FontId,
}

impl Decorator {
    /// Well-formed: the color triple has exactly its three slots.
    pub open spec fn wf(&self) -> bool {
        self.cols@.len() == 3
    }

    /// A foreground color is present, so painting allocates an
    /// interactive region and returns its response.
    pub open spec fn interactive(&self) -> bool {
        self.cols@[2] is Some
    }

    /// The filled, stroked rectangle is painted: it needs the foreground
    /// to be painted at all, and border and fill are atomic, so all three
    /// colors must be present.
    pub open spec fn paints_box(&self) -> bool {
        self.interactive() && self.cols@[0] is Some && self.cols@[1] is Some
    }

    /// Lift a slice of colors into the optional form the color triple uses.
    pub fn opt(v: &[Color32]) -> (r: Vec<Option<Color32>>)
        ensures
            r@.len() == v@.len(),
            forall|i: int| 0 <= i < v@.len() ==> r@[i] == Some(v@[i]),
    {
        let mut r: Vec<Option<Color32>> = Vec::new();
        let mut i: usize = 0;
        while i < v.len()
            invariant
                i <= v@.len(),
                r@.len() == i,
                forall|j: int| 0 <= j < i ==> r@[j] == Some(v@[j]),
            decreases v@.len() - i,
        {
            r.push(Some(v[i]));
            i = i + 1;
        }
        r
    }

    /// Construct a decorator from its parts.
    pub fn new(sz: Vec2, sense: Sense, cols: Vec<Option<Color32>>, align: Align2, ofs: Vec2, fontid: FontId) -> (d: Decorator)
        ensures
            d == (Decorator { sz, sense, cols, align, ofs, fontid }),
    {
        Decorator { sz, sense, cols, align, ofs, fontid }
    }

    /// Paint `txt` on `ui` as this decorator prescribes.
    ///
    /// Without a foreground color the text becomes a plain label: no
    /// interactive region is allocated and no response is returned. With
    /// one, an interactive region of `sz` is allocated, the rectangle is
    /// filled and stroked exactly when [`Self::paints_box`] holds, the
    /// text is drawn, and the region's response and painter are returned.
    /// Either way something is painted, so the surface always changes.
    pub fn disp(&self, ui: &mut Ui, txt: &str) -> (r: Option<(Response, Painter)>)
        requires
            self.wf(),
        ensures
            r is Some <==> self.interactive(),
            *final(ui) != *old(ui),
    {
        let fgc_opt = self.cols[2];
        match fgc_opt {
            Some(fgc) => {
                let (resp, painter) = alloc_painter(ui, self.sz, self.sense);
                let rc = response_rect(&resp);
                let boxed = self.is_boxed();
                if boxed {
                    let bgr = self.cols[0].unwrap();
                    let bgc = self.cols[1].unwrap();
                    paint_rect(&painter, rc, bgc, bgr);
                }
                paint_text(&painter, rc, self.ofs, self.align, txt, &self.fontid, fgc);
                Some((resp, painter))
            },
            None => {
                plain_label(ui, txt, &self.fontid);
                None
            },
        }
    }

    /// Whether painting this decorator draws the filled, stroked box.
    pub fn is_boxed(&self) -> (b: bool)
        requires
            self.wf(),
        ensures
            b == self.paints_box(),
    {
        self.cols[2].is_some() && self.cols[0].is_some() && self.cols[1].is_some()
    }
}

/// A decorator without a foreground color is painted as a plain label: it
/// never allocates an interactive region and never paints the box.
pub proof fn lemma_no_foreground_plain(d: Decorator)
    requires
        d.wf(),
        !(d.cols@[2] is Some),
    ensures
        !d.interactive(),
        !d.paints_box(),
{
}

/// A partial box specification — a foreground color together with exactly
/// one of border and fill — draws the text but never the box: the
/// fill-and-border combination is atomic.
pub proof fn lemma_partial_box_not_boxed(d: Decorator)
    requires
        d.wf(),
        d.interactive(),
        (d.cols@[0] is Some) != (d.cols@[1] is Some),
    ensures
        !d.paints_box(),
{
}

} // verus!

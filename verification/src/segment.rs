use vstd::prelude::*;
use vstd::string::*;

verus! {

/// Marker that ends a colored run in the status-bar markup.
pub const RESET: &'static str = "^d^";

/// A pair of color codes bound to one semantic category of the bar
/// (CPU load, wifi up, wifi down, clock, volume).
pub struct BarSegment {
    pub bg_color: &'static str,
    pub fg_color: &'static str,
}

/// The text a segment produces for given content: background code,
/// foreground code, the content between single spaces, and the reset marker.
pub open spec fn seg_text(seg: BarSegment, content: Seq<char>) -> Seq<char> {
    seg.bg_color@ + seg.fg_color@ + " "@ + content + " "@ + RESET@
}

impl BarSegment {
    pub fn format(&self, content: &str) -> (r: String)
        ensures
            r@ == seg_text(*self, content@),
    {
        let mut s = self.bg_color.to_owned();
        s.append(self.fg_color);
        s.append(" ");
        s.append(content);
        s.append(" ");
        s.append(RESET);
        s
    }
}

} // verus!

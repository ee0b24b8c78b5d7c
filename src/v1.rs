//! Pages as a `Vec` of components, with rows that leave a gap between
//! their items.
use vstd::prelude::*;
use crate::html::{concat, decimal, decimal_string};
use crate::v4::htmls_of;

pub use crate::v2::{Page, Ul};
pub use crate::v4::{Component, ComponentList, H1, H2, H3, Img, P};

verus! {

/// A horizontal row of components, `gap` pixels apart.
pub struct HList<T> {
    pub children: Vec<T>,
    pub gap: u32,
}

impl<T> Default for HList<T> {
    fn default() -> (r: Self)
        ensures
            r.children@.len() == 0,
            r.gap == 0,
    {
        HList { children: Vec::new(), gap: 0 }
    }
}

/// The opening tag of a row whose items are `gap` pixels apart.
pub open spec fn gap_row_open(gap: nat) -> Seq<char> {
    "<div style=\"display: flex; gap: "@ + decimal(gap) + "px; align-items: center;\">"@
}

impl<T: Component> Component for HList<T> {
    open spec fn html(&self) -> Seq<char> {
        gap_row_open(self.gap as nat) + concat(htmls_of(self.children@)) + "</div>"@
    }

    fn render(&self) -> (r: String) {
        let gap = decimal_string(self.gap);
        let mut out = String::from_str("<div style=\"display: flex; gap: ");
        out.append(gap.as_str());
        out.append("px; align-items: center;\">");
        let inner = self.children.render_components();
        out.append(inner.as_str());
        out.append("</div>");
        out
    }
}

} // verus!

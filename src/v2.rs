//! Pages as a `Vec` of components: lists and rows hold a `Vec` too.
use vstd::prelude::*;
use crate::html::concat;
use crate::v4::{document, htmls_of, list_html, render_document, render_list, render_row, row_open};

pub use crate::v4::{to_dyn, Component, H1, H2, H3, Img, P};

verus! {

/// A page whose body is a `Vec` of components.
pub struct Page<T>(pub Vec<T>);

impl<T: Component> Page<T> {
    /// The HTML document of the page.
    pub fn to_html(&self) -> (r: String)
        ensures
            r@ == document(concat(htmls_of(self.0@))),
    {
        render_document(&self.0)
    }
}

/// A bulleted list of a `Vec` of components.
pub struct Ul<T>(pub Vec<T>);

impl<T: Component> Component for Ul<T> {
    open spec fn html(&self) -> Seq<char> {
        list_html(htmls_of(self.0@))
    }

    fn render(&self) -> (r: String) {
        render_list(&self.0)
    }
}

/// A horizontal row of a `Vec` of components.
pub struct HList<T>(pub Vec<T>);

impl<T: Component> Component for HList<T> {
    open spec fn html(&self) -> Seq<char> {
        row_open() + concat(htmls_of(self.0@)) + "</div>"@
    }

    fn render(&self) -> (r: String) {
        render_row(&self.0)
    }
}

} // verus!

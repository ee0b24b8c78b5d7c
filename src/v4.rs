//! Page components rendered to HTML. A list of components is anything that
//! hands out its items' markup in order: a `Vec`, an array, or a pair of two
//! different component types walked through its borrowed iterator.
use vstd::prelude::*;
use crate::html::{attribute_escaped, concat, decimal, decimal_string, element, encode_quoted_attribute, encode_text, lemma_concat_push, lemma_concat_two, text_escaped, wrap_element};
use crate::pair::{ref_items, ItemRef};

pub use crate::pair::IterAB;

verus! {

/// A piece of a page that renders to markup.
pub trait Component {
    /// The markup of this component.
    spec fn html(&self) -> Seq<char>;

    fn render(&self) -> (r: String)
        ensures
            r@ == self.html(),
    ;
}

/// Moves a component behind a trait object, so that components of different
/// types can share one `Vec`.
pub fn to_dyn<T: Component + 'static>(component: T) -> Box<dyn Component> {
    Box::new(component)
}

/// An ordered collection of components.
pub trait ComponentList {
    /// The markup of each item, in order.
    spec fn htmls(&self) -> Seq<Seq<char>>;

    /// Number of items.
    fn count(&self) -> (r: usize)
        ensures
            r == self.htmls().len(),
    ;

    /// The markup of item `i`.
    fn render_at(&self, i: usize) -> (r: String)
        requires
            i < self.htmls().len(),
        ensures
            r@ == self.htmls()[i as int],
    ;

    /// The markup of all items, joined in order.
    fn render_components(&self) -> (r: String)
        ensures
            r@ == concat(self.htmls()),
    {
        let n = self.count();
        let mut content = String::new();
        let mut i: usize = 0;
        while i < n
            invariant
                n == self.htmls().len(),
                i <= n,
                content@ == concat(self.htmls().take(i as int)),
            decreases n - i,
        {
            let part = self.render_at(i);
            content.append(part.as_str());
            proof {
                lemma_concat_push(self.htmls(), i as int);
            }
            i = i + 1;
        }
        proof {
            assert(self.htmls().take(n as int) =~= self.htmls());
        }
        content
    }
}

impl<'a> Component for &'a str {
    open spec fn html(&self) -> Seq<char> {
        text_escaped((*self)@)
    }

    fn render(&self) -> (r: String) {
        encode_text(*self)
    }
}

impl Component for Box<dyn Component> {
    open spec fn html(&self) -> Seq<char> {
        (**self).html()
    }

    fn render(&self) -> (r: String) {
        (**self).render()
    }
}

impl<'a, A: Component, B: Component> Component for ItemRef<'a, A, B> {
    open spec fn html(&self) -> Seq<char> {
        match self {
            ItemRef::First(a) => (**a).html(),
            ItemRef::Second(b) => (**b).html(),
        }
    }

    fn render(&self) -> (r: String) {
        match self {
            ItemRef::First(a) => (**a).render(),
            ItemRef::Second(b) => (**b).render(),
        }
    }
}

/// The markup of each of `items`, in order.
pub open spec fn htmls_of<T: Component>(items: Seq<T>) -> Seq<Seq<char>> {
    items.map_values(|x: T| x.html())
}

impl<T: Component> ComponentList for Vec<T> {
    open spec fn htmls(&self) -> Seq<Seq<char>> {
        htmls_of(self@)
    }

    fn count(&self) -> (r: usize) {
        self.len()
    }

    fn render_at(&self, i: usize) -> (r: String) {
        self[i].render()
    }
}

impl<T: Component, const N: usize> ComponentList for [T; N] {
    open spec fn htmls(&self) -> Seq<Seq<char>> {
        htmls_of(self@)
    }

    fn count(&self) -> (r: usize) {
        N
    }

    fn render_at(&self, i: usize) -> (r: String) {
        self[i].render()
    }
}

impl<A: Component, B: Component> ComponentList for (A, B) {
    open spec fn htmls(&self) -> Seq<Seq<char>> {
        seq![self.0.html(), self.1.html()]
    }

    fn count(&self) -> (r: usize) {
        2
    }

    fn render_at(&self, i: usize) -> (r: String) {
        if i == 0 {
            self.0.render()
        } else {
            self.1.render()
        }
    }

    /// Walks the pair through its borrowed iterator.
    fn render_components(&self) -> (r: String) {
        let mut it = IterAB::new(self);
        let mut content = String::new();
        loop
            invariant
                it.source() == self,
                it.remaining().len() <= 2,
                it.remaining().len() == 2 ==> content@ == Seq::<char>::empty(),
                it.remaining().len() == 1 ==> content@ == self.0.html(),
                it.remaining().len() == 0 ==> content@ == self.0.html() + self.1.html(),
                it.remaining() == ref_items(self).skip(2 - it.remaining().len()),
            ensures
                content@ == self.0.html() + self.1.html(),
            decreases it.remaining().len(),
        {
            match it.next() {
                Some(item) => {
                    let part = item.render();
                    content.append(part.as_str());
                },
                None => {
                    break;
                },
            }
        }
        proof {
            lemma_concat_two(self.0.html(), self.1.html());
        }
        content
    }
}

/// The markup of a bulleted list of `items`.
pub open spec fn list_html(items: Seq<Seq<char>>) -> Seq<char> {
    element(seq!['u', 'l'], concat(items.map_values(|h: Seq<char>| element(seq!['l', 'i'], h))))
}

/// A bulleted list: each item of the list inside `<li>`, all inside `<ul>`.
pub struct Ul<T>(pub T);

impl<T: ComponentList> Component for Ul<T> {
    open spec fn html(&self) -> Seq<char> {
        list_html(self.0.htmls())
    }

    fn render(&self) -> (r: String) {
        render_list(&self.0)
    }
}

/// The markup of a bulleted list of the items of `list`.
pub fn render_list<L: ComponentList>(list: &L) -> (r: String)
    ensures
        r@ == list_html(list.htmls()),
{
    let ghost items = list.htmls().map_values(|h: Seq<char>| element(seq!['l', 'i'], h));
    let n = list.count();
    let mut content = String::new();
    let mut i: usize = 0;
    while i < n
        invariant
            n == list.htmls().len(),
            items.len() == n,
            items == list.htmls().map_values(|h: Seq<char>| element(seq!['l', 'i'], h)),
            i <= n,
            content@ == concat(items.take(i as int)),
        decreases n - i,
    {
        let part = list.render_at(i);
        let li = wrap_element("li", part.as_str());
        proof {
            reveal_strlit("li");
            lemma_concat_push(items, i as int);
        }
        content.append(li.as_str());
        i = i + 1;
    }
    proof {
        assert(items.take(n as int) =~= items);
        reveal_strlit("ul");
    }
    wrap_element("ul", content.as_str())
}

/// The opening tag of a row laid out with flexbox.
pub open spec fn row_open() -> Seq<char> {
    "<div style=\"display: flex; align-items: center;\">"@
}

/// A horizontal row of components.
pub struct HList<T>(pub T);

impl<T: ComponentList> Component for HList<T> {
    open spec fn html(&self) -> Seq<char> {
        row_open() + concat(self.0.htmls()) + "</div>"@
    }

    fn render(&self) -> (r: String) {
        render_row(&self.0)
    }
}

/// The items of `list` side by side in one row.
pub fn render_row<L: ComponentList>(list: &L) -> (r: String)
    ensures
        r@ == row_open() + concat(list.htmls()) + "</div>"@,
{
    let mut out = String::from_str("<div style=\"display: flex; align-items: center;\">");
    let inner = list.render_components();
    out.append(inner.as_str());
    out.append("</div>");
    out
}

/// A third-level heading.
pub struct H3<T>(pub T);

impl<T: Component> Component for H3<T> {
    open spec fn html(&self) -> Seq<char> {
        element(seq!['h', '3'], self.0.html())
    }

    fn render(&self) -> (r: String) {
        proof {
            reveal_strlit("h3");
        }
        wrap_element("h3", self.0.render().as_str())
    }
}

/// A second-level heading.
pub struct H2<T>(pub T);

impl<T: Component> Component for H2<T> {
    open spec fn html(&self) -> Seq<char> {
        element(seq!['h', '2'], self.0.html())
    }

    fn render(&self) -> (r: String) {
        proof {
            reveal_strlit("h2");
        }
        wrap_element("h2", self.0.render().as_str())
    }
}

/// A first-level heading.
pub struct H1<T>(pub T);

impl<T: Component> Component for H1<T> {
    open spec fn html(&self) -> Seq<char> {
        element(seq!['h', '1'], self.0.html())
    }

    fn render(&self) -> (r: String) {
        proof {
            reveal_strlit("h1");
        }
        wrap_element("h1", self.0.render().as_str())
    }
}

/// A paragraph.
pub struct P<T>(pub T);

impl<T: Component> Component for P<T> {
    open spec fn html(&self) -> Seq<char> {
        element(seq!['p'], self.0.html())
    }

    fn render(&self) -> (r: String) {
        proof {
            reveal_strlit("p");
        }
        wrap_element("p", self.0.render().as_str())
    }
}

/// An image of the given size.
pub struct Img<T> {
    pub src: T,
    pub width: u32,
    pub height: u32,
}

impl<'a> Component for Img<&'a str> {
    open spec fn html(&self) -> Seq<char> {
        "<img src=\""@ + attribute_escaped(self.src@) + "\" width=\""@ + decimal(self.width as nat)
            + "p\" height=\""@ + decimal(self.height as nat) + "px\"/>"@
    }

    fn render(&self) -> (r: String) {
        let src = encode_quoted_attribute(self.src);
        let width = decimal_string(self.width);
        let height = decimal_string(self.height);
        let mut out = String::from_str("<img src=\"");
        out.append(src.as_str());
        out.append("\" width=\"");
        out.append(width.as_str());
        out.append("p\" height=\"");
        out.append(height.as_str());
        out.append("px\"/>");
        out
    }
}

impl Component for Img<String> {
    open spec fn html(&self) -> Seq<char> {
        "<img src=\""@ + attribute_escaped(self.src@) + "\" width=\""@ + decimal(self.width as nat)
            + "p\" height=\""@ + decimal(self.height as nat) + "px\"/>"@
    }

    fn render(&self) -> (r: String) {
        Img { src: self.src.as_str(), width: self.width, height: self.height }.render()
    }
}

/// A whole HTML document around `body`.
pub open spec fn document(body: Seq<char>) -> Seq<char> {
    "<!Doctype html><html lang=\"en\"><head></head><body>"@ + body + "</body></html>"@
}

/// A page whose body is a list of components.
pub struct Page<T>(pub T);

impl<T: ComponentList> Page<T> {
    /// The HTML document of the page.
    pub fn to_html(&self) -> (r: String)
        ensures
            r@ == document(concat(self.0.htmls())),
    {
        render_document(&self.0)
    }
}

/// A whole HTML document whose body is the items of `list`.
pub fn render_document<L: ComponentList>(list: &L) -> (r: String)
    ensures
        r@ == document(concat(list.htmls())),
{
    let mut out = String::from_str("<!Doctype html><html lang=\"en\"><head></head><body>");
    let body = list.render_components();
    out.append(body.as_str());
    out.append("</body></html>");
    out
}

/// The page header: the logo beside the group's name, two different
/// component types held as a pair.
pub fn header() -> (r: HList<(Img<&'static str>, H2<&'static str>)>)
    ensures
        r.0.0.src@ == "/public/logo.svg"@,
        r.0.0.width == 50,
        r.0.0.height == 50,
        r.0.1.0@ == "Kansai Rust"@,
{
    HList((Img { src: "/public/logo.svg", width: 50, height: 50 }, H2("Kansai Rust")))
}

/// A pair of two values of one component type and an array of two values
/// that render alike, item by item, render alike as lists.
pub proof fn lemma_pair_renders_like_array<T: Component>(pair: (T, T), arr: [T; 2])
    requires
        arr@[0].html() == pair.0.html(),
        arr@[1].html() == pair.1.html(),
    ensures
        pair.htmls() == arr.htmls(),
        concat(pair.htmls()) == concat(arr.htmls()),
{
    assert(pair.htmls() =~= arr.htmls());
}

} // verus!

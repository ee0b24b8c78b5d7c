use impl_iter_tuple_kind_of::v4::{
    header, to_dyn, Component, ComponentList, HList, Img, IterAB, Page, Ul, H1, H2, H3, P,
};
use impl_iter_tuple_kind_of::{v1, v2};

#[test]
fn text_is_escaped() {
    assert_eq!("a > b && a < c".render(), "a &gt; b &amp;&amp; a &lt; c");
    assert_eq!("plain \"quotes\" ok".render(), "plain \"quotes\" ok");
    assert_eq!("".render(), "");
}

#[test]
fn headings_and_paragraphs() {
    assert_eq!(H1("x").render(), "<h1>x</h1>");
    assert_eq!(H2("a<b").render(), "<h2>a&lt;b</h2>");
    assert_eq!(H3("Agenda").render(), "<h3>Agenda</h3>");
    assert_eq!(P("Tom & Jerry").render(), "<p>Tom &amp; Jerry</p>");
    assert_eq!(P(H1("n")).render(), "<p><h1>n</h1></p>");
}

#[test]
fn image_attribute_is_escaped_and_sizes_written() {
    let img = Img { src: "/a\"b'<c>&.svg", width: 50, height: 1234 };
    assert_eq!(
        img.render(),
        "<img src=\"/a&quot;b&#x27;&lt;c&gt;&amp;.svg\" width=\"50p\" height=\"1234px\"/>"
    );
    let zero = Img { src: "z", width: 0, height: 4294967295 };
    assert_eq!(zero.render(), "<img src=\"z\" width=\"0p\" height=\"4294967295px\"/>");
}

#[test]
fn bulleted_list() {
    assert_eq!(Ul(vec!["a", "b&c"]).render(), "<ul><li>a</li><li>b&amp;c</li></ul>");
    assert_eq!(Ul(Vec::<&str>::new()).render(), "<ul></ul>");
    assert_eq!(Ul((H1("t"), "x")).render(), "<ul><li><h1>t</h1></li><li>x</li></ul>");
}

#[test]
fn row_of_pair() {
    assert_eq!(
        HList((H2("a"), P("b"))).render(),
        "<div style=\"display: flex; align-items: center;\"><h2>a</h2><p>b</p></div>"
    );
}

#[test]
fn pair_and_array_render_alike() {
    let pair = (P("one"), P("two"));
    let array = [P("one"), P("two")];
    assert_eq!(pair.render_components(), array.render_components());
    assert_eq!(pair.render_components(), "<p>one</p><p>two</p>");
    assert_eq!(vec![P("one"), P("two")].render_components(), "<p>one</p><p>two</p>");
}

#[test]
fn pair_list_walks_in_order() {
    let pair = (H1("a"), "b");
    assert_eq!(pair.count(), 2);
    assert_eq!(pair.render_at(0), "<h1>a</h1>");
    assert_eq!(pair.render_at(1), "b");
    let mut it = IterAB::new(&pair);
    assert_eq!(it.len(), 2);
    assert_eq!(it.next().map(|x| x.render()), Some(String::from("<h1>a</h1>")));
    assert_eq!(it.next().map(|x| x.render()), Some(String::from("b")));
    assert!(it.next().is_none());
}

#[test]
fn page_document() {
    let page = Page((H1("T"), P("x")));
    assert_eq!(
        page.to_html(),
        "<!Doctype html><html lang=\"en\"><head></head><body><h1>T</h1><p>x</p></body></html>"
    );
}

#[test]
fn boxed_components_share_a_vec() {
    let items: Vec<Box<dyn Component>> = vec![to_dyn(H1("a")), to_dyn("b"), to_dyn(Ul(vec!["c"]))];
    assert_eq!(items.render_components(), "<h1>a</h1>b<ul><li>c</li></ul>");
}

#[test]
fn header_renders_logo_and_name() {
    assert_eq!(
        header().render(),
        "<div style=\"display: flex; align-items: center;\"><img src=\"/public/logo.svg\" width=\"50p\" height=\"50px\"/><h2>Kansai Rust</h2></div>"
    );
}

#[test]
fn vec_page_and_row() {
    let page = v2::Page(vec![to_dyn(H1("a")), to_dyn(v2::HList(vec![P("b")]))]);
    assert_eq!(
        page.to_html(),
        "<!Doctype html><html lang=\"en\"><head></head><body><h1>a</h1><div style=\"display: flex; align-items: center;\"><p>b</p></div></body></html>"
    );
    assert_eq!(v2::Ul(vec!["x"]).render(), "<ul><li>x</li></ul>");
}

#[test]
fn row_with_gap() {
    let row = v1::HList { children: vec![H2("a"), H2("b")], gap: 12 };
    assert_eq!(
        row.render(),
        "<div style=\"display: flex; gap: 12px; align-items: center;\"><h2>a</h2><h2>b</h2></div>"
    );
    let empty: v1::HList<H2<&str>> = Default::default();
    assert_eq!(empty.gap, 0);
    assert!(empty.children.is_empty());
    assert_eq!(
        empty.render(),
        "<div style=\"display: flex; gap: 0px; align-items: center;\"></div>"
    );
}

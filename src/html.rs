//! Markup building blocks: escaping, decimal numbers and tags.
use vstd::prelude::*;

verus! {

/// What `&`, `<` and `>` become in element text; other characters stay.
pub open spec fn text_char_escaped(c: char) -> Seq<char> {
    if c == '&' {
        seq!['&', 'a', 'm', 'p', ';']
    } else if c == '<' {
        seq!['&', 'l', 't', ';']
    } else if c == '>' {
        seq!['&', 'g', 't', ';']
    } else {
        seq![c]
    }
}

/// What a character becomes inside a quoted attribute value.
pub open spec fn attribute_char_escaped(c: char) -> Seq<char> {
    if c == '"' {
        seq!['&', 'q', 'u', 'o', 't', ';']
    } else if c == '\'' {
        seq!['&', '#', 'x', '2', '7', ';']
    } else {
        text_char_escaped(c)
    }
}

/// `s` escaped for use as element text.
pub open spec fn text_escaped(s: Seq<char>) -> Seq<char>
    decreases s.len(),
{
    if s.len() == 0 {
        Seq::empty()
    } else {
        text_escaped(s.drop_last()) + text_char_escaped(s.last())
    }
}

/// `s` escaped for use inside a quoted attribute value.
pub open spec fn attribute_escaped(s: Seq<char>) -> Seq<char>
    decreases s.len(),
{
    if s.len() == 0 {
        Seq::empty()
    } else {
        attribute_escaped(s.drop_last()) + attribute_char_escaped(s.last())
    }
}

/// The decimal digit for `d < 10`.
pub open spec fn digit(d: nat) -> char {
    if d == 0 {
        '0'
    } else if d == 1 {
        '1'
    } else if d == 2 {
        '2'
    } else if d == 3 {
        '3'
    } else if d == 4 {
        '4'
    } else if d == 5 {
        '5'
    } else if d == 6 {
        '6'
    } else if d == 7 {
        '7'
    } else if d == 8 {
        '8'
    } else {
        '9'
    }
}

/// `n` written in decimal, without leading zeros.
pub open spec fn decimal(n: nat) -> Seq<char>
    decreases n,
{
    if n < 10 {
        seq![digit(n)]
    } else {
        decimal(n / 10) + seq![digit(n % 10)]
    }
}

/// `inner` between the opening and the closing tag `name`.
pub open spec fn element(name: Seq<char>, inner: Seq<char>) -> Seq<char> {
    seq!['<'] + name + seq!['>'] + inner + seq!['<', '/'] + name + seq!['>']
}

/// The parts joined in order.
pub open spec fn concat(parts: Seq<Seq<char>>) -> Seq<char>
    decreases parts.len(),
{
    if parts.len() == 0 {
        Seq::empty()
    } else {
        concat(parts.drop_last()) + parts.last()
    }
}

/// Relies on html_escape::encode_text: every `&`, `<` and `>` replaced by its
/// entity, every other character kept.
#[verifier::external_body]
pub(crate) fn encode_text(s: &str) -> (r: String)
    ensures
        r@ == text_escaped(s@),
{
    html_escape::encode_text(s).to_string()
}

/// Relies on html_escape::encode_quoted_attribute: every `&`, `<`, `>`, `"`
/// and `'` replaced by its entity, every other character kept.
#[verifier::external_body]
pub(crate) fn encode_quoted_attribute(s: &str) -> (r: String)
    ensures
        r@ == attribute_escaped(s@),
{
    html_escape::encode_quoted_attribute(s).to_string()
}

/// Relies on `u32`'s `ToString`: the number in decimal, without leading zeros.
#[verifier::external_body]
pub(crate) fn decimal_string(n: u32) -> (r: String)
    ensures
        r@ == decimal(n as nat),
{
    n.to_string()
}

/// `inner` between the opening and the closing tag `name`.
pub fn wrap_element(name: &str, inner: &str) -> (r: String)
    ensures
        r@ == element(name@, inner@),
{
    let mut out = String::from_str("<");
    out.append(name);
    out.append(">");
    out.append(inner);
    out.append("</");
    out.append(name);
    out.append(">");
    proof {
        reveal_strlit("<");
        reveal_strlit(">");
        reveal_strlit("</");
        assert(out@ =~= element(name@, inner@));
    }
    out
}

/// Lemma: joining one more part appends it.
pub proof fn lemma_concat_push(parts: Seq<Seq<char>>, i: int)
    requires
        0 <= i < parts.len(),
    ensures
        concat(parts.take(i + 1)) == concat(parts.take(i)) + parts[i],
{
    assert(parts.take(i + 1).drop_last() =~= parts.take(i));
}

/// Lemma: joining two parts puts the first before the second.
pub proof fn lemma_concat_two(a: Seq<char>, b: Seq<char>)
    ensures
        concat(seq![a, b]) == a + b,
{
    assert(seq![a, b].drop_last() =~= seq![a]);
    assert(seq![a].drop_last() =~= Seq::<Seq<char>>::empty());
    assert(concat(Seq::<Seq<char>>::empty()) == Seq::<char>::empty());
    assert(concat(seq![a]) == concat(Seq::<Seq<char>>::empty()) + a);
    assert(concat(seq![a]) =~= a);
    assert(concat(seq![a, b]) == concat(seq![a]) + b);
}

} // verus!

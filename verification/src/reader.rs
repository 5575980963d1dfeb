//! Reading markup. The `xml` crate tells a text apart into tokens; putting
//! the tokens together into the tree of elements is done here.
use crate::error::{Fault, FaultView};
use crate::markup::{attribute_views, lemma_nodes_of, nodes_of, Attribute, Element, Node};
use vstd::prelude::*;
use vstd::string::*;
use xml::reader::XmlEvent;
use xml::ParserConfig;

verus! {

/// One step of reading markup.
#[derive(Debug, Clone, PartialEq, Eq)]
pub enum Token {
    /// The opening tag of an element, or the opening half of an
    /// empty-element tag.
    Open { name: String, attributes: Vec<Attribute> },
    /// The end of the element that was opened last and is still open.
    Close,
    /// Character data.
    Text(String),
    /// What carries nothing of a payload: the beginning and the end of the
    /// document, a processing instruction, a document type.
    Other,
}

/// Mathematical model of a [`Token`].
pub enum TokenView {
    Open { name: Seq<char>, attributes: Seq<(Seq<char>, Seq<char>)> },
    Close,
    Text(Seq<char>),
    Other,
}

impl View for Token {
    type V = TokenView;

    open spec fn view(&self) -> TokenView {
        match self {
            Token::Open { name, attributes } => TokenView::Open {
                name: name@,
                attributes: attribute_views(attributes@),
            },
            Token::Close => TokenView::Close,
            Token::Text(text) => TokenView::Text(text@),
            Token::Other => TokenView::Other,
        }
    }
}

/// The models of a run of tokens, in order.
pub open spec fn token_views(tokens: Seq<Token>) -> Seq<TokenView> {
    tokens.map_values(|t: Token| t@)
}

/// What the reader of the `xml` crate makes of a text: the tokens it tells
/// the text apart into, or else its account of why the text is no
/// well-formed markup.
pub uninterp spec fn markup_tokens(xml: Seq<char>) -> Result<Seq<TokenView>, Seq<char>>;

/// Runs the reader of the `xml` crate (`xml::EventReader`, through its
/// iterator) over a text, set up to trim white space around character data,
/// to hand out white space and CDATA sections as character data in one piece,
/// and to pass over comments. Nothing is claimed of what comes out but that
/// it depends on the text alone.
#[verifier::external_body]
fn read_tokens(xml: &str) -> (r: Result<Vec<Token>, String>)
    ensures
        match r {
            Ok(tokens) => markup_tokens(xml@) == Ok::<Seq<TokenView>, Seq<char>>(token_views(tokens@)),
            Err(reason) => markup_tokens(xml@) == Err::<Seq<TokenView>, Seq<char>>(reason@),
        },
{
    let config = ParserConfig::new().trim_whitespace(true).whitespace_to_characters(true)
        .cdata_to_characters(true).ignore_comments(true).coalesce_characters(true);
    config.create_reader(xml.as_bytes()).into_iter().map(|event| match event {
        Ok(XmlEvent::StartElement { name, attributes, .. }) => Ok(Token::Open {
            name: name.local_name,
            attributes: attributes.into_iter().map(|a| Attribute { name: a.name.local_name, value: a.value }).collect(),
        }),
        Ok(XmlEvent::EndElement { .. }) => Ok(Token::Close),
        Ok(XmlEvent::Characters(text)) => Ok(Token::Text(text)),
        Ok(_) => Ok(Token::Other),
        Err(e) => Err(e.to_string()),
    }).collect()
}

/// What stands inside an element whose opening token came before `at`: the
/// character data in it, put together, its children in order, both added to
/// what was gathered already, and the position after its closing token.
/// `None` where the tokens end before the element is closed.
pub open spec fn content_from(
    tokens: Seq<TokenView>,
    at: int,
    text: Seq<char>,
    children: Seq<Node>,
) -> Option<(Seq<char>, Seq<Node>, int)>
    decreases tokens.len() - at, 1int,
{
    if at < 0 || at >= tokens.len() {
        None
    } else {
        match tokens[at] {
            TokenView::Close => Some((text, children, at + 1)),
            TokenView::Text(more) => content_from(tokens, at + 1, text + more, children),
            TokenView::Other => content_from(tokens, at + 1, text, children),
            TokenView::Open { .. } => match element_at(tokens, at) {
                Some((child, after)) => if at < after <= tokens.len() {
                    content_from(tokens, after, text, children.push(child))
                } else {
                    None
                },
                None => None,
            },
        }
    }
}

/// The element that opens at `at`, and the position after its closing
/// token. `None` where no element opens there or it is never closed.
pub open spec fn element_at(tokens: Seq<TokenView>, at: int) -> Option<(Node, int)>
    decreases tokens.len() - at, 0int,
{
    if 0 <= at < tokens.len() {
        match tokens[at] {
            TokenView::Open { name, attributes } => match content_from(
                tokens,
                at + 1,
                Seq::empty(),
                Seq::empty(),
            ) {
                Some((text, children, after)) => Some(
                    (Node { name, attributes, text, children }, after),
                ),
                None => None,
            },
            _ => None,
        }
    } else {
        None
    }
}

/// The first position from `at` on whose token carries something.
pub open spec fn skip_others(tokens: Seq<TokenView>, at: int) -> int
    decreases tokens.len() - at,
{
    if 0 <= at < tokens.len() && tokens[at] is Other {
        skip_others(tokens, at + 1)
    } else {
        at
    }
}

/// The one element that the tokens are the markup of: nothing but tokens
/// that carry nothing stands before it or after it. `None` where the tokens
/// are not the markup of one element.
pub open spec fn document_of(tokens: Seq<TokenView>) -> Option<Node> {
    match element_at(tokens, skip_others(tokens, 0)) {
        Some((root, after)) => if skip_others(tokens, after) >= tokens.len() {
            Some(root)
        } else {
            None
        },
        None => None,
    }
}

/// What is said of tokens that are not the markup of one element.
pub open spec fn not_one_element() -> Seq<char> {
    "the markup is not one element"@
}

/// The element that a text is the markup of, or the fault in the text.
pub open spec fn markup_of(xml: Seq<char>) -> Result<Node, FaultView> {
    match markup_tokens(xml) {
        Ok(tokens) => match document_of(tokens) {
            Some(root) => Ok(root),
            None => Err(FaultView::Unreadable(not_one_element())),
        },
        Err(reason) => Err(FaultView::Unreadable(reason)),
    }
}

fn copy_attributes(attributes: &Vec<Attribute>) -> (r: Vec<Attribute>)
    ensures
        attribute_views(r@) == attribute_views(attributes@),
{
    let mut r: Vec<Attribute> = Vec::new();
    let mut i: usize = 0;
    while i < attributes.len()
        invariant
            0 <= i <= attributes.len(),
            r@.len() == i,
            forall|k: int| 0 <= k < i ==> (#[trigger] r@[k])@ == attributes@[k]@,
        decreases attributes.len() - i,
    {
        r.push(Attribute { name: attributes[i].name.clone(), value: attributes[i].value.clone() });
        i = i + 1;
    }
    assert(attribute_views(r@) =~= attribute_views(attributes@));
    r
}

/// Reads the element that opens at `at`.
fn read_element(tokens: &Vec<Token>, at: usize) -> (r: Option<(Element, usize)>)
    ensures
        match r {
            Some((element, after)) => element_at(token_views(tokens@), at as int) == Some(
                (element@, after as int),
            ) && at < after <= tokens.len(),
            None => element_at(token_views(tokens@), at as int) is None,
        },
    decreases tokens.len() - at,
{
    let ghost all = token_views(tokens@);
    if at >= tokens.len() {
        return None;
    }
    assert(all[at as int] == tokens@[at as int]@);
    let (name, attributes) = match &tokens[at] {
        Token::Open { name, attributes } => (name.clone(), copy_attributes(attributes)),
        _ => {
            return None;
        },
    };
    let mut text = String::new();
    let mut children: Vec<Element> = Vec::new();
    let mut i: usize = at + 1;
    proof {
        lemma_nodes_of(children@);
        assert(nodes_of(children@) =~= Seq::empty());
    }
    loop
        invariant
            at < i <= tokens.len(),
            all == token_views(tokens@),
            all[at as int] == (TokenView::Open { name: name@, attributes: attribute_views(attributes@) }),
            content_from(all, at + 1, Seq::empty(), Seq::empty()) == content_from(
                all,
                i as int,
                text@,
                nodes_of(children@),
            ),
        decreases tokens.len() - i,
    {
        if i >= tokens.len() {
            return None;
        }
        assert(all[i as int] == tokens@[i as int]@);
        match &tokens[i] {
            Token::Close => {
                let element = Element { name, attributes, text, children };
                proof {
                    element.lemma_view();
                }
                return Some((element, i + 1));
            },
            Token::Text(more) => {
                text.append(more.as_str());
                i = i + 1;
            },
            Token::Other => {
                i = i + 1;
            },
            Token::Open { .. } => {
                match read_element(tokens, i) {
                    Some((child, after)) => {
                        let ghost before = children@;
                        children.push(child);
                        proof {
                            assert(children@.drop_last() =~= before);
                            assert(nodes_of(children@) == nodes_of(before).push(child@));
                        }
                        i = after;
                    },
                    None => {
                        return None;
                    },
                }
            },
        }
    }
}

/// The first position from `at` on whose token carries something.
fn skip(tokens: &Vec<Token>, at: usize) -> (r: usize)
    requires
        at <= tokens.len(),
    ensures
        r == skip_others(token_views(tokens@), at as int),
        at <= r <= tokens.len(),
{
    let ghost all = token_views(tokens@);
    let mut i: usize = at;
    while i < tokens.len()
        invariant
            at <= i <= tokens.len(),
            all == token_views(tokens@),
            skip_others(all, at as int) == skip_others(all, i as int),
        decreases tokens.len() - i,
    {
        assert(all[i as int] == tokens@[i as int]@);
        match &tokens[i] {
            Token::Other => {
                i = i + 1;
            },
            _ => {
                return i;
            },
        }
    }
    i
}

/// Puts tokens together into the one element that they are the markup of;
/// `None` where they are not the markup of one element.
pub fn element_from_tokens(tokens: &Vec<Token>) -> (r: Option<Element>)
    ensures
        match r {
            Some(root) => document_of(token_views(tokens@)) == Some(root@),
            None => document_of(token_views(tokens@)) is None,
        },
{
    let start = skip(tokens, 0);
    match read_element(tokens, start) {
        Some((root, after)) => {
            if skip(tokens, after) >= tokens.len() {
                Some(root)
            } else {
                None
            }
        },
        None => None,
    }
}

/// Reads a text as the markup of one element.
pub fn read_markup(xml: &str) -> (r: Result<Element, Fault>)
    ensures
        match r {
            Ok(root) => markup_of(xml@) == Ok::<Node, FaultView>(root@),
            Err(fault) => markup_of(xml@) == Err::<Node, FaultView>(fault@),
        },
{
    match read_tokens(xml) {
        Ok(tokens) => match element_from_tokens(&tokens) {
            Some(root) => Ok(root),
            None => Err(Fault::Unreadable(String::from_str("the markup is not one element"))),
        },
        Err(reason) => Err(Fault::Unreadable(reason)),
    }
}

} // verus!

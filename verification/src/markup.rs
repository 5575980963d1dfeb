//! The generic shape of a payload once its markup has been read: named
//! elements that carry attributes, character data and child elements.
//!
//! A *field* of an element is a named value that the device wrote either as
//! an attribute or as a child element holding text; firmware generations
//! differ in which they use, so both are accepted.
use vstd::prelude::*;
use vstd::string::*;

verus! {

/// One `name="value"` pair of an element's opening tag.
#[derive(Debug, Clone, PartialEq, Eq)]
pub struct Attribute {
    pub name: String,
    pub value: String,
}

/// An element of a payload, with everything below it.
#[derive(Debug, PartialEq, Eq)]
pub struct Element {
    pub name: String,
    /// In document order.
    pub attributes: Vec<Attribute>,
    /// The character data directly inside the element.
    pub text: String,
    /// In document order.
    pub children: Vec<Element>,
}

/// Mathematical model of an [`Element`].
pub struct Node {
    pub name: Seq<char>,
    pub attributes: Seq<(Seq<char>, Seq<char>)>,
    pub text: Seq<char>,
    pub children: Seq<Node>,
}

impl View for Attribute {
    type V = (Seq<char>, Seq<char>);

    open spec fn view(&self) -> (Seq<char>, Seq<char>) {
        (self.name@, self.value@)
    }
}

/// The models of a run of attributes, in order.
pub open spec fn attribute_views(attributes: Seq<Attribute>) -> Seq<(Seq<char>, Seq<char>)> {
    attributes.map_values(|a: Attribute| a@)
}

/// The models of a run of elements, in order.
pub open spec fn nodes_of(elements: Seq<Element>) -> Seq<Node>
    decreases elements,
{
    if elements.len() == 0 {
        Seq::empty()
    } else {
        nodes_of(elements.drop_last()).push(elements.last()@)
    }
}

impl View for Element {
    type V = Node;

    open spec fn view(&self) -> Node
        decreases self,
    {
        Node {
            name: self.name@,
            attributes: attribute_views(self.attributes@),
            text: self.text@,
            children: nodes_of(self.children@),
        }
    }
}

/// `nodes_of` keeps the length and maps position by position.
pub proof fn lemma_nodes_of(elements: Seq<Element>)
    ensures
        nodes_of(elements).len() == elements.len(),
        forall|i: int| 0 <= i < elements.len() ==> #[trigger] nodes_of(elements)[i] == elements[i]@,
    decreases elements.len(),
{
    if elements.len() > 0 {
        lemma_nodes_of(elements.drop_last());
        assert(nodes_of(elements) == nodes_of(elements.drop_last()).push(elements.last()@));
    }
}

/// A leaf with a name and text: no attributes, no children.
pub open spec fn leaf(name: Seq<char>, text: Seq<char>) -> Node {
    Node { name, attributes: Seq::empty(), text, children: Seq::empty() }
}

/// The value of the first attribute called `name`.
#[verifier::opaque]
pub open spec fn attribute_value(attributes: Seq<(Seq<char>, Seq<char>)>, name: Seq<char>) -> Option<Seq<char>>
    decreases attributes.len(),
{
    if attributes.len() == 0 {
        None
    } else if attributes[0].0 == name {
        Some(attributes[0].1)
    } else {
        attribute_value(attributes.drop_first(), name)
    }
}

/// The first child called `name`.
#[verifier::opaque]
pub open spec fn first_child(children: Seq<Node>, name: Seq<char>) -> Option<Node>
    decreases children.len(),
{
    if children.len() == 0 {
        None
    } else if children[0].name == name {
        Some(children[0])
    } else {
        first_child(children.drop_first(), name)
    }
}

/// The text of the field called `name`: the value of the first attribute of
/// that name, or else the text of the first child of that name.
pub open spec fn field_text(node: Node, name: Seq<char>) -> Option<Seq<char>> {
    match attribute_value(node.attributes, name) {
        Some(value) => Some(value),
        None => match first_child(node.children, name) {
            Some(child) => Some(child.text),
            None => None,
        },
    }
}

/// Looking a name up in two runs of attributes laid end to end: the first run
/// is asked first.
pub proof fn lemma_attribute_value_concat(
    a: Seq<(Seq<char>, Seq<char>)>,
    b: Seq<(Seq<char>, Seq<char>)>,
    name: Seq<char>,
)
    ensures
        attribute_value(a + b, name) == match attribute_value(a, name) {
            Some(value) => Some(value),
            None => attribute_value(b, name),
        },
    decreases a.len(),
{
    reveal(attribute_value);
    if a.len() == 0 {
        assert(a + b =~= b);
    } else {
        assert((a + b)[0] == a[0]);
        assert((a + b).drop_first() =~= a.drop_first() + b);
        lemma_attribute_value_concat(a.drop_first(), b, name);
    }
}

/// Where every child has the same name, no child is found under another.
pub proof fn lemma_first_child_absent(children: Seq<Node>, name: Seq<char>)
    requires
        forall|i: int| 0 <= i < children.len() ==> (#[trigger] children[i]).name != name,
    ensures
        first_child(children, name) is None,
    decreases children.len(),
{
    reveal(first_child);
    if children.len() > 0 {
        let rest = children.drop_first();
        assert forall|i: int| 0 <= i < rest.len() implies (#[trigger] rest[i]).name != name by {
            assert(rest[i] == children[i + 1]);
        }
        lemma_first_child_absent(rest, name);
    }
}

/// Looking a name up among two runs of children laid end to end: the first
/// run is asked first.
pub proof fn lemma_first_child_concat(a: Seq<Node>, b: Seq<Node>, name: Seq<char>)
    ensures
        first_child(a + b, name) == match first_child(a, name) {
            Some(child) => Some(child),
            None => first_child(b, name),
        },
    decreases a.len(),
{
    reveal(first_child);
    if a.len() == 0 {
        assert(a + b =~= b);
    } else {
        assert((a + b)[0] == a[0]);
        assert((a + b).drop_first() =~= a.drop_first() + b);
        lemma_first_child_concat(a.drop_first(), b, name);
    }
}

/// A node with one more attribute, put in at `at`.
pub open spec fn with_attribute(node: Node, at: int, name: Seq<char>, value: Seq<char>) -> Node {
    Node { attributes: node.attributes.insert(at, (name, value)), ..node }
}

/// A node with one more child, put in at `at`.
pub open spec fn with_child(node: Node, at: int, child: Node) -> Node {
    Node { children: node.children.insert(at, child), ..node }
}

/// An attribute put in anywhere changes nothing of what is found under
/// another name.
pub proof fn lemma_attribute_added(
    node: Node,
    at: int,
    name: Seq<char>,
    value: Seq<char>,
    asked: Seq<char>,
)
    requires
        0 <= at <= node.attributes.len(),
        asked != name,
    ensures
        field_text(with_attribute(node, at, name, value), asked) == field_text(node, asked),
{
    let before = node.attributes.subrange(0, at);
    let after = node.attributes.subrange(at, node.attributes.len() as int);
    let one = seq![(name, value)];
    assert(node.attributes =~= before + after);
    assert(node.attributes.insert(at, (name, value)) =~= before + (one + after));
    lemma_attribute_value_concat(before, after, asked);
    lemma_attribute_value_concat(before, one + after, asked);
    lemma_attribute_value_concat(one, after, asked);
    assert(attribute_value(one, asked) is None) by {
        reveal_with_fuel(attribute_value, 2);
        assert(one.drop_first() =~= Seq::empty());
    }
}

/// A child put in anywhere changes nothing of what is found under another
/// name.
pub proof fn lemma_child_added(node: Node, at: int, child: Node, asked: Seq<char>)
    requires
        0 <= at <= node.children.len(),
        asked != child.name,
    ensures
        first_child(with_child(node, at, child).children, asked) == first_child(
            node.children,
            asked,
        ),
        field_text(with_child(node, at, child), asked) == field_text(node, asked),
{
    let before = node.children.subrange(0, at);
    let after = node.children.subrange(at, node.children.len() as int);
    let one = seq![child];
    assert(node.children =~= before + after);
    assert(node.children.insert(at, child) =~= before + (one + after));
    lemma_first_child_concat(before, after, asked);
    lemma_first_child_concat(before, one + after, asked);
    lemma_first_child_concat(one, after, asked);
    assert(first_child(one, asked) is None) by {
        reveal_with_fuel(first_child, 2);
        assert(one.drop_first() =~= Seq::empty());
    }
}

impl Element {
    /// How an element's model is made up of the models of its parts.
    pub proof fn lemma_view(&self)
        ensures
            self@.name == self.name@,
            self@.text == self.text@,
            self@.attributes.len() == self.attributes@.len(),
            forall|i: int|
                0 <= i < self.attributes@.len() ==> #[trigger] self@.attributes[i] == (
                    self.attributes@[i].name@,
                    self.attributes@[i].value@,
                ),
            self@.children.len() == self.children@.len(),
            forall|i: int|
                0 <= i < self.children@.len() ==> #[trigger] self@.children[i] == self.children@[i]@,
    {
        lemma_nodes_of(self.children@);
    }

    /// An element with a name and nothing else.
    pub fn new(name: &str) -> (r: Element)
        ensures
            r@ == leaf(name@, Seq::empty()),
    {
        let r = Element {
            name: String::from_str(name),
            attributes: Vec::new(),
            text: String::new(),
            children: Vec::new(),
        };
        proof {
            r.lemma_view();
            assert(r@.attributes =~= Seq::empty());
            assert(r@.children =~= Seq::empty());
        }
        r
    }

    /// A leaf element: a name and its text.
    pub fn with_text(name: &str, text: &str) -> (r: Element)
        ensures
            r@ == leaf(name@, text@),
    {
        let r = Element {
            name: String::from_str(name),
            attributes: Vec::new(),
            text: String::from_str(text),
            children: Vec::new(),
        };
        proof {
            r.lemma_view();
            assert(r@.attributes =~= Seq::empty());
            assert(r@.children =~= Seq::empty());
        }
        r
    }

    /// Adds an attribute after those already there.
    pub fn push_attribute(&mut self, name: &str, value: String)
        ensures
            final(self)@ == (Node {
                attributes: old(self)@.attributes.push((name@, value@)),
                ..old(self)@
            }),
    {
        proof {
            self.lemma_view();
        }
        self.attributes.push(Attribute { name: String::from_str(name), value });
        proof {
            self.lemma_view();
            assert(self@.attributes =~= old(self)@.attributes.push((name@, value@)));
        }
    }

    /// Adds a child after those already there.
    pub fn push_child(&mut self, child: Element)
        ensures
            final(self)@ == (Node { children: old(self)@.children.push(child@), ..old(self)@ }),
    {
        proof {
            self.lemma_view();
        }
        self.children.push(child);
        proof {
            self.lemma_view();
            assert(self@.children =~= old(self)@.children.push(child@));
            assert(self@.attributes =~= old(self)@.attributes);
        }
    }

    /// The value of the first attribute called `name`.
    pub fn attribute(&self, name: &str) -> (r: Option<&String>)
        ensures
            match r {
                Some(value) => attribute_value(self@.attributes, name@) == Some(value@),
                None => attribute_value(self@.attributes, name@) is None,
            },
    {
        proof {
            reveal(attribute_value);
            self.lemma_view();
        }
        let key = String::from_str(name);
        let ghost all = self@.attributes;
        let n = self.attributes.len();
        let mut i: usize = 0;
        assert(all.subrange(0, n as int) =~= all);
        while i < n
            invariant
                0 <= i <= n,
                n == self.attributes@.len(),
                all == self@.attributes,
                all.len() == n,
                forall|k: int|
                    0 <= k < n ==> #[trigger] all[k] == (
                        self.attributes@[k].name@,
                        self.attributes@[k].value@,
                    ),
                key@ == name@,
                attribute_value(all, name@) == attribute_value(all.subrange(i as int, n as int), name@),
            decreases n - i,
        {
            let ghost rest = all.subrange(i as int, n as int);
            proof {
                reveal(attribute_value);
            }
            assert(rest[0] == all[i as int]);
            assert(rest.drop_first() =~= all.subrange(i + 1, n as int));
            if self.attributes[i].name == key {
                return Some(&self.attributes[i].value);
            }
            i = i + 1;
        }
        proof {
            reveal(attribute_value);
            reveal(first_child);
        }
        None
    }

    /// The first child called `name`.
    pub fn child(&self, name: &str) -> (r: Option<&Element>)
        ensures
            match r {
                Some(child) => first_child(self@.children, name@) == Some(child@),
                None => first_child(self@.children, name@) is None,
            },
    {
        proof {
            reveal(first_child);
            self.lemma_view();
        }
        let key = String::from_str(name);
        let ghost all = self@.children;
        let n = self.children.len();
        let mut i: usize = 0;
        assert(all.subrange(0, n as int) =~= all);
        while i < n
            invariant
                0 <= i <= n,
                n == self.children@.len(),
                all == self@.children,
                all.len() == n,
                forall|k: int| 0 <= k < n ==> #[trigger] all[k] == self.children@[k]@,
                key@ == name@,
                first_child(all, name@) == first_child(all.subrange(i as int, n as int), name@),
            decreases n - i,
        {
            let ghost rest = all.subrange(i as int, n as int);
            assert(rest[0] == all[i as int]);
            assert(rest.drop_first() =~= all.subrange(i + 1, n as int));
            proof {
                reveal(first_child);
                self.children[i as int].lemma_view();
            }
            if self.children[i].name == key {
                return Some(&self.children[i]);
            }
            i = i + 1;
        }
        proof {
            reveal(attribute_value);
            reveal(first_child);
        }
        None
    }

    /// The text of the field called `name`, as an attribute or else as a
    /// child element; `None` where the element has neither.
    pub fn field(&self, name: &str) -> (r: Option<&String>)
        ensures
            match r {
                Some(text) => field_text(self@, name@) == Some(text@),
                None => field_text(self@, name@) is None,
            },
    {
        match self.attribute(name) {
            Some(value) => Some(value),
            None => match self.child(name) {
                Some(child) => {
                    proof {
                        child.lemma_view();
                    }
                    Some(&child.text)
                },
                None => None,
            },
        }
    }
}

} // verus!

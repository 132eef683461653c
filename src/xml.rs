use vstd::prelude::*;

use quick_xml::events::Event;
use quick_xml::Reader;

verus! {

/// An XML element: its name, its attributes, its child elements in order and
/// its text, if it has any.
#[derive(Debug, PartialEq)]
pub struct Node {
    pub name: Vec<u8>,
    pub attributes: Vec<(Vec<u8>, Vec<u8>)>,
    pub sub: Vec<Box<Node>>,
    pub value: Option<Vec<u8>>,
}

/// The value of attribute `k`: that of its last occurrence.
pub open spec fn attribute_value(attrs: Seq<(Vec<u8>, Vec<u8>)>, k: Seq<u8>) -> Option<Seq<u8>>
    decreases attrs.len(),
{
    if attrs.len() == 0 {
        None
    } else if attrs.last().0@ == k {
        Some(attrs.last().1@)
    } else {
        attribute_value(attrs.drop_last(), k)
    }
}

/// Every attribute of `pattern` is on `own`, with the same value.
pub open spec fn attributes_cover(own: Seq<(Vec<u8>, Vec<u8>)>, pattern: Seq<(Vec<u8>, Vec<u8>)>) -> bool {
    forall|i: int|
        0 <= i < pattern.len() ==> #[trigger] attribute_value(own, pattern[i].0@) == attribute_value(
            pattern,
            pattern[i].0@,
        )
}

pub open spec fn values_compatible(own: Option<Vec<u8>>, pattern: Option<Vec<u8>>) -> bool {
    match (own, pattern) {
        (Some(a), Some(b)) => a@ == b@,
        _ => true,
    }
}

/// Whether `n` matches pattern `p`: same name, same text where both have
/// one, the pattern's attributes present with their values, and each child
/// of the pattern matched, in order, by the first child of `n` not taken by
/// an earlier one.
pub open spec fn node_matches(n: Node, p: Node) -> bool
    decreases p, 2int, 0int,
{
    &&& n.name@ == p.name@
    &&& values_compatible(n.value, p.value)
    &&& attributes_cover(n.attributes@, p.attributes@)
    &&& children_match(n.sub@, Set::empty(), p, 0)
}

/// Whether the children of `p` from the `k`-th on are matched by children
/// of `own` not in `used`, each taking the first free one that matches it.
pub open spec fn children_match(own: Seq<Box<Node>>, used: Set<int>, p: Node, k: int) -> bool
    decreases p, 1int, p.sub@.len() - k,
{
    if k < 0 || k >= p.sub@.len() {
        true
    } else {
        match first_free_match(own, used, *p.sub@[k], 0) {
            None => false,
            Some(j) => children_match(own, used.insert(j), p, k + 1),
        }
    }
}

/// The first position from `j` on, outside `used`, whose node matches `q`.
pub open spec fn first_free_match(own: Seq<Box<Node>>, used: Set<int>, q: Node, j: int) -> Option<int>
    decreases q, 3int, own.len() - j,
{
    if j < 0 || j >= own.len() {
        None
    } else if !used.contains(j) && node_matches(*own[j], q) {
        Some(j)
    } else {
        first_free_match(own, used, q, j + 1)
    }
}


/// The positions marked in `marks`.
pub open spec fn marked(marks: Seq<bool>) -> Set<int> {
    Set::new(|j: int| 0 <= j < marks.len() && marks[j])
}

fn bytes_equal(a: &Vec<u8>, b: &Vec<u8>) -> (r: bool)
    ensures
        r == (a@ == b@),
{
    if a.len() != b.len() {
        return false;
    }
    let mut i: usize = 0;
    while i < a.len()
        invariant
            a@.len() == b@.len(),
            i <= a.len(),
            forall|j: int| 0 <= j < i ==> a@[j] == b@[j],
        decreases a.len() - i,
    {
        if a[i] != b[i] {
            return false;
        }
        i += 1;
    }
    assert(a@ =~= b@);
    true
}

fn find_attribute<'a>(attrs: &'a Vec<(Vec<u8>, Vec<u8>)>, k: &Vec<u8>) -> (r: Option<&'a Vec<u8>>)
    ensures
        match r {
            None => attribute_value(attrs@, k@) is None,
            Some(v) => attribute_value(attrs@, k@) == Some(v@),
        },
{
    let mut i: usize = attrs.len();
    assert(attrs@.subrange(0, i as int) =~= attrs@);
    while i > 0
        invariant
            i <= attrs.len(),
            attribute_value(attrs@, k@) == attribute_value(attrs@.subrange(0, i as int), k@),
        decreases i,
    {
        if bytes_equal(&attrs[i - 1].0, k) {
            return Some(&attrs[i - 1].1);
        }
        assert(attrs@.subrange(0, i as int).drop_last() =~= attrs@.subrange(0, i - 1));
        i -= 1;
    }
    None
}

fn attributes_covered(own: &Vec<(Vec<u8>, Vec<u8>)>, pattern: &Vec<(Vec<u8>, Vec<u8>)>) -> (r: bool)
    ensures
        r == attributes_cover(own@, pattern@),
{
    let mut i: usize = 0;
    while i < pattern.len()
        invariant
            i <= pattern.len(),
            forall|j: int|
                0 <= j < i ==> #[trigger] attribute_value(own@, pattern@[j].0@) == attribute_value(
                    pattern@,
                    pattern@[j].0@,
                ),
        decreases pattern.len() - i,
    {
        let same = match (find_attribute(own, &pattern[i].0), find_attribute(pattern, &pattern[i].0)) {
            (Some(a), Some(b)) => bytes_equal(a, b),
            (None, None) => true,
            _ => false,
        };
        if !same {
            return false;
        }
        i += 1;
    }
    true
}

impl Node {
    /// Whether this node matches `node`, read as a pattern: the same name,
    /// the same text where both have one, every attribute of the pattern
    /// present here with its value, and each child of the pattern, in order,
    /// matched by the first child here that no earlier one took.
    pub fn partial_match(&self, node: &Node) -> (r: bool)
        ensures
            r == node_matches(*self, *node),
        decreases node,
    {
        if !bytes_equal(&self.name, &node.name) {
            return false;
        }
        match (&self.value, &node.value) {
            (Some(v), Some(vv)) => {
                if !bytes_equal(v, vv) {
                    return false;
                }
            },
            _ => {},
        }
        if !attributes_covered(&self.attributes, &node.attributes) {
            return false;
        }
        let mut matched: Vec<bool> = Vec::new();
        let mut i: usize = 0;
        while i < self.sub.len()
            invariant
                i <= self.sub.len(),
                matched@.len() == i,
                forall|j: int| 0 <= j < i ==> !matched@[j],
            decreases self.sub.len() - i,
        {
            matched.push(false);
            i += 1;
        }
        assert(marked(matched@) =~= Set::<int>::empty());
        let mut k: usize = 0;
        while k < node.sub.len()
            invariant
                k <= node.sub.len(),
                matched@.len() == self.sub@.len(),
                children_match(self.sub@, Set::empty(), *node, 0) == children_match(
                    self.sub@,
                    marked(matched@),
                    *node,
                    k as int,
                ),
            decreases node.sub.len() - k,
        {
            let pat: &Node = &node.sub[k];
            let ghost used = marked(matched@);
            let mut hit: Option<usize> = None;
            let mut j: usize = 0;
            while j < self.sub.len() && hit.is_none()
                invariant
                    j <= self.sub.len(),
                    k < node.sub.len(),
                    *pat == *node.sub@[k as int],
                    matched@.len() == self.sub@.len(),
                    used == marked(matched@),
                    hit is None ==> first_free_match(self.sub@, used, *pat, 0) == first_free_match(
                        self.sub@,
                        used,
                        *pat,
                        j as int,
                    ),
                    hit matches Some(h) ==> first_free_match(self.sub@, used, *pat, 0) == Some(
                        h as int,
                    ) && h < self.sub@.len(),
                decreases self.sub.len() - j,
            {
                if !matched[j] && self.sub[j].partial_match(pat) {
                    hit = Some(j);
                }
                j += 1;
            }
            match hit {
                None => {
                    return false;
                },
                Some(h) => {
                    matched.set(h, true);
                    assert(marked(matched@) =~= used.insert(h as int));
                },
            }
            k += 1;
        }
        true
    }
}


/// An event of the XML reader, with what the tree builder reads of it.
#[derive(Debug, Clone, PartialEq)]
pub enum XmlEvent {
    /// An opening tag, its name and its attributes.
    Start { name: Vec<u8>, attributes: Vec<(Vec<u8>, Vec<u8>)> },
    /// Text between tags.
    Text(Vec<u8>),
    /// A closing tag.
    End,
    /// The end of the input.
    Eof,
    /// Input the reader could not read.
    Invalid,
    /// Anything else (comments, declarations, empty elements).
    Other,
}

/// A node as a mathematical tree: its children are trees in turn.
pub struct XmlTree {
    pub name: Seq<u8>,
    pub attributes: Seq<(Vec<u8>, Vec<u8>)>,
    pub sub: Seq<XmlTree>,
    pub value: Option<Seq<u8>>,
}

pub open spec fn bytes_view(v: Option<Vec<u8>>) -> Option<Seq<u8>> {
    match v {
        Some(b) => Some(b@),
        None => None,
    }
}

/// The tree that node `n` stands for.
pub open spec fn tree_of(n: Node) -> XmlTree
    decreases n,
{
    XmlTree {
        name: n.name@,
        attributes: n.attributes@,
        sub: Seq::new(
            n.sub@.len(),
            |i: int|
                if 0 <= i < n.sub@.len() {
                    tree_of(*n.sub@[i])
                } else {
                    XmlTree { name: seq![], attributes: seq![], sub: seq![], value: None }
                },
        ),
        value: bytes_view(n.value),
    }
}

/// Where building stands: the elements still open, innermost last, the
/// finished top-level elements, and whether reading has stopped.
pub struct Building {
    pub open: Seq<XmlTree>,
    pub top: Seq<XmlTree>,
    pub stopped: bool,
}

/// One event applied to the building state. A start tag opens an element;
/// text becomes the value of the innermost open element; an end tag closes
/// the innermost element into its parent, or into the top level. The end of
/// the input, unreadable input, or an end tag with nothing open stop reading.
pub open spec fn building_step(b: Building, e: XmlEvent) -> Building {
    if b.stopped {
        b
    } else {
        match e {
            XmlEvent::Start { name, attributes } => Building {
                open: b.open.push(XmlTree { name: name@, attributes: attributes@, sub: seq![], value: None }),
                ..b
            },
            XmlEvent::Text(t) => if b.open.len() > 0 {
                Building {
                    open: b.open.update(
                        b.open.len() - 1,
                        XmlTree { value: Some(t@), ..b.open.last() },
                    ),
                    ..b
                }
            } else {
                b
            },
            XmlEvent::End => if b.open.len() >= 2 {
                let child = b.open.last();
                let parent = b.open[b.open.len() - 2];
                Building {
                    open: b.open.drop_last().update(
                        b.open.len() - 2,
                        XmlTree { sub: parent.sub.push(child), ..parent },
                    ),
                    ..b
                }
            } else if b.open.len() == 1 {
                Building { open: b.open.drop_last(), top: b.top.push(b.open.last()), ..b }
            } else {
                Building { stopped: true, ..b }
            },
            XmlEvent::Eof => Building { stopped: true, ..b },
            XmlEvent::Invalid => Building { stopped: true, ..b },
            XmlEvent::Other => b,
        }
    }
}

/// The building state after `events`, from nothing open.
pub open spec fn building_after(events: Seq<XmlEvent>) -> Building
    decreases events.len(),
{
    if events.len() == 0 {
        Building { open: seq![], top: seq![], stopped: false }
    } else {
        building_step(building_after(events.drop_last()), events.last())
    }
}

/// The top-level elements that `events` describe.
pub open spec fn forest_of(events: Seq<XmlEvent>) -> Seq<XmlTree> {
    building_after(events).top
}

pub open spec fn trees_of_nodes(nodes: Seq<Node>) -> Seq<XmlTree> {
    Seq::new(nodes.len(), |i: int| tree_of(nodes[i]))
}

pub open spec fn trees_of_boxes(nodes: Seq<Box<Node>>) -> Seq<XmlTree> {
    Seq::new(nodes.len(), |i: int| tree_of(*nodes[i]))
}

impl Node {
    /// Builds the top-level elements that a sequence of reader events
    /// describes.
    pub fn build(events: Vec<XmlEvent>) -> (r: Vec<Box<Node>>)
        ensures
            trees_of_boxes(r@) == forest_of(events@),
    {
        let ghost all = events@;
        assert(all.len() == events.len());
        let mut events = events;
        let mut open: Vec<Node> = Vec::new();
        let mut top: Vec<Box<Node>> = Vec::new();
        let mut stopped = false;
        let mut k: usize = 0;
        assert(trees_of_nodes(open@) =~= building_after(all.subrange(0, 0)).open);
        assert(trees_of_boxes(top@) =~= building_after(all.subrange(0, 0)).top);
        while events.len() > 0 && !stopped
            invariant
                k + events@.len() == all.len(),
                all.len() <= usize::MAX,
                events@ == all.subrange(k as int, all.len() as int),
                trees_of_nodes(open@) == building_after(all.subrange(0, k as int)).open,
                trees_of_boxes(top@) == building_after(all.subrange(0, k as int)).top,
                stopped == building_after(all.subrange(0, k as int)).stopped,
            decreases events.len(),
        {
            let ghost before = building_after(all.subrange(0, k as int));
            let ghost open_before = open@;
            let e = events.remove(0);
            assert(all.subrange(0, k + 1).drop_last() =~= all.subrange(0, k as int));
            assert(e == all[k as int]);
            match e {
                XmlEvent::Start { name, attributes } => {
                    open.push(Node { name, attributes, sub: Vec::new(), value: None });
                    assert(trees_of_nodes(open@) =~= before.open.push(tree_of(open@.last())));
                    assert(tree_of(open@.last()).sub =~= Seq::<XmlTree>::empty());
                },
                XmlEvent::Text(t) => {
                    if open.len() > 0 {
                        let mut n = open.pop().unwrap();
                        n.value = Some(t);
                        open.push(n);
                        assert(trees_of_nodes(open@) =~= before.open.update(
                            before.open.len() - 1,
                            XmlTree { value: Some(t@), ..before.open.last() },
                        ));
                    }
                },
                XmlEvent::End => {
                    match open.pop() {
                        Some(child) => {
                            match open.pop() {
                                Some(parent) => {
                                    let ghost pb = parent;
                                    let mut parent = parent;
                                    parent.sub.push(Box::new(child));
                                    assert(pb == open_before[open_before.len() - 2]);
                                    assert(tree_of(pb) == before.open[before.open.len() - 2]);
                                    assert(tree_of(child) == before.open.last());
                                    assert(tree_of(parent).sub =~= tree_of(pb).sub.push(tree_of(child)));
                                    assert(tree_of(parent) == XmlTree {
                                        sub: tree_of(pb).sub.push(tree_of(child)),
                                        ..tree_of(pb)
                                    });
                                    open.push(parent);
                                    assert(trees_of_nodes(open@) =~= before.open.drop_last().update(
                                        before.open.len() - 2,
                                        XmlTree {
                                            sub: before.open[before.open.len() - 2].sub.push(before.open.last()),
                                            ..before.open[before.open.len() - 2]
                                        },
                                    ));
                                },
                                None => {
                                    top.push(Box::new(child));
                                    assert(trees_of_nodes(open@) =~= before.open.drop_last());
                                    assert(trees_of_boxes(top@) =~= before.top.push(before.open.last()));
                                },
                            }
                        },
                        None => {
                            stopped = true;
                        },
                    }
                },
                XmlEvent::Eof => {
                    stopped = true;
                },
                XmlEvent::Invalid => {
                    stopped = true;
                },
                XmlEvent::Other => {},
            }
            k += 1;
        }
        proof {
            lemma_stopped_stays(all, k as int);
        }
        top
    }
}

/// A quick-xml reader over a text. Verus refuses a declaration of
/// `quick_xml::Reader` (its parameter is bound by `BufRead`), so the reader is
/// held here, out of Verus's sight.
#[verifier::external_body]
struct XmlReader<'a> {
    reader: Reader<&'a [u8]>,
}

impl<'a> XmlReader<'a> {
    /// Relies on `quick_xml::Reader::from_str`: a reader over the text.
    #[verifier::external_body]
    fn new(xml: &'a str) -> XmlReader<'a> {
        XmlReader { reader: Reader::from_str(xml) }
    }

    /// Relies on `quick_xml::Reader::trim_text`: text is read without the
    /// whitespace around it, and whitespace alone is skipped.
    #[verifier::external_body]
    fn trim_text(&mut self) {
        self.reader.trim_text(true);
    }

    /// Relies on `quick_xml::Reader::read_event`: the next event, with its
    /// name, attributes and text copied out.
    #[verifier::external_body]
    fn next_event(&mut self) -> XmlEvent {
        let mut buf = Vec::new();
        match self.reader.read_event(&mut buf) {
            Ok(Event::Start(e)) => match e.attributes().map(|a| a.map(|a| (a.key.to_vec(), a.value.to_vec()))).collect() {
                Ok(attributes) => XmlEvent::Start { name: e.name().to_vec(), attributes },
                Err(_) => XmlEvent::Invalid,
            },
            Ok(Event::Text(t)) => XmlEvent::Text(t.to_vec()),
            Ok(Event::End(_)) => XmlEvent::End,
            Ok(Event::Eof) => XmlEvent::Eof,
            Ok(_) => XmlEvent::Other,
            Err(_) => XmlEvent::Invalid,
        }
    }
}

impl Node {
    /// Reads XML text, trimming the whitespace around text, and builds its
    /// top-level elements from the events read. Every event before the end
    /// of the input takes at least one byte of it, so no more reads than its
    /// length and one are made.
    pub fn parse(xml: &str) -> (r: Vec<Box<Node>>)
        ensures
            exists|events: Seq<XmlEvent>| trees_of_boxes(r@) == forest_of(events),
    {
        let mut reader = XmlReader::new(xml);
        reader.trim_text();
        let mut events: Vec<XmlEvent> = Vec::new();
        let limit: usize = xml.len();
        let mut reads: usize = 0;
        let mut done = false;
        while !done
            invariant
                reads <= limit,
            decreases 2 * (limit - reads) + if done {
                0int
            } else {
                1int
            },
        {
            let e = reader.next_event();
            let last = match e {
                XmlEvent::Eof => true,
                XmlEvent::Invalid => true,
                _ => false,
            };
            events.push(e);
            if last || reads == limit {
                done = true;
            } else {
                reads += 1;
            }
        }
        Node::build(events)
    }
}

/// Once reading has stopped, later events change nothing.
proof fn lemma_stopped_stays(events: Seq<XmlEvent>, k: int)
    requires
        0 <= k <= events.len(),
        k < events.len() ==> building_after(events.subrange(0, k)).stopped,
    ensures
        building_after(events) == building_after(events.subrange(0, k)),
    decreases events.len() - k,
{
    if k == events.len() {
        assert(events.subrange(0, k) =~= events);
    } else {
        assert(events.subrange(0, k + 1).drop_last() =~= events.subrange(0, k));
        lemma_stopped_stays(events, k + 1);
    }
}

} // verus!

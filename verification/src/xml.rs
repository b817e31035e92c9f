//! A minimal XML document model: elements with attributes, child elements
//! and character data, together with a verified tree builder over the event
//! stream that the external pull parser produces.
//!
//! The pull parser is the only trusted piece: it turns text into a flat
//! sequence of start/end/text events.  Everything above it — checking that
//! the events nest properly and assembling the element tree — is verified.

use vstd::prelude::*;

use ::xml::reader::EventReader;
use ::xml::reader::XmlEvent as PullEvent;

verus! {

/// One attribute of an XML element.
pub struct XmlAttr {
    /// Local attribute name.
    pub name: String,
    /// Attribute value.
    pub value: String,
}

/// Mathematical model of an attribute.
pub ghost struct XmlAttrV {
    /// Local attribute name.
    pub name: Seq<char>,
    /// Attribute value.
    pub value: Seq<char>,
}

impl View for XmlAttr {
    type V = XmlAttrV;

    open spec fn view(&self) -> XmlAttrV {
        XmlAttrV { name: self.name@, value: self.value@ }
    }
}

/// One XML element: its local name, its attributes in document order, its
/// child elements in document order, and its concatenated character data.
pub struct XmlElement {
    /// Local element name.
    pub name: String,
    /// Attributes, in document order.
    pub attrs: Vec<XmlAttr>,
    /// Child elements, in document order.
    pub children: Vec<XmlElement>,
    /// Concatenated character data directly inside the element.
    pub text: String,
}

/// Mathematical model of an element subtree.
pub ghost struct XmlElementV {
    /// Local element name.
    pub name: Seq<char>,
    /// Attributes, in document order.
    pub attrs: Seq<XmlAttrV>,
    /// Child elements, in document order.
    pub children: Seq<XmlElementV>,
    /// Concatenated character data directly inside the element.
    pub text: Seq<char>,
}

/// Model of a sequence of attributes.
pub open spec fn view_attrs(s: Seq<XmlAttr>) -> Seq<XmlAttrV> {
    Seq::new(s.len(), |i: int| s[i]@)
}

/// Model of one element subtree.
pub open spec fn view_elem(e: XmlElement) -> XmlElementV
    decreases e, 0int,
{
    XmlElementV {
        name: e.name@,
        attrs: view_attrs(e.attrs@),
        children: view_elems(e.children@),
        text: e.text@,
    }
}

/// Model of a sequence of element subtrees.
pub open spec fn view_elems(s: Seq<XmlElement>) -> Seq<XmlElementV>
    decreases s, 1int,
{
    if s.len() == 0 {
        Seq::empty()
    } else {
        seq![view_elem(s[0])] + view_elems(s.drop_first())
    }
}

impl View for XmlElement {
    type V = XmlElementV;

    open spec fn view(&self) -> XmlElementV {
        view_elem(*self)
    }
}

/// `view_elems` maps `view_elem` over the sequence, element by element.
pub proof fn lemma_view_elems(s: Seq<XmlElement>)
    ensures
        view_elems(s).len() == s.len(),
        forall|i: int| 0 <= i < s.len() ==> view_elems(s)[i] == view_elem(s[i]),
    decreases s.len(),
{
    if s.len() > 0 {
        lemma_view_elems(s.drop_first());
        assert forall|i: int| 0 <= i < s.len() implies view_elems(s)[i] == view_elem(s[i]) by {
            if i > 0 {
                assert(view_elems(s)[i] == view_elems(s.drop_first())[i - 1]);
                assert(s.drop_first()[i - 1] == s[i]);
            }
        }
    }
}

/// One event of the XML pull parser.
pub enum XmlEvent {
    /// An opening tag: local name and attributes.
    Start(String, Vec<XmlAttr>),
    /// A closing tag.
    End,
    /// Character data.
    Text(String),
}

/// Mathematical model of an event.
pub ghost enum XmlEventV {
    /// An opening tag: local name and attributes.
    Start(Seq<char>, Seq<XmlAttrV>),
    /// A closing tag.
    End,
    /// Character data.
    Text(Seq<char>),
}

impl View for XmlEvent {
    type V = XmlEventV;

    open spec fn view(&self) -> XmlEventV {
        match self {
            XmlEvent::Start(name, attrs) => XmlEventV::Start(name@, view_attrs(attrs@)),
            XmlEvent::End => XmlEventV::End,
            XmlEvent::Text(t) => XmlEventV::Text(t@),
        }
    }
}

/// Model of a sequence of events.
pub open spec fn view_events(s: Seq<XmlEvent>) -> Seq<XmlEventV> {
    Seq::new(s.len(), |i: int| s[i]@)
}

/// The event stream that the pull parser produces for a text, or `None`
/// where the text is not well-formed XML.  The stream holds the start,
/// end and character-data events of the document in order; markers,
/// comments, whitespace-only character data and processing instructions
/// are left out.
pub uninterp spec fn xml_events_of(s: Seq<char>) -> Option<Seq<XmlEventV>>;

/// Relies on `xml::reader::EventReader` of the `xml-rs` crate: it
/// pull-parses XML text into a stream of events, and its result depends on
/// the text alone.  Start, end and character-data (including CDATA) events
/// are kept with local names; document markers, comments, whitespace-only
/// character data and processing instructions are dropped; a
/// well-formedness error ends the parse.
#[verifier::external_body]
fn parse_events(s: &str) -> (r: Result<Vec<XmlEvent>, String>)
    ensures
        r is Ok <==> xml_events_of(s@) is Some,
        r matches Ok(v) ==> Some(view_events(v@)) == xml_events_of(s@),
{
    let mut out: Vec<XmlEvent> = Vec::new();
    for ev in EventReader::from_str(s) {
        match ev {
            Ok(PullEvent::StartElement { name, attributes, .. }) => out.push(XmlEvent::Start(
                name.local_name,
                attributes.into_iter().map(|a| XmlAttr { name: a.name.local_name, value: a.value }).collect(),
            )),
            Ok(PullEvent::EndElement { .. }) => out.push(XmlEvent::End),
            Ok(PullEvent::Characters(t)) => out.push(XmlEvent::Text(t)),
            Ok(PullEvent::CData(t)) => out.push(XmlEvent::Text(t)),
            Ok(_) => {}
            Err(e) => return Err(e.to_string()),
        }
    }
    Ok(out)
}

/// Parse one element from the front of `evs`: an opening tag, the element's
/// items, and its closing tag.  Returns the element and how many events it
/// used, or `None` where the events do not form an element.
pub open spec fn spec_node(evs: Seq<XmlEventV>) -> Option<(XmlElementV, int)>
    decreases evs.len(), 0int,
{
    if evs.len() == 0 {
        None
    } else {
        match evs[0] {
            XmlEventV::Start(name, attrs) => match spec_items(evs.skip(1)) {
                Some((children, text, used)) => Some(
                    (XmlElementV { name, attrs, children, text }, 1 + used),
                ),
                None => None,
            },
            _ => None,
        }
    }
}

/// Parse an element's items from the front of `evs`: child elements and
/// character data, up to and including the closing tag.  Returns the child
/// elements, the concatenated character data, and how many events were
/// used, or `None` where no matching closing tag follows.
pub open spec fn spec_items(evs: Seq<XmlEventV>) -> Option<(Seq<XmlElementV>, Seq<char>, int)>
    decreases evs.len(), 1int,
{
    if evs.len() == 0 {
        None
    } else {
        match evs[0] {
            XmlEventV::End => Some((Seq::empty(), Seq::empty(), 1)),
            XmlEventV::Text(t) => match spec_items(evs.skip(1)) {
                Some((children, text, used)) => Some((children, t + text, 1 + used)),
                None => None,
            },
            XmlEventV::Start(name, attrs) => match spec_node(evs) {
                Some((node, used)) => if 1 <= used <= evs.len() {
                    match spec_items(evs.skip(used)) {
                        Some((children, text, used2)) => Some(
                            (seq![node] + children, text, used + used2),
                        ),
                        None => None,
                    }
                } else {
                    None
                },
                None => None,
            },
        }
    }
}

/// Parse a whole event stream as one element with nothing after it.
pub open spec fn spec_document(evs: Seq<XmlEventV>) -> Option<XmlElementV> {
    match spec_node(evs) {
        Some((root, used)) => if used == evs.len() {
            Some(root)
        } else {
            None
        },
        None => None,
    }
}

/// Copy an attribute, keeping its model.
fn clone_attr(a: &XmlAttr) -> (r: XmlAttr)
    ensures
        r@ == a@,
{
    XmlAttr { name: a.name.clone(), value: a.value.clone() }
}

/// Copy an attribute list, keeping its model.
fn clone_attrs(attrs: &Vec<XmlAttr>) -> (r: Vec<XmlAttr>)
    ensures
        view_attrs(r@) == view_attrs(attrs@),
{
    let mut out: Vec<XmlAttr> = Vec::new();
    let mut i: usize = 0;
    while i < attrs.len()
        invariant
            i <= attrs@.len(),
            out@.len() == i,
            forall|j: int| 0 <= j < i ==> out@[j]@ == attrs@[j]@,
        decreases attrs@.len() - i,
    {
        out.push(clone_attr(&attrs[i]));
        i += 1;
    }
    proof {
        assert(view_attrs(out@) =~= view_attrs(attrs@));
    }
    out
}

/// Build one element starting at `pos`, mirroring `spec_node`.
fn build_node(evs: &Vec<XmlEvent>, pos: usize) -> (r: Option<(XmlElement, usize)>)
    requires
        pos <= evs@.len(),
    ensures
        r matches Some(p) ==> spec_node(view_events(evs@).skip(pos as int)) == Some(
            (p.0@, p.1 - pos),
        ),
        r matches Some(p) ==> pos < p.1 <= evs@.len(),
        r is None ==> spec_node(view_events(evs@).skip(pos as int)) is None,
    decreases evs@.len() - pos, 0int,
{
    let ghost rest = view_events(evs@).skip(pos as int);
    if pos == evs.len() {
        return None;
    }
    assert(rest[0] == evs@[pos as int]@);
    match &evs[pos] {
        XmlEvent::Start(name, attrs) => {
            let name = name.clone();
            let attrs = clone_attrs(attrs);
            proof {
                assert(rest.skip(1) =~= view_events(evs@).skip(pos as int + 1));
            }
            match build_items(evs, pos + 1) {
                Some((children, text, end)) => Some((XmlElement { name, attrs, children, text }, end)),
                None => None,
            }
        },
        _ => None,
    }
}

/// Build an element's items starting at `pos`, mirroring `spec_items`.
fn build_items(evs: &Vec<XmlEvent>, pos: usize) -> (r: Option<(Vec<XmlElement>, String, usize)>)
    requires
        pos <= evs@.len(),
    ensures
        r matches Some(p) ==> spec_items(view_events(evs@).skip(pos as int)) == Some(
            (view_elems(p.0@), p.1@, p.2 - pos),
        ),
        r matches Some(p) ==> pos < p.2 <= evs@.len(),
        r is None ==> spec_items(view_events(evs@).skip(pos as int)) is None,
    decreases evs@.len() - pos, 1int,
{
    let ghost rest = view_events(evs@).skip(pos as int);
    if pos == evs.len() {
        return None;
    }
    assert(rest[0] == evs@[pos as int]@);
    match &evs[pos] {
        XmlEvent::End => {
            let out: Vec<XmlElement> = Vec::new();
            Some((out, String::new(), pos + 1))
        },
        XmlEvent::Text(t) => {
            proof {
                assert(rest.skip(1) =~= view_events(evs@).skip(pos as int + 1));
            }
            match build_items(evs, pos + 1) {
                Some((children, text, end)) => {
                    let mut s = t.clone();
                    s.append(text.as_str());
                    Some((children, s, end))
                },
                None => None,
            }
        },
        XmlEvent::Start(_, _) => match build_node(evs, pos) {
            Some((node, mid)) => {
                proof {
                    assert(rest.skip(mid - pos) =~= view_events(evs@).skip(mid as int));
                }
                match build_items(evs, mid) {
                    Some((children, text, end)) => {
                        let ghost pre = children@;
                        let mut children = children;
                        children.insert(0, node);
                        proof {
                            assert(children@ =~= seq![node] + pre);
                            lemma_view_elems_cons(node, pre);
                        }
                        Some((children, text, end))
                    },
                    None => None,
                }
            },
            None => None,
        },
    }
}

/// Prepending an element maps through `view_elems`.
pub proof fn lemma_view_elems_cons(x: XmlElement, s: Seq<XmlElement>)
    ensures
        view_elems(seq![x] + s) == seq![view_elem(x)] + view_elems(s),
{
    let t = seq![x] + s;
    assert(t.len() == s.len() + 1);
    assert(t[0] == x);
    assert(t.drop_first() =~= s);
}

/// Build the document tree from the whole event stream, mirroring
/// `spec_document`.
pub fn build_document(evs: &Vec<XmlEvent>) -> (r: Option<XmlElement>)
    ensures
        r matches Some(root) ==> spec_document(view_events(evs@)) == Some(root@),
        r is None ==> spec_document(view_events(evs@)) is None,
{
    proof {
        assert(view_events(evs@).skip(0) =~= view_events(evs@));
    }
    match build_node(evs, 0) {
        Some((root, end)) => if end == evs.len() {
            Some(root)
        } else {
            None
        },
        None => None,
    }
}

/// Parse XML text into its element tree: the pull parser supplies the
/// events, and the verified builder checks that they nest properly.
/// Fails with a diagnostic where the text is not a well-formed document
/// with a single root element.
pub fn parse_document(s: &str) -> (r: Result<XmlElement, String>)
    ensures
        r is Ok <==> spec_parse_document(s@) is Some,
        r matches Ok(root) ==> Some(root@) == spec_parse_document(s@),
{
    match parse_events(s) {
        Ok(evs) => match build_document(&evs) {
            Some(root) => Ok(root),
            None => Err("XML events do not form a single document element".to_owned()),
        },
        Err(msg) => Err(msg),
    }
}

/// The element tree of a text: the parser's event stream, where it exists
/// and nests properly as one document element.
pub open spec fn spec_parse_document(s: Seq<char>) -> Option<XmlElementV> {
    match xml_events_of(s) {
        Some(evs) => spec_document(evs),
        None => None,
    }
}

/// A text with a leading byte-order mark removed; any other text unchanged.
pub open spec fn spec_strip_bom(s: Seq<char>) -> Seq<char> {
    if s.len() > 0 && s[0] == '\u{feff}' {
        s.skip(1)
    } else {
        s
    }
}

/// Remove a leading byte-order mark, if one is present.
pub fn strip_bom(s: &str) -> (r: &str)
    ensures
        r@ == spec_strip_bom(s@),
{
    let n = s.unicode_len();
    if n > 0 && s.get_char(0) == '\u{feff}' {
        let r = s.substring_char(1, n);
        proof {
            assert(r@ =~= s@.skip(1));
        }
        r
    } else {
        s
    }
}

/// Whether two string slices hold the same characters.
pub fn str_eq(a: &str, b: &str) -> (r: bool)
    ensures
        r == (a@ == b@),
{
    let x = a.to_owned();
    let y = b.to_owned();
    x == y
}

/// The value of the first attribute whose name is `n1` or `n2`.
pub open spec fn spec_attr(attrs: Seq<XmlAttrV>, n1: Seq<char>, n2: Seq<char>) -> Option<Seq<char>>
    decreases attrs.len(),
{
    if attrs.len() == 0 {
        None
    } else if attrs[0].name == n1 || attrs[0].name == n2 {
        Some(attrs[0].value)
    } else {
        spec_attr(attrs.drop_first(), n1, n2)
    }
}

/// Where no attribute name matches, the lookup finds nothing.
pub proof fn lemma_spec_attr_none(attrs: Seq<XmlAttrV>, n1: Seq<char>, n2: Seq<char>)
    requires
        forall|j: int| 0 <= j < attrs.len() ==> #[trigger] attrs[j].name != n1 && attrs[j].name != n2,
    ensures
        spec_attr(attrs, n1, n2) is None,
    decreases attrs.len(),
{
    if attrs.len() > 0 {
        lemma_spec_attr_none(attrs.drop_first(), n1, n2);
    }
}

/// The lookup finds the first matching attribute.
pub proof fn lemma_spec_attr_found(attrs: Seq<XmlAttrV>, n1: Seq<char>, n2: Seq<char>, i: int)
    requires
        0 <= i < attrs.len(),
        attrs[i].name == n1 || attrs[i].name == n2,
        forall|j: int| 0 <= j < i ==> #[trigger] attrs[j].name != n1 && attrs[j].name != n2,
    ensures
        spec_attr(attrs, n1, n2) == Some(attrs[i].value),
    decreases i,
{
    if i > 0 {
        lemma_spec_attr_found(attrs.drop_first(), n1, n2, i - 1);
    }
}

/// Look up an attribute under either of its two accepted names and return a
/// copy of its value.
pub fn find_attr(e: &XmlElement, n1: &str, n2: &str) -> (r: Option<String>)
    ensures
        r matches Some(v) ==> spec_attr(e@.attrs, n1@, n2@) == Some(v@),
        r is None ==> spec_attr(e@.attrs, n1@, n2@) is None,
{
    let ghost av = e@.attrs;
    let mut i: usize = 0;
    while i < e.attrs.len()
        invariant
            i <= e.attrs@.len(),
            av == view_attrs(e.attrs@),
            forall|j: int| 0 <= j < i ==> #[trigger] av[j].name != n1@ && av[j].name != n2@,
        decreases e.attrs@.len() - i,
    {
        let a = &e.attrs[i];
        if str_eq(a.name.as_str(), n1) || str_eq(a.name.as_str(), n2) {
            proof {
                lemma_spec_attr_found(av, n1@, n2@, i as int);
            }
            return Some(a.value.clone());
        }
        i += 1;
    }
    proof {
        lemma_spec_attr_none(av, n1@, n2@);
    }
    None
}

/// The first child element whose name is `n1` or `n2`.
pub open spec fn spec_child(cs: Seq<XmlElementV>, n1: Seq<char>, n2: Seq<char>) -> Option<
    XmlElementV,
>
    decreases cs.len(),
{
    if cs.len() == 0 {
        None
    } else if cs[0].name == n1 || cs[0].name == n2 {
        Some(cs[0])
    } else {
        spec_child(cs.drop_first(), n1, n2)
    }
}

/// Where no child name matches, the lookup finds nothing.
pub proof fn lemma_spec_child_none(cs: Seq<XmlElementV>, n1: Seq<char>, n2: Seq<char>)
    requires
        forall|j: int| 0 <= j < cs.len() ==> #[trigger] cs[j].name != n1 && cs[j].name != n2,
    ensures
        spec_child(cs, n1, n2) is None,
    decreases cs.len(),
{
    if cs.len() > 0 {
        lemma_spec_child_none(cs.drop_first(), n1, n2);
    }
}

/// The lookup finds the first matching child.
pub proof fn lemma_spec_child_found(cs: Seq<XmlElementV>, n1: Seq<char>, n2: Seq<char>, i: int)
    requires
        0 <= i < cs.len(),
        cs[i].name == n1 || cs[i].name == n2,
        forall|j: int| 0 <= j < i ==> #[trigger] cs[j].name != n1 && cs[j].name != n2,
    ensures
        spec_child(cs, n1, n2) == Some(cs[i]),
    decreases i,
{
    if i > 0 {
        lemma_spec_child_found(cs.drop_first(), n1, n2, i - 1);
    }
}

/// Look up the first child element under either of its two accepted names.
pub fn find_child<'a>(e: &'a XmlElement, n1: &str, n2: &str) -> (r: Option<&'a XmlElement>)
    ensures
        r matches Some(c) ==> spec_child(e@.children, n1@, n2@) == Some(c@),
        r is None ==> spec_child(e@.children, n1@, n2@) is None,
{
    proof {
        lemma_view_elems(e.children@);
    }
    let ghost cv = e@.children;
    let mut i: usize = 0;
    while i < e.children.len()
        invariant
            i <= e.children@.len(),
            cv == view_elems(e.children@),
            cv.len() == e.children@.len(),
            forall|j: int| 0 <= j < e.children@.len() ==> #[trigger] cv[j] == view_elem(
                e.children@[j],
            ),
            forall|j: int| 0 <= j < i ==> #[trigger] cv[j].name != n1@ && cv[j].name != n2@,
        decreases e.children@.len() - i,
    {
        let c = &e.children[i];
        if str_eq(c.name.as_str(), n1) || str_eq(c.name.as_str(), n2) {
            proof {
                lemma_spec_child_found(cv, n1@, n2@, i as int);
            }
            return Some(c);
        }
        i += 1;
    }
    proof {
        lemma_spec_child_none(cv, n1@, n2@);
    }
    None
}

/// All child elements whose name is `n1` or `n2`, in document order.
pub open spec fn spec_children(cs: Seq<XmlElementV>, n1: Seq<char>, n2: Seq<char>) -> Seq<
    XmlElementV,
>
    decreases cs.len(),
{
    if cs.len() == 0 {
        Seq::empty()
    } else if cs[0].name == n1 || cs[0].name == n2 {
        seq![cs[0]] + spec_children(cs.drop_first(), n1, n2)
    } else {
        spec_children(cs.drop_first(), n1, n2)
    }
}

/// Appending a child extends the filtered sequence exactly when its name
/// matches.
pub proof fn lemma_spec_children_push(
    cs: Seq<XmlElementV>,
    x: XmlElementV,
    n1: Seq<char>,
    n2: Seq<char>,
)
    ensures
        spec_children(cs.push(x), n1, n2) == if x.name == n1 || x.name == n2 {
            spec_children(cs, n1, n2).push(x)
        } else {
            spec_children(cs, n1, n2)
        },
    decreases cs.len(),
{
    let e = Seq::<XmlElementV>::empty();
    if cs.len() == 0 {
        assert(cs =~= e);
        assert(cs.push(x).drop_first() =~= e);
        assert(cs.push(x)[0] == x);
        assert(spec_children(e, n1, n2) == e);
        if x.name == n1 || x.name == n2 {
            assert(spec_children(cs.push(x), n1, n2) == seq![x] + e);
            assert(seq![x] + e =~= e.push(x));
        }
    } else {
        lemma_spec_children_push(cs.drop_first(), x, n1, n2);
        assert(cs.push(x).drop_first() =~= cs.drop_first().push(x));
        assert(cs.push(x)[0] == cs[0]);
        let tail = spec_children(cs.drop_first(), n1, n2);
        if cs[0].name == n1 || cs[0].name == n2 {
            assert(spec_children(cs, n1, n2) == seq![cs[0]] + tail);
            if x.name == n1 || x.name == n2 {
                assert(spec_children(cs.push(x), n1, n2) == seq![cs[0]] + tail.push(x));
                assert(seq![cs[0]] + tail.push(x) =~= (seq![cs[0]] + tail).push(x));
            } else {
                assert(spec_children(cs.push(x), n1, n2) == seq![cs[0]] + tail);
            }
        } else {
            assert(spec_children(cs, n1, n2) == tail);
            if x.name == n1 || x.name == n2 {
                assert(spec_children(cs.push(x), n1, n2) == tail.push(x));
            } else {
                assert(spec_children(cs.push(x), n1, n2) == tail);
            }
        }
    }
}

/// Model of a sequence of borrowed elements.
pub open spec fn view_elem_refs(s: Seq<&XmlElement>) -> Seq<XmlElementV> {
    Seq::new(s.len(), |i: int| s[i]@)
}

/// Collect the child elements that carry either of the two accepted names,
/// in document order.
pub fn find_children<'a>(e: &'a XmlElement, n1: &str, n2: &str) -> (r: Vec<&'a XmlElement>)
    ensures
        view_elem_refs(r@) == spec_children(e@.children, n1@, n2@),
{
    proof {
        lemma_view_elems(e.children@);
    }
    let ghost cv = e@.children;
    let mut out: Vec<&'a XmlElement> = Vec::new();
    let mut i: usize = 0;
    while i < e.children.len()
        invariant
            i <= e.children@.len(),
            cv == view_elems(e.children@),
            cv.len() == e.children@.len(),
            forall|j: int| 0 <= j < e.children@.len() ==> #[trigger] cv[j] == view_elem(
                e.children@[j],
            ),
            view_elem_refs(out@) == spec_children(cv.take(i as int), n1@, n2@),
        decreases e.children@.len() - i,
    {
        let c = &e.children[i];
        proof {
            assert(cv.take(i as int + 1) =~= cv.take(i as int).push(cv[i as int]));
            lemma_spec_children_push(cv.take(i as int), cv[i as int], n1@, n2@);
        }
        if str_eq(c.name.as_str(), n1) || str_eq(c.name.as_str(), n2) {
            out.push(c);
            proof {
                assert(view_elem_refs(out@) =~= spec_children(cv.take(i as int + 1), n1@, n2@));
            }
        } else {
            proof {
                assert(view_elem_refs(out@) =~= spec_children(cv.take(i as int + 1), n1@, n2@));
            }
        }
        i += 1;
    }
    proof {
        assert(cv.take(e.children@.len() as int) =~= cv);
    }
    out
}

} // verus!

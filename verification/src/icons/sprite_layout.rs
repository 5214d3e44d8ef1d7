//! The menu's sprite layouts: XML documents naming the atlas texture they
//! cut (the root element's `imagePath`) and, per `SubTexture` element, an
//! icon's name and rectangle.
use vstd::prelude::*;
use crate::icons::{parse_name, spec_parse_name};
use crate::text::{chars_of, str_eq};

verus! {

/// A node of a parsed XML document: whether it is an element, its tag's local
/// name (empty for other nodes), and its attributes' local names and values,
/// in document order.
pub struct XmlNode {
    pub is_element: bool,
    pub tag: String,
    pub attributes: Vec<(String, String)>,
}

pub ghost struct XmlNodeView {
    pub is_element: bool,
    pub tag: Seq<char>,
    pub attributes: Seq<(Seq<char>, Seq<char>)>,
}

impl View for XmlNode {
    type V = XmlNodeView;

    open spec fn view(&self) -> XmlNodeView {
        XmlNodeView {
            is_element: self.is_element,
            tag: self.tag@,
            attributes: self.attributes@.map_values(|a: (String, String)| (a.0@, a.1@)),
        }
    }
}

pub open spec fn nodes_view(v: Seq<XmlNode>) -> Seq<XmlNodeView> {
    v.map_values(|n: XmlNode| n@)
}

/// The nodes of the XML text in document order, as roxmltree's
/// `Document::parse` and `Document::descendants` give them (the document's
/// root node first); `None` where the text is not well-formed XML.
pub uninterp spec fn xml_nodes(text: Seq<char>) -> Option<Seq<XmlNodeView>>;

/// roxmltree's `Document::parse`, then each of `Document::descendants` as its
/// `Node::is_element`, `Node::tag_name` (local name) and `Node::attributes`
/// (local names and values); the result is `xml_nodes` of the text. Nothing
/// is claimed of how the parser reads XML.
#[verifier::external_body]
fn parse_xml(text: &str) -> (r: Option<Vec<XmlNode>>)
    ensures
        match r {
            Some(v) => xml_nodes(text@) == Some(nodes_view(v@)),
            None => xml_nodes(text@) is None,
        },
{
    let doc = roxmltree::Document::parse(text).ok()?;
    let nodes = doc.descendants().map(|n| XmlNode {
        is_element: n.is_element(),
        tag: n.tag_name().name().to_string(),
        attributes: n.attributes().map(|a| (a.name().to_string(), a.value().to_string())).collect(),
    });
    Some(nodes.collect())
}

/// The value of the first attribute with local name `name`.
pub open spec fn attribute(attrs: Seq<(Seq<char>, Seq<char>)>, name: Seq<char>) -> Option<Seq<char>>
    decreases attrs.len(),
{
    if attrs.len() == 0 {
        None
    } else if attrs[0].0 == name {
        Some(attrs[0].1)
    } else {
        attribute(attrs.drop_first(), name)
    }
}

/// The first element of the nodes: a document's root element.
pub open spec fn first_element(nodes: Seq<XmlNodeView>) -> Option<XmlNodeView>
    decreases nodes.len(),
{
    if nodes.len() == 0 {
        None
    } else if nodes[0].is_element {
        Some(nodes[0])
    } else {
        first_element(nodes.drop_first())
    }
}

pub open spec fn png_suffix() -> Seq<char> {
    seq!['.', 'p', 'n', 'g']
}

/// `s` with every repetition of `p` at its end removed
/// (`str::trim_end_matches`).
pub open spec fn strip_suffixes(s: Seq<char>, p: Seq<char>) -> Seq<char>
    decreases s.len(),
{
    if p.len() > 0 && s.len() >= p.len() && s.skip(s.len() - p.len()) == p {
        strip_suffixes(s.take(s.len() - p.len()), p)
    } else {
        s
    }
}

/// An icon of a layout: its goods id and its rectangle's attributes as
/// written (each `None` where the element lacks it).
pub struct SpriteIcon {
    pub id: u16,
    pub x: Option<String>,
    pub y: Option<String>,
    pub width: Option<String>,
    pub height: Option<String>,
}

pub ghost struct SpriteIconView {
    pub id: u16,
    pub x: Option<Seq<char>>,
    pub y: Option<Seq<char>>,
    pub width: Option<Seq<char>>,
    pub height: Option<Seq<char>>,
}

pub open spec fn opt_view(o: Option<String>) -> Option<Seq<char>> {
    match o {
        Some(s) => Some(s@),
        None => None,
    }
}

impl View for SpriteIcon {
    type V = SpriteIconView;

    open spec fn view(&self) -> SpriteIconView {
        SpriteIconView {
            id: self.id,
            x: opt_view(self.x),
            y: opt_view(self.y),
            width: opt_view(self.width),
            height: opt_view(self.height),
        }
    }
}

/// A sprite layout: the atlas it cuts and its icons.
pub struct SpriteLayout {
    pub atlas_name: String,
    pub icons: Vec<SpriteIcon>,
}

/// Why a sprite layout could not be read.
#[derive(Clone, Copy, Debug, PartialEq, Eq, Structural)]
pub enum SpriteLayoutError {
    /// The text is not well-formed XML.
    NotXml,
    /// The root element has no `imagePath` attribute.
    NoImagePath,
    /// A `SubTexture` element has no `name` attribute.
    SubTextureWithoutName,
}

pub open spec fn sub_texture_tag() -> Seq<char> {
    seq!['S', 'u', 'b', 'T', 'e', 'x', 't', 'u', 'r', 'e']
}

pub open spec fn name_attr() -> Seq<char> {
    seq!['n', 'a', 'm', 'e']
}

/// The icons of the layout's nodes: each `SubTexture` element whose name is
/// an icon's, in order; an error where such an element has no name.
pub open spec fn layout_icons(nodes: Seq<XmlNodeView>) -> Result<Seq<SpriteIconView>, SpriteLayoutError>
    decreases nodes.len(),
{
    if nodes.len() == 0 {
        Ok(Seq::empty())
    } else {
        match layout_icons(nodes.drop_last()) {
            Err(e) => Err(e),
            Ok(before) => {
                let n = nodes.last();
                if !n.is_element || n.tag != sub_texture_tag() {
                    Ok(before)
                } else {
                    match attribute(n.attributes, name_attr()) {
                        None => Err(SpriteLayoutError::SubTextureWithoutName),
                        Some(name) => match spec_parse_name(name) {
                            None => Ok(before),
                            Some(id) => Ok(
                                before.push(
                                    SpriteIconView {
                                        id,
                                        x: attribute(n.attributes, seq!['x']),
                                        y: attribute(n.attributes, seq!['y']),
                                        width: attribute(
                                            n.attributes,
                                            seq!['w', 'i', 'd', 't', 'h'],
                                        ),
                                        height: attribute(
                                            n.attributes,
                                            seq!['h', 'e', 'i', 'g', 'h', 't'],
                                        ),
                                    },
                                ),
                            ),
                        },
                    }
                }
            },
        }
    }
}

/// A layout read from the nodes of its document: the root element's
/// `imagePath` without its `.png` endings names the atlas.
pub open spec fn spec_layout(nodes: Seq<XmlNodeView>) -> Result<(Seq<char>, Seq<SpriteIconView>), SpriteLayoutError> {
    let image_path = match first_element(nodes) {
        Some(root) => attribute(root.attributes, seq!['i', 'm', 'a', 'g', 'e', 'P', 'a', 't', 'h']),
        None => None,
    };
    match image_path {
        None => Err(SpriteLayoutError::NoImagePath),
        Some(path) => match layout_icons(nodes) {
            Err(e) => Err(e),
            Ok(icons) => Ok((strip_suffixes(path, png_suffix()), icons)),
        },
    }
}

pub open spec fn layout_result_view(r: Result<SpriteLayout, SpriteLayoutError>) -> Result<
    (Seq<char>, Seq<SpriteIconView>),
    SpriteLayoutError,
> {
    match r {
        Ok(l) => Ok((l.atlas_name@, l.icons@.map_values(|i: SpriteIcon| i@))),
        Err(e) => Err(e),
    }
}

proof fn lemma_error_persists(nodes: Seq<XmlNodeView>, k: int)
    requires
        0 <= k <= nodes.len(),
        layout_icons(nodes.take(k)) is Err,
    ensures
        layout_icons(nodes) == layout_icons(nodes.take(k)),
    decreases nodes.len() - k,
{
    if k < nodes.len() {
        assert(nodes.take(k + 1).drop_last() =~= nodes.take(k));
        lemma_error_persists(nodes, k + 1);
    } else {
        assert(nodes.take(k) =~= nodes);
    }
}

fn find_attribute(attrs: &Vec<(String, String)>, name: &str) -> (r: Option<String>)
    ensures
        opt_view(r) == attribute(attrs@.map_values(|a: (String, String)| (a.0@, a.1@)), name@),
{
    let ghost v = attrs@.map_values(|a: (String, String)| (a.0@, a.1@));
    let n = attrs.len();
    let mut i: usize = 0;
    assert(v.skip(0) =~= v);
    while i < n
        invariant
            n == attrs@.len(),
            v == attrs@.map_values(|a: (String, String)| (a.0@, a.1@)),
            i <= n,
            attribute(v, name@) == attribute(v.skip(i as int), name@),
        decreases n - i,
    {
        assert(v.skip(i as int).drop_first() =~= v.skip(i + 1));
        assert(v.skip(i as int)[0] == (attrs@[i as int].0@, attrs@[i as int].1@));
        if str_eq(attrs[i].0.as_str(), name) {
            return Some(attrs[i].1.clone());
        }
        i += 1;
    }
    None
}

fn strip_png(s: &str) -> (r: String)
    ensures
        r@ == strip_suffixes(s@, png_suffix()),
{
    let c = chars_of(s);
    let suffix: [char; 4] = ['.', 'p', 'n', 'g'];
    assert(suffix@ == png_suffix());
    let mut end = c.len();
    assert(c@.take(end as int) =~= c@);
    loop
        invariant
            end <= c@.len(),
            suffix@ == png_suffix(),
            strip_suffixes(c@.take(end as int), png_suffix()) == strip_suffixes(s@, png_suffix()),
            c@ == s@,
        ensures
            strip_suffixes(c@.take(end as int), png_suffix()) == c@.take(end as int),
        decreases end,
    {
        let ghost t = c@.take(end as int);
        if end < 4 {
            break;
        }
        let matched = c[end - 4] == '.' && c[end - 3] == 'p' && c[end - 2] == 'n' && c[end - 1] == 'g';
        assert(matched == (t.skip(t.len() - 4) =~= png_suffix()));
        if !matched {
            break;
        }
        assert(t.take(t.len() - 4) =~= c@.take(end - 4));
        end -= 4;
    }
    let mut out = String::new();
    let mut i: usize = 0;
    while i < end
        invariant
            end <= c@.len(),
            i <= end,
            out@ == c@.take(i as int),
        decreases end - i,
    {
        crate::utf16::push_char(&mut out, c[i]);
        assert(c@.take(i + 1) =~= c@.take(i as int).push(c@[i as int]));
        i += 1;
    }
    out
}

/// Reads a sprite layout from its XML text (see `spec_layout`).
pub fn parse_layout(xml: &str) -> (r: Result<SpriteLayout, SpriteLayoutError>)
    ensures
        layout_result_view(r) == match xml_nodes(xml@) {
            None => Err(SpriteLayoutError::NotXml),
            Some(nodes) => spec_layout(nodes),
        },
{
    match parse_xml(xml) {
        None => Err(SpriteLayoutError::NotXml),
        Some(nodes) => layout_of_nodes(&nodes),
    }
}

/// Reads a sprite layout from the nodes of its parsed document (see
/// `spec_layout`).
pub fn layout_of_nodes(nodes: &Vec<XmlNode>) -> (r: Result<SpriteLayout, SpriteLayoutError>)
    ensures
        layout_result_view(r) == spec_layout(nodes_view(nodes@)),
{
    let ghost nv = nodes_view(nodes@);
    // The root element's image path.
    let n = nodes.len();
    let mut k: usize = 0;
    assert(nv.skip(0) =~= nv);
    while k < n
        invariant
            n == nodes@.len(),
            nv == nodes_view(nodes@),
            k <= n,
            first_element(nv) == first_element(nv.skip(k as int)),
            forall|m: int| 0 <= m < k ==> !nodes@[m].is_element,
        ensures
            k < n ==> nodes@[k as int].is_element,
        decreases n - k,
    {
        assert(nv.skip(k as int).drop_first() =~= nv.skip(k + 1));
        if nodes[k].is_element {
            break;
        }
        k += 1;
    }
    if k == n {
        assert(nv.skip(n as int) =~= Seq::<XmlNodeView>::empty());
        assert(first_element(nv) is None);
        return Err(SpriteLayoutError::NoImagePath);
    }
    assert(nv.skip(k as int)[0] == nv[k as int]);
    assert(nv[k as int] == nodes@[k as int]@);
    assert(first_element(nv.skip(k as int)) == Some(nv[k as int]));
    assert(first_element(nv) == Some(nv[k as int]));
    proof {
        reveal_strlit("imagePath");
        assert("imagePath"@ == seq!['i', 'm', 'a', 'g', 'e', 'P', 'a', 't', 'h']);
    }
    let image_path = match find_attribute(&nodes[k].attributes, "imagePath") {
        Some(p) => p,
        None => {
            proof {
                reveal_strlit("imagePath");
            }
            return Err(SpriteLayoutError::NoImagePath);
        },
    };
    proof {
        reveal_strlit("imagePath");
    }
    // The icons.
    let mut icons: Vec<SpriteIcon> = Vec::new();
    let mut i: usize = 0;
    proof {
        reveal_strlit("SubTexture");
        reveal_strlit("name");
        reveal_strlit("x");
        reveal_strlit("y");
        reveal_strlit("width");
        reveal_strlit("height");
        assert(nv.take(0) =~= Seq::<XmlNodeView>::empty());
        assert(icons@.map_values(|s: SpriteIcon| s@) =~= Seq::<SpriteIconView>::empty());
    }
    while i < n
        invariant
            n == nodes@.len(),
            nv == nodes_view(nodes@),
            i <= n,
            layout_icons(nv.take(i as int)) == Ok::<Seq<SpriteIconView>, SpriteLayoutError>(
                icons@.map_values(|s: SpriteIcon| s@),
            ),
            "SubTexture"@ == sub_texture_tag(),
            "name"@ == name_attr(),
            "x"@ == seq!['x'],
            "y"@ == seq!['y'],
            "width"@ == seq!['w', 'i', 'd', 't', 'h'],
            "height"@ == seq!['h', 'e', 'i', 'g', 'h', 't'],
            spec_layout(nv) == match layout_icons(nv) {
                Err(e) => Err(e),
                Ok(ic) => Ok((strip_suffixes(image_path@, png_suffix()), ic)),
            },
        decreases n - i,
    {
        let node = &nodes[i];
        proof {
            assert(nv.take(i + 1).drop_last() =~= nv.take(i as int));
            assert(nv.take(i + 1).last() == node@);
        }
        let ghost before = icons@.map_values(|s: SpriteIcon| s@);
        if node.is_element && str_eq(node.tag.as_str(), "SubTexture") {
            let name = match find_attribute(&node.attributes, "name") {
                Some(nm) => nm,
                None => {
                    proof {
                        lemma_error_persists(nv, i + 1);
                    }
                    return Err(SpriteLayoutError::SubTextureWithoutName);
                },
            };
            match parse_name(name) {
                None => {},
                Some(id) => {
                    let icon = SpriteIcon {
                        id,
                        x: find_attribute(&node.attributes, "x"),
                        y: find_attribute(&node.attributes, "y"),
                        width: find_attribute(&node.attributes, "width"),
                        height: find_attribute(&node.attributes, "height"),
                    };
                    icons.push(icon);
                    assert(icons@.map_values(|s: SpriteIcon| s@) =~= before.push(icon@));
                },
            }
        }
        i += 1;
    }
    assert(nv.take(n as int) =~= nv);
    Ok(SpriteLayout { atlas_name: strip_png(image_path.as_str()), icons })
}

} // verus!

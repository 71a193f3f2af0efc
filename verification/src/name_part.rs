//! Type references as sequences of name parts.

use vstd::prelude::*;
use vstd::string::*;

verus! {

/// One segment of a type reference.
#[derive(Clone, Debug, PartialEq, Eq)]
pub enum NamePart {
    /// Literal text, such as `<`, `, ` or `{`.
    Symbol(String),
    /// The name of a type.
    Type(String),
}

/// What a [`NamePart`] stands for.
pub enum NamePartView {
    Symbol(Seq<char>),
    Type(Seq<char>),
}

impl NamePartView {
    /// The text that this segment contributes to a type reference.
    pub open spec fn text(self) -> Seq<char> {
        match self {
            NamePartView::Symbol(s) => s,
            NamePartView::Type(s) => s,
        }
    }

    /// A segment is well formed when it is not empty.
    pub open spec fn wf(self) -> bool {
        self.text().len() > 0
    }
}

impl View for NamePart {
    type V = NamePartView;

    open spec fn view(&self) -> NamePartView {
        match self {
            NamePart::Symbol(s) => NamePartView::Symbol(s@),
            NamePart::Type(s) => NamePartView::Type(s@),
        }
    }
}

/// The views of the parts of a type reference.
pub open spec fn parts_view(parts: Seq<NamePart>) -> Seq<NamePartView> {
    parts.map_values(|p: NamePart| p@)
}

/// The views of several type references.
pub open spec fn refs_view(refs: Seq<Vec<NamePart>>) -> Seq<Seq<NamePartView>> {
    refs.map_values(|r: Vec<NamePart>| parts_view(r@))
}

/// The text of a type reference: its segments one after the other, with
/// nothing between them.
pub open spec fn name_text(parts: Seq<NamePartView>) -> Seq<char>
    decreases parts.len(),
{
    if parts.len() == 0 {
        Seq::empty()
    } else {
        name_text(parts.drop_last()) + parts.last().text()
    }
}

/// Every segment of the reference is non-empty.
pub open spec fn parts_wf(parts: Seq<NamePartView>) -> bool {
    forall|i: int| 0 <= i < parts.len() ==> (#[trigger] parts[i]).wf()
}

impl NamePart {
    /// A literal segment.
    pub fn symbol(s: &str) -> (r: NamePart)
        ensures
            r@ == NamePartView::Symbol(s@),
    {
        NamePart::Symbol(String::from_str(s))
    }

    /// A segment that names a type.
    pub fn named_type(s: &str) -> (r: NamePart)
        ensures
            r@ == NamePartView::Type(s@),
    {
        NamePart::Type(String::from_str(s))
    }

    /// Whether the segment holds any text.
    pub fn is_well_formed(&self) -> (r: bool)
        ensures
            r == self@.wf(),
    {
        !self.as_ref_str().is_empty()
    }

    /// The text of this segment.
    pub fn as_ref_str(&self) -> (r: &str)
        ensures
            r@ == self@.text(),
    {
        match self {
            NamePart::Symbol(s) => s.as_str(),
            NamePart::Type(s) => s.as_str(),
        }
    }
}

/// Renders a type reference.
pub fn type_parts_to_str(parts: &Vec<NamePart>) -> (r: String)
    ensures
        r@ == name_text(parts_view(parts@)),
{
    let mut out = String::new();
    let mut i: usize = 0;
    while i < parts.len()
        invariant
            i <= parts.len(),
            out@ == name_text(parts_view(parts@).take(i as int)),
        decreases parts.len() - i,
    {
        out.append(parts[i].as_ref_str());
        proof {
            let v = parts_view(parts@);
            assert(v.take(i + 1).drop_last() =~= v.take(i as int));
            assert(v.take(i + 1).last() == parts@[i as int]@);
        }
        i += 1;
    }
    proof {
        assert(parts_view(parts@).take(parts.len() as int) =~= parts_view(parts@));
    }
    out
}

/// Rendering two references one after the other renders their concatenation.
pub proof fn lemma_name_text_concat(a: Seq<NamePartView>, b: Seq<NamePartView>)
    ensures
        name_text(a + b) == name_text(a) + name_text(b),
    decreases b.len(),
{
    if b.len() == 0 {
        assert(a + b =~= a);
        assert(name_text(a) + name_text(b) =~= name_text(a));
    } else {
        lemma_name_text_concat(a, b.drop_last());
        assert((a + b).drop_last() =~= a + b.drop_last());
        assert((a + b).last() == b.last());
        assert(name_text(a + b) =~= name_text(a) + name_text(b));
    }
}

/// A reference with at least one segment, none of them empty, has text.
pub proof fn lemma_wf_name_has_text(parts: Seq<NamePartView>)
    requires
        parts.len() > 0,
        parts_wf(parts),
    ensures
        name_text(parts).len() > 0,
{
    assert(parts.last().wf());
}

} // verus!

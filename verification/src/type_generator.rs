//! Descriptors of records and enums, and the declaration text of each.

use vstd::prelude::*;
use vstd::string::*;
use std::string::FromUtf8Error;
use crate::name_part::{name_text, parts_view, refs_view, type_parts_to_str, NamePart, NamePartView};
use crate::text::{join, join_strings, texts};

verus! {

/// `std::string::FromUtf8Error`, the error of decoding bytes that are not
/// UTF-8. Nothing is known of a value of it; it is only handed on.
#[verifier::external_type_specification]
#[verifier::external_body]
pub struct ExFromUtf8Error(FromUtf8Error);

/// A field of a record: its name and the type it holds.
#[derive(Clone, Debug, PartialEq, Eq)]
pub struct Field {
    pub name: String,
    pub type_ref: Vec<NamePart>,
}

/// What a [`Field`] stands for.
pub struct FieldView {
    pub name: Seq<char>,
    pub type_ref: Seq<NamePartView>,
}

impl View for Field {
    type V = FieldView;

    open spec fn view(&self) -> FieldView {
        FieldView { name: self.name@, type_ref: parts_view(self.type_ref@) }
    }
}

/// A method of a record: its name, the types it takes and the types it returns.
#[derive(Clone, Debug, PartialEq, Eq)]
pub struct Method {
    pub name: String,
    pub params: Vec<Vec<NamePart>>,
    pub returns: Vec<Vec<NamePart>>,
}

/// What a [`Method`] stands for.
pub struct MethodView {
    pub name: Seq<char>,
    pub params: Seq<Seq<NamePartView>>,
    pub returns: Seq<Seq<NamePartView>>,
}

impl View for Method {
    type V = MethodView;

    open spec fn view(&self) -> MethodView {
        MethodView {
            name: self.name@,
            params: refs_view(self.params@),
            returns: refs_view(self.returns@),
        }
    }
}

/// Describes a record.
#[derive(Clone, Debug, PartialEq, Eq)]
pub struct RecordGenerator {
    pub name: String,
    pub fields: Vec<Field>,
    pub methods: Vec<Method>,
    pub generics: Vec<String>,
    /// Whether the body goes directly into the enclosing module instead of
    /// becoming a child record.
    pub should_be_inlined: bool,
}

/// What a [`RecordGenerator`] stands for.
pub struct RecordView {
    pub name: Seq<char>,
    pub fields: Seq<FieldView>,
    pub methods: Seq<MethodView>,
    pub generics: Seq<Seq<char>>,
    pub should_be_inlined: bool,
}

impl View for RecordGenerator {
    type V = RecordView;

    open spec fn view(&self) -> RecordView {
        RecordView {
            name: self.name@,
            fields: self.fields@.map_values(|f: Field| f@),
            methods: self.methods@.map_values(|m: Method| m@),
            generics: texts(self.generics@),
            should_be_inlined: self.should_be_inlined,
        }
    }
}

/// Describes an enum: its name and the literals it allows.
#[derive(Clone, Debug, PartialEq, Eq)]
pub struct EnumGenerator {
    pub name: String,
    pub variants: Vec<String>,
}

/// What an [`EnumGenerator`] stands for.
pub struct EnumView {
    pub name: Seq<char>,
    pub variants: Seq<Seq<char>>,
}

impl View for EnumGenerator {
    type V = EnumView;

    open spec fn view(&self) -> EnumView {
        EnumView { name: self.name@, variants: texts(self.variants@) }
    }
}

/// Describes one type.
#[derive(Clone, Debug, PartialEq, Eq)]
pub enum TypeGenerator {
    Record(RecordGenerator),
    Enum(EnumGenerator),
}

/// What a [`TypeGenerator`] stands for.
pub enum TypeView {
    Record(RecordView),
    Enum(EnumView),
}

impl View for TypeGenerator {
    type V = TypeView;

    open spec fn view(&self) -> TypeView {
        match self {
            TypeGenerator::Record(r) => TypeView::Record(r@),
            TypeGenerator::Enum(e) => TypeView::Enum(e@),
        }
    }
}

/// The types of a signature, separated by `, `.
pub open spec fn signature_text(refs: Seq<Seq<NamePartView>>) -> Seq<char> {
    join(refs.map_values(|r: Seq<NamePartView>| name_text(r)), ", "@)
}

/// `<field>: <type>`, indented twice.
pub open spec fn field_line(f: FieldView) -> Seq<char> {
    "\t\t"@ + f.name + ": "@ + name_text(f.type_ref)
}

/// `<method>: function(<params>): (<returns>)`, indented twice.
pub open spec fn method_line(m: MethodView) -> Seq<char> {
    "\t\t"@ + m.name + ": function("@ + signature_text(m.params) + "): ("@ + signature_text(
        m.returns,
    ) + ")"@
}

/// The line of each field, in order.
pub open spec fn field_lines(fields: Seq<FieldView>) -> Seq<Seq<char>> {
    fields.map_values(|f: FieldView| field_line(f))
}

/// The line of each method, in order.
pub open spec fn method_lines(methods: Seq<MethodView>) -> Seq<Seq<char>> {
    methods.map_values(|m: MethodView| method_line(m))
}

/// The generic parameters in angle brackets, or nothing where there are none.
pub open spec fn generics_text(generics: Seq<Seq<char>>) -> Seq<char> {
    if generics.len() == 0 {
        Seq::empty()
    } else {
        "<"@ + join(generics, ", "@) + ">"@
    }
}

/// The line that opens a record's declaration.
pub open spec fn record_header(r: RecordView) -> Seq<char> {
    "\trecord "@ + r.name + generics_text(r.generics)
}

/// What stands between a record's header and its `end`: the `userdata`
/// marker, one line per field, a line break, one line per method.
pub open spec fn record_body(r: RecordView) -> Seq<char> {
    "\t\tuserdata\n"@ + join(field_lines(r.fields), "\n"@) + "\n"@ + join(
        method_lines(r.methods),
        "\n"@,
    )
}

/// A record's declaration. It does not depend on `should_be_inlined`.
pub open spec fn record_block(r: RecordView) -> Seq<char> {
    record_header(r) + "\n"@ + record_body(r) + "\nend"@
}

/// One allowed literal of an enum, quoted and indented twice.
pub open spec fn variant_line(v: Seq<char>) -> Seq<char> {
    "\t\t\""@ + v + "\""@
}

/// The line of each variant, in order.
pub open spec fn variant_lines(variants: Seq<Seq<char>>) -> Seq<Seq<char>> {
    variants.map_values(|v: Seq<char>| variant_line(v))
}

/// The line that opens an enum's declaration.
pub open spec fn enum_header(e: EnumView) -> Seq<char> {
    "\tenum "@ + e.name
}

/// An enum's declaration: one line per variant.
pub open spec fn enum_block(e: EnumView) -> Seq<char> {
    enum_header(e) + "\n"@ + join(variant_lines(e.variants), "\n"@) + "\nend"@
}

impl TypeView {
    /// The name of the described type.
    pub open spec fn name(self) -> Seq<char> {
        match self {
            TypeView::Record(r) => r.name,
            TypeView::Enum(e) => e.name,
        }
    }

    /// Whether this is a record whose body goes directly into the module.
    pub open spec fn is_inlined(self) -> bool {
        match self {
            TypeView::Record(r) => r.should_be_inlined,
            TypeView::Enum(_) => false,
        }
    }

    /// The same type, marked for inlining if it is a record.
    pub open spec fn inlined(self) -> TypeView {
        match self {
            TypeView::Record(r) => TypeView::Record(
                RecordView { should_be_inlined: true, ..r },
            ),
            TypeView::Enum(e) => TypeView::Enum(e),
        }
    }

    /// The line that opens the declaration.
    pub open spec fn header(self) -> Seq<char> {
        match self {
            TypeView::Record(r) => record_header(r),
            TypeView::Enum(e) => enum_header(e),
        }
    }

    /// The declaration of the type.
    pub open spec fn block(self) -> Seq<char> {
        match self {
            TypeView::Record(r) => record_block(r),
            TypeView::Enum(e) => enum_block(e),
        }
    }

    /// What a module holds for the type: the body alone for an inlined
    /// record, the whole declaration otherwise.
    pub open spec fn placed(self) -> Seq<char> {
        match self {
            TypeView::Record(r) if r.should_be_inlined => record_body(r),
            _ => self.block(),
        }
    }
}

/// Renders the types of a signature, separated by `, `.
pub fn signature_to_str(refs: &Vec<Vec<NamePart>>) -> (r: String)
    ensures
        r@ == signature_text(refs_view(refs@)),
{
    let mut items: Vec<String> = Vec::new();
    let mut i: usize = 0;
    while i < refs.len()
        invariant
            i <= refs.len(),
            items@.len() == i,
            forall|j: int| 0 <= j < i ==> (#[trigger] items@[j])@ == name_text(parts_view(refs@[j]@)),
        decreases refs.len() - i,
    {
        items.push(type_parts_to_str(&refs[i]));
        i += 1;
    }
    proof {
        assert(texts(items@) =~= refs_view(refs@).map_values(
            |r: Seq<NamePartView>| name_text(r),
        ));
    }
    join_strings(&items, ", ")
}

impl Field {
    /// Renders the field's line.
    pub fn generate(&self) -> (r: String)
        ensures
            r@ == field_line(self@),
    {
        let mut out = String::from_str("\t\t");
        out.append(self.name.as_str());
        out.append(": ");
        let t = type_parts_to_str(&self.type_ref);
        out.append(t.as_str());
        out
    }
}

impl Method {
    /// Renders the method's line.
    pub fn generate(&self) -> (r: String)
        ensures
            r@ == method_line(self@),
    {
        let mut out = String::from_str("\t\t");
        out.append(self.name.as_str());
        out.append(": function(");
        let p = signature_to_str(&self.params);
        out.append(p.as_str());
        out.append("): (");
        let q = signature_to_str(&self.returns);
        out.append(q.as_str());
        out.append(")");
        out
    }
}

impl RecordGenerator {
    /// A record with this name and nothing in it, not inlined.
    pub fn new(name: &str) -> (r: RecordGenerator)
        ensures
            r@ == (RecordView {
                name: name@,
                fields: Seq::empty(),
                methods: Seq::empty(),
                generics: Seq::empty(),
                should_be_inlined: false,
            }),
    {
        let r = RecordGenerator {
            name: String::from_str(name),
            fields: Vec::new(),
            methods: Vec::new(),
            generics: Vec::new(),
            should_be_inlined: false,
        };
        proof {
            assert(r@.fields =~= Seq::empty());
            assert(r@.methods =~= Seq::empty());
            assert(r@.generics =~= Seq::empty());
        }
        r
    }

    /// Renders the line that opens the declaration.
    pub fn generate_header(&self) -> (r: String)
        ensures
            r@ == record_header(self@),
    {
        let mut out = String::from_str("\trecord ");
        out.append(self.name.as_str());
        if self.generics.len() > 0 {
            out.append("<");
            let g = join_strings(&self.generics, ", ");
            out.append(g.as_str());
            out.append(">");
        } else {
            proof {
                assert(out@ + Seq::<char>::empty() =~= out@);
            }
        }
        out
    }

    /// Renders what stands between the header and `end`.
    pub fn generate_body(&self) -> (r: String)
        ensures
            r@ == record_body(self@),
    {
        let mut fields: Vec<String> = Vec::new();
        let mut i: usize = 0;
        while i < self.fields.len()
            invariant
                i <= self.fields.len(),
                fields@.len() == i,
                forall|j: int| 0 <= j < i ==> (#[trigger] fields@[j])@ == field_line(self.fields@[j]@),
            decreases self.fields.len() - i,
        {
            fields.push(self.fields[i].generate());
            i += 1;
        }
        let mut methods: Vec<String> = Vec::new();
        let mut k: usize = 0;
        while k < self.methods.len()
            invariant
                k <= self.methods.len(),
                methods@.len() == k,
                forall|j: int| 0 <= j < k ==> (#[trigger] methods@[j])@ == method_line(self.methods@[j]@),
            decreases self.methods.len() - k,
        {
            methods.push(self.methods[k].generate());
            k += 1;
        }
        proof {
            assert(texts(fields@) =~= field_lines(self@.fields));
            assert(texts(methods@) =~= method_lines(self@.methods));
        }
        let mut out = String::from_str("\t\tuserdata\n");
        let f = join_strings(&fields, "\n");
        out.append(f.as_str());
        out.append("\n");
        let m = join_strings(&methods, "\n");
        out.append(m.as_str());
        out
    }

    /// Renders the declaration. The text is the same whether or not the
    /// record is marked for inlining.
    pub fn generate(&self) -> (r: String)
        ensures
            r@ == record_block(self@),
    {
        let mut out = self.generate_header();
        out.append("\n");
        let b = self.generate_body();
        out.append(b.as_str());
        out.append("\nend");
        out
    }
}

impl EnumGenerator {
    /// An enum with this name and no variants.
    pub fn new(name: &str) -> (r: EnumGenerator)
        ensures
            r@ == (EnumView { name: name@, variants: Seq::empty() }),
    {
        let r = EnumGenerator { name: String::from_str(name), variants: Vec::new() };
        proof {
            assert(r@.variants =~= Seq::empty());
        }
        r
    }

    /// Renders the declaration.
    pub fn generate(&self) -> (r: String)
        ensures
            r@ == enum_block(self@),
    {
        let mut lines: Vec<String> = Vec::new();
        let mut i: usize = 0;
        while i < self.variants.len()
            invariant
                i <= self.variants.len(),
                lines@.len() == i,
                forall|j: int| 0 <= j < i ==> (#[trigger] lines@[j])@ == variant_line(self.variants@[j]@),
            decreases self.variants.len() - i,
        {
            let mut line = String::from_str("\t\t\"");
            line.append(self.variants[i].as_str());
            line.append("\"");
            lines.push(line);
            i += 1;
        }
        proof {
            assert(texts(lines@) =~= variant_lines(self@.variants));
        }
        let mut out = String::from_str("\tenum ");
        out.append(self.name.as_str());
        out.append("\n");
        let v = join_strings(&lines, "\n");
        out.append(v.as_str());
        out.append("\nend");
        out
    }
}

impl TypeGenerator {
    /// The name of the described type.
    pub fn name(&self) -> (r: &str)
        ensures
            r@ == self@.name(),
    {
        match self {
            TypeGenerator::Record(r) => r.name.as_str(),
            TypeGenerator::Enum(e) => e.name.as_str(),
        }
    }

    /// Whether this is a record whose body goes directly into the module.
    pub fn is_inlined(&self) -> (r: bool)
        ensures
            r == self@.is_inlined(),
    {
        match self {
            TypeGenerator::Record(r) => r.should_be_inlined,
            TypeGenerator::Enum(_) => false,
        }
    }

    /// Marks a record for inlining; an enum stays as it is.
    pub fn into_inlined(self) -> (r: TypeGenerator)
        ensures
            r@ == self@.inlined(),
    {
        match self {
            TypeGenerator::Record(r) => TypeGenerator::Record(
                RecordGenerator {
                    name: r.name,
                    fields: r.fields,
                    methods: r.methods,
                    generics: r.generics,
                    should_be_inlined: true,
                },
            ),
            TypeGenerator::Enum(e) => TypeGenerator::Enum(e),
        }
    }

    /// Renders the declaration of the type. All text is held as `String`, so
    /// no decoding takes place and the result is always `Ok`.
    pub fn generate(&self) -> (r: Result<String, FromUtf8Error>)
        ensures
            r is Ok,
            r->Ok_0@ == self@.block(),
    {
        match self {
            TypeGenerator::Record(r) => Ok(r.generate()),
            TypeGenerator::Enum(e) => Ok(e.generate()),
        }
    }

    /// Renders what a module holds for the type: the body alone for an
    /// inlined record, the whole declaration otherwise.
    pub fn generate_placed(&self) -> (r: Result<String, FromUtf8Error>)
        ensures
            r is Ok,
            r->Ok_0@ == self@.placed(),
    {
        match self {
            TypeGenerator::Record(r) => {
                if r.should_be_inlined {
                    Ok(r.generate_body())
                } else {
                    self.generate()
                }
            },
            TypeGenerator::Enum(_) => self.generate(),
        }
    }
}

/// Marking a type for inlining sets the flag of a record and nothing else:
/// the declaration text of the type alone stays the same.
pub proof fn lemma_inlining_keeps_block(t: TypeView)
    ensures
        t.inlined().block() == t.block(),
        t.inlined().header() == t.header(),
        t.inlined().name() == t.name(),
        t is Record ==> t.inlined().is_inlined(),
        t is Record ==> t.inlined().placed() == record_body(t->Record_0),
        t is Enum ==> t.inlined() == t,
        !t.is_inlined() ==> t.placed() == t.block(),
{
}

} // verus!

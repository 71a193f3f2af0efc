//! The walker that collects types and renders the module that declares them.

use vstd::prelude::*;
use vstd::string::*;
use std::string::FromUtf8Error;
use crate::export_instance::{
    instance_line, instance_view, instances_view, render_instance, ExportInstances, InstanceView,
    InstanceWalker,
};
use crate::name_part::NamePart;
use crate::text::{item_start, join, join_strings, lemma_join_holds_item, texts};
use crate::type_generator::{TypeGenerator, TypeView};

verus! {

/// Implemented by types that have a name in Teal.
pub trait TypeName {
    /// The parts of the type's name.
    fn get_type_parts() -> Vec<NamePart>;
}

/// Implemented by types that can describe themselves. Nothing is promised of
/// the descriptor that an implementation returns.
pub trait TypeBody {
    /// The descriptor of the type.
    fn get_type_body() -> TypeGenerator;
}

/// Collects types and global instances, and generates the text of the
/// module that declares them.
#[derive(Clone, Debug)]
pub struct TypeWalker {
    /// The registered types, in the order of registration.
    pub given_types: Vec<TypeGenerator>,
    /// The global instances, in the order of collection.
    pub global_instances_off: Vec<(String, Vec<NamePart>, bool)>,
}

/// What a [`TypeWalker`] stands for.
pub struct WalkerView {
    pub types: Seq<TypeView>,
    pub instances: Seq<InstanceView>,
}

impl View for TypeWalker {
    type V = WalkerView;

    open spec fn view(&self) -> WalkerView {
        WalkerView {
            types: self.given_types@.map_values(|t: TypeGenerator| t@),
            instances: instances_view(self.global_instances_off@),
        }
    }
}

/// `global` or `local`.
pub open spec fn scope_keyword(is_global: bool) -> Seq<char> {
    if is_global {
        "global"@
    } else {
        "local"@
    }
}

/// What the module holds for each registered type, in order.
pub open spec fn placed_blocks(types: Seq<TypeView>) -> Seq<Seq<char>> {
    types.map_values(|t: TypeView| t.placed())
}

/// The line of each global instance, in order.
pub open spec fn instance_lines(instances: Seq<InstanceView>, outer: Seq<char>) -> Seq<Seq<char>> {
    instances.map_values(|i: InstanceView| instance_line(i, outer))
}

/// The lines of the global instances, each behind a line break; nothing
/// where there are none.
pub open spec fn instances_block(instances: Seq<InstanceView>, outer: Seq<char>) -> Seq<char> {
    if instances.len() == 0 {
        Seq::empty()
    } else {
        "\n"@ + join(instance_lines(instances, outer), "\n"@)
    }
}

/// The module's text up to its first type.
pub open spec fn module_opening(outer: Seq<char>) -> Seq<char> {
    " record "@ + outer + "\n"@
}

/// The module's text behind its last type.
pub open spec fn module_closing(w: WalkerView, outer: Seq<char>) -> Seq<char> {
    "\nend"@ + instances_block(w.instances, outer) + "\nreturn "@ + outer
}

/// All of the module's text but the scope keyword that it starts with.
pub open spec fn module_rest(w: WalkerView, outer: Seq<char>) -> Seq<char> {
    module_opening(outer) + join(placed_blocks(w.types), "\n"@) + module_closing(w, outer)
}

/// The text of the module `outer` that declares what the walker holds.
pub open spec fn module_text(w: WalkerView, outer: Seq<char>, is_global: bool) -> Seq<char> {
    scope_keyword(is_global) + module_rest(w, outer)
}

impl Default for TypeWalker {
    fn default() -> (r: TypeWalker)
        ensures
            r@.types == Seq::<TypeView>::empty(),
            r@.instances == Seq::<InstanceView>::empty(),
    {
        TypeWalker::new()
    }
}

impl TypeWalker {
    /// A walker that holds nothing.
    pub fn new() -> (r: TypeWalker)
        ensures
            r@.types == Seq::<TypeView>::empty(),
            r@.instances == Seq::<InstanceView>::empty(),
            r.given_types@.len() == 0,
            r.global_instances_off@.len() == 0,
    {
        let r = TypeWalker { given_types: Vec::new(), global_instances_off: Vec::new() };
        proof {
            assert(r@.types =~= Seq::<TypeView>::empty());
            assert(r@.instances =~= Seq::<InstanceView>::empty());
        }
        r
    }

    /// The registered types, in the order of registration.
    pub fn iter(&self) -> (r: std::slice::Iter<'_, TypeGenerator>)
        ensures
            vstd::std_specs::slice::into_iter_elts(r) == self.given_types@,
    {
        broadcast use vstd::std_specs::slice::axiom_spec_slice_iter;
        let s = self.given_types.as_slice();
        let r = s.iter();
        proof {
            assert(vstd::std_specs::slice::into_iter_elts(r) =~= self.given_types@);
        }
        r
    }

    /// Registers a descriptor behind those already registered.
    pub fn add_type(self, body: TypeGenerator) -> (r: TypeWalker)
        ensures
            r.given_types@ == self.given_types@.push(body),
            r.global_instances_off@ == self.global_instances_off@,
            r@.types == self@.types.push(body@),
            r@.instances == self@.instances,
    {
        let mut w = self;
        w.given_types.push(body);
        proof {
            assert(w@.types =~= self@.types.push(body@));
        }
        w
    }

    /// Registers a descriptor whose body, if it is a record, goes directly
    /// into the module.
    pub fn add_type_inline(self, body: TypeGenerator) -> (r: TypeWalker)
        ensures
            r.given_types@.len() == self.given_types@.len() + 1,
            r.given_types@.drop_last() == self.given_types@,
            r.global_instances_off@ == self.global_instances_off@,
            r@.types == self@.types.push(body@.inlined()),
            r@.instances == self@.instances,
    {
        let r = self.add_type(body.into_inlined());
        proof {
            assert(r.given_types@.drop_last() =~= self.given_types@);
        }
        r
    }

    /// Registers the type `A` so that its body is added directly to the
    /// module instead of becoming a child record. The descriptor is the one
    /// that `A` gives, marked for inlining.
    pub fn process_type_inline<A: TypeName + TypeBody>(self) -> (r: TypeWalker)
        ensures
            r.given_types@.len() == self.given_types@.len() + 1,
            r.given_types@.drop_last() == self.given_types@,
            r@.types.len() == self@.types.len() + 1,
            r@.types.drop_last() == self@.types,
            r@.types.last() == r@.types.last().inlined(),
            r@.types.last() is Record ==> r@.types.last().is_inlined(),
            r@.instances == self@.instances,
            r.global_instances_off@ == self.global_instances_off@,
    {
        let x = A::get_type_body();
        let r = self.add_type_inline(x);
        proof {
            assert(r@.types.drop_last() =~= self@.types);
        }
        r
    }

    /// Registers the type `A` behind the types already registered. The
    /// descriptor is the one that `A` gives.
    pub fn process_type<A: TypeName + TypeBody>(self) -> (r: TypeWalker)
        ensures
            r.given_types@.len() == self.given_types@.len() + 1,
            r.given_types@.drop_last() == self.given_types@,
            r@.types.drop_last() == self@.types,
            r@.instances == self@.instances,
            r.global_instances_off@ == self.global_instances_off@,
    {
        let x = A::get_type_body();
        let r = self.add_type(x);
        proof {
            assert(r.given_types@.drop_last() =~= self.given_types@);
            assert(r@.types.drop_last() =~= self@.types);
        }
        r
    }

    /// Generates the text of the module `outer_name`: the scope keyword,
    /// the registered types in the order of registration, `end`, the global
    /// instances, and the `return` line. All text is held as `String`, so no
    /// decoding takes place and the result is always `Ok`.
    pub fn generate(self, outer_name: &str, is_global: bool) -> (r: Result<String, FromUtf8Error>)
        ensures
            r is Ok,
            r->Ok_0@ == module_text(self@, outer_name@, is_global),
    {
        let mut blocks: Vec<String> = Vec::new();
        let mut i: usize = 0;
        while i < self.given_types.len()
            invariant
                i <= self.given_types.len(),
                blocks@.len() == i,
                forall|j: int| 0 <= j < i ==> (#[trigger] blocks@[j])@ == self.given_types@[j]@.placed(),
            decreases self.given_types.len() - i,
        {
            match self.given_types[i].generate_placed() {
                Ok(b) => blocks.push(b),
                Err(e) => {
                    return Err(e);
                },
            }
            i += 1;
        }
        let mut lines: Vec<String> = Vec::new();
        let mut k: usize = 0;
        while k < self.global_instances_off.len()
            invariant
                k <= self.global_instances_off.len(),
                lines@.len() == k,
                forall|j: int| 0 <= j < k ==> (#[trigger] lines@[j])@ == instance_line(
                    instance_view(self.global_instances_off@[j]),
                    outer_name@,
                ),
            decreases self.global_instances_off.len() - k,
        {
            let inst = &self.global_instances_off[k];
            lines.push(render_instance(inst.0.as_str(), &inst.1, inst.2, outer_name));
            k += 1;
        }
        proof {
            assert(texts(blocks@) =~= placed_blocks(self@.types));
            assert(texts(lines@) =~= instance_lines(self@.instances, outer_name@));
        }
        let mut opening = String::from_str(" record ");
        opening.append(outer_name);
        opening.append("\n");
        let mut closing = String::from_str("\nend");
        if lines.len() > 0 {
            let mut x = String::from_str("\n");
            let joined = join_strings(&lines, "\n");
            x.append(joined.as_str());
            closing.append(x.as_str());
        } else {
            proof {
                assert(closing@ + Seq::<char>::empty() =~= closing@);
            }
        }
        closing.append("\nreturn ");
        closing.append(outer_name);
        let mut rest = opening;
        let body = join_strings(&blocks, "\n");
        rest.append(body.as_str());
        rest.append(closing.as_str());
        let mut out = String::from_str(if is_global { "global" } else { "local" });
        out.append(rest.as_str());
        Ok(out)
    }

    /// The same as `generate` with `is_global` set.
    pub fn generate_global(self, outer_name: &str) -> (r: Result<String, FromUtf8Error>)
        ensures
            r is Ok,
            r->Ok_0@ == module_text(self@, outer_name@, true),
    {
        self.generate(outer_name, true)
    }

    /// The same as `generate` with `is_global` not set.
    pub fn generate_local(self, outer_name: &str) -> (r: Result<String, FromUtf8Error>)
        ensures
            r is Ok,
            r->Ok_0@ == module_text(self@, outer_name@, false),
    {
        self.generate(outer_name, false)
    }

    /// Adds what a collector holds behind the instances already collected.
    pub fn add_instances(self, collector: InstanceWalker) -> (r: TypeWalker)
        ensures
            r.given_types@ == self.given_types@,
            r.global_instances_off@ == self.global_instances_off@ + collector.instances@,
            r@.types == self@.types,
            r@.instances == self@.instances + instances_view(collector.instances@),
    {
        let mut w = self;
        let mut c = collector;
        w.global_instances_off.append(&mut c.instances);
        proof {
            assert(w@.instances =~= self@.instances + instances_view(collector.instances@));
        }
        w
    }

    /// Decides what a provider's answer does to the walker: a failure is
    /// handed on as it is, and on success what the collector holds is added.
    pub fn absorb_instances<E>(self, collector: InstanceWalker, outcome: Result<(), E>) -> (r: Result<TypeWalker, E>)
        ensures
            outcome is Ok <==> r is Ok,
            outcome is Err ==> r->Err_0 == outcome->Err_0,
            outcome is Ok ==> {
                &&& r->Ok_0.given_types@ == self.given_types@
                &&& r->Ok_0.global_instances_off@ == self.global_instances_off@
                    + collector.instances@
                &&& r->Ok_0@.types == self@.types
                &&& r->Ok_0@.instances == self@.instances + instances_view(collector.instances@)
            },
    {
        match outcome {
            Ok(()) => Ok(self.add_instances(collector)),
            Err(e) => Err(e),
        }
    }

    /// Collects every instance that `T` exports. The instances already
    /// collected stay in front, and the registered types stay as they are;
    /// when `T` fails, its failure is returned.
    pub fn document_global_instance<T: ExportInstances>(self) -> (r: Result<TypeWalker, T::Error>)
        ensures
            r is Ok ==> {
                &&& r->Ok_0.given_types@ == self.given_types@
                &&& r->Ok_0@.types == self@.types
                &&& self.global_instances_off@.is_prefix_of(r->Ok_0.global_instances_off@)
                &&& self@.instances.is_prefix_of(r->Ok_0@.instances)
            },
    {
        let mut collector = InstanceWalker::new();
        let outcome = T::add_instances(&mut collector);
        self.absorb_instances(collector, outcome)
    }
}

/// Generating twice from walkers that hold the same descriptors and
/// instances, for the same module name and scope, gives the same text.
pub proof fn lemma_generate_is_deterministic(a: TypeWalker, b: TypeWalker, outer: Seq<char>, is_global: bool)
    requires
        a@ == b@,
    ensures
        module_text(a@, outer, is_global) == module_text(b@, outer, is_global),
{
}

/// The scope changes the keyword that the text starts with and nothing
/// else: behind `global` and behind `local` stands the same text.
pub proof fn lemma_scope_changes_keyword_only(w: WalkerView, outer: Seq<char>)
    ensures
        module_text(w, outer, true) == "global"@ + module_rest(w, outer),
        module_text(w, outer, false) == "local"@ + module_rest(w, outer),
        module_text(w, outer, true).subrange("global"@.len() as int, module_text(w, outer, true).len() as int)
            == module_text(w, outer, false).subrange("local"@.len() as int, module_text(w, outer, false).len() as int),
{
    let r = module_rest(w, outer);
    assert(("global"@ + r).subrange("global"@.len() as int, ("global"@ + r).len() as int) =~= r);
    assert(("local"@ + r).subrange("local"@.len() as int, ("local"@ + r).len() as int) =~= r);
}

/// Registering a type adds what is placed for it behind what was there,
/// one line break behind the last type, and leaves the rest in place and
/// in order.
pub proof fn lemma_registration_appends(types: Seq<TypeView>, t: TypeView)
    ensures
        placed_blocks(types.push(t)) == placed_blocks(types).push(t.placed()),
        types.len() == 0 ==> join(placed_blocks(types.push(t)), "\n"@) == t.placed(),
        types.len() > 0 ==> join(placed_blocks(types.push(t)), "\n"@) == join(
            placed_blocks(types),
            "\n"@,
        ) + "\n"@ + t.placed(),
{
    let after = placed_blocks(types.push(t));
    assert(after =~= placed_blocks(types).push(t.placed()));
    assert(after.drop_last() =~= placed_blocks(types));
}

/// Where the declaration of the type `i` starts in the module's text.
pub open spec fn declaration_start(w: WalkerView, outer: Seq<char>, is_global: bool, i: int) -> int {
    scope_keyword(is_global).len() + module_opening(outer).len() + item_start(
        placed_blocks(w.types),
        "\n"@,
        i,
    )
}

/// The module's text holds what is placed for each registered type, whole
/// and in the order of registration: the first stands behind the opening,
/// each next one a line break behind the one before it, and the closing
/// follows the last. Nothing else stands between the opening and the closing.
pub proof fn lemma_module_holds_each_type(w: WalkerView, outer: Seq<char>, is_global: bool, i: int)
    requires
        0 <= i < w.types.len(),
    ensures
        declaration_start(w, outer, is_global, 0) == scope_keyword(is_global).len()
            + module_opening(outer).len(),
        module_text(w, outer, is_global).subrange(
            declaration_start(w, outer, is_global, i),
            declaration_start(w, outer, is_global, i) + w.types[i].placed().len(),
        ) == w.types[i].placed(),
        declaration_start(w, outer, is_global, i + 1) == declaration_start(w, outer, is_global, i)
            + w.types[i].placed().len() + 1,
        i == w.types.len() - 1 ==> declaration_start(w, outer, is_global, i)
            + w.types[i].placed().len() + module_closing(w, outer).len() == module_text(
            w,
            outer,
            is_global,
        ).len(),
{
    let blocks = placed_blocks(w.types);
    let sep = "\n"@;
    reveal_strlit("\n");
    lemma_join_holds_item(blocks, sep, i);
    let j = join(blocks, sep);
    let s = item_start(blocks, sep, i);
    let front = scope_keyword(is_global) + module_opening(outer);
    let text = module_text(w, outer, is_global);
    assert(blocks[i] == w.types[i].placed());
    assert(text =~= front + j + module_closing(w, outer));
    assert(text.subrange(front.len() + s, front.len() + s + blocks[i].len()) =~= j.subrange(
        s,
        s + blocks[i].len(),
    ));
}

/// The header of every registered type that is not inlined stands in the
/// module's text, and the headers stand in the order of registration: the
/// header of the type `i` is at `declaration_start(.., i)`, it starts with
/// the keyword and the type's name, and the next type starts behind it.
pub proof fn lemma_headers_in_registration_order(
    w: WalkerView,
    outer: Seq<char>,
    is_global: bool,
    i: int,
)
    requires
        0 <= i < w.types.len(),
        !w.types[i].is_inlined(),
    ensures
        w.types[i] is Record ==> ("\trecord "@ + w.types[i].name()).is_prefix_of(
            w.types[i].header(),
        ),
        w.types[i] is Enum ==> w.types[i].header() == "\tenum "@ + w.types[i].name(),
        declaration_start(w, outer, is_global, i) + w.types[i].header().len() <= module_text(
            w,
            outer,
            is_global,
        ).len(),
        module_text(w, outer, is_global).subrange(
            declaration_start(w, outer, is_global, i),
            declaration_start(w, outer, is_global, i) + w.types[i].header().len(),
        ) == w.types[i].header(),
        declaration_start(w, outer, is_global, i) + w.types[i].header().len()
            < declaration_start(w, outer, is_global, i + 1),
{
    let t = w.types[i];
    let h = t.header();
    let text = module_text(w, outer, is_global);
    let d = declaration_start(w, outer, is_global, i);
    lemma_module_holds_each_type(w, outer, is_global, i);
    lemma_join_holds_item(placed_blocks(w.types), "\n"@, i);
    assert(t.placed() == t.block());
    match t {
        TypeView::Record(r) => {
            assert(h.subrange(0, ("\trecord "@ + r.name).len() as int) =~= "\trecord "@ + r.name);
            assert(t.block().subrange(0, h.len() as int) =~= h);
        },
        TypeView::Enum(e) => {
            assert(t.block().subrange(0, h.len() as int) =~= h);
        },
    }
    assert(h.len() <= t.block().len());
    assert(text.subrange(d, d + h.len()) =~= text.subrange(d, d + t.block().len()).subrange(
        0,
        h.len() as int,
    ));
}

} // verus!

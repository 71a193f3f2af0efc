//! Global instances: names that a module binds to a type.

use vstd::prelude::*;
use vstd::string::*;
use crate::name_part::{name_text, parts_view, type_parts_to_str, NamePart, NamePartView};

verus! {

/// A global instance: its name, its type, and whether the type is declared
/// inside the generated module.
pub struct InstanceView {
    pub name: Seq<char>,
    pub type_ref: Seq<NamePartView>,
    pub is_external: bool,
}

/// What a stored instance stands for.
pub open spec fn instance_view(i: (String, Vec<NamePart>, bool)) -> InstanceView {
    InstanceView { name: i.0@, type_ref: parts_view(i.1@), is_external: i.2 }
}

/// The views of the stored instances, in order.
pub open spec fn instances_view(s: Seq<(String, Vec<NamePart>, bool)>) -> Seq<InstanceView> {
    s.map_values(|i: (String, Vec<NamePart>, bool)| instance_view(i))
}

/// The type of an instance as the generated file names it: behind the
/// module's name and a dot when the module declares the type, bare otherwise.
pub open spec fn resolved_reference(i: InstanceView, outer: Seq<char>) -> Seq<char> {
    if i.is_external {
        outer + "."@ + name_text(i.type_ref)
    } else {
        name_text(i.type_ref)
    }
}

/// `global <name>: <type>`.
pub open spec fn instance_line(i: InstanceView, outer: Seq<char>) -> Seq<char> {
    "global "@ + i.name + ": "@ + resolved_reference(i, outer)
}

/// Renders the line of one global instance of the module `outer_name`.
pub fn render_instance(name: &str, type_ref: &Vec<NamePart>, is_external: bool, outer_name: &str) -> (r: String)
    ensures
        r@ == instance_line(
            InstanceView { name: name@, type_ref: parts_view(type_ref@), is_external },
            outer_name@,
        ),
{
    let t = type_parts_to_str(type_ref);
    let resolved = if is_external {
        let mut q = String::from_str(outer_name);
        q.append(".");
        q.append(t.as_str());
        q
    } else {
        t
    };
    let mut out = String::from_str("global ");
    out.append(name);
    out.append(": ");
    out.append(resolved.as_str());
    out
}

/// The line of an instance names the module exactly when the module
/// declares the instance's type.
pub proof fn lemma_instance_reference(i: InstanceView, outer: Seq<char>)
    ensures
        instance_line(i, outer) == "global "@ + i.name + ": "@ + resolved_reference(i, outer),
        i.is_external ==> resolved_reference(i, outer) == outer + "."@ + name_text(i.type_ref),
        !i.is_external ==> resolved_reference(i, outer) == name_text(i.type_ref),
{
}

/// Collects the global instances that a provider exports.
#[derive(Clone, Debug)]
pub struct InstanceWalker {
    pub instances: Vec<(String, Vec<NamePart>, bool)>,
}

impl InstanceWalker {
    /// A collector that holds nothing.
    pub fn new() -> (r: InstanceWalker)
        ensures
            r.instances@ == Seq::<(String, Vec<NamePart>, bool)>::empty(),
    {
        InstanceWalker { instances: Vec::new() }
    }

    /// Adds one instance behind those already collected.
    pub fn add_instance(&mut self, name: String, type_ref: Vec<NamePart>, is_external: bool)
        ensures
            final(self).instances@ == old(self).instances@.push((name, type_ref, is_external)),
    {
        self.instances.push((name, type_ref, is_external));
    }
}

/// Implemented by what exports global instances. Nothing is promised of an
/// implementation: it may add any instances, or fail.
pub trait ExportInstances {
    /// The failure of the provider.
    type Error;

    /// Hands every exported instance to the collector.
    fn add_instances(collector: &mut InstanceWalker) -> Result<(), Self::Error>;
}

} // verus!

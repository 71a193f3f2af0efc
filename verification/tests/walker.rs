use tealr::{
    EnumGenerator, ExportInstances, Field, InstanceWalker, Method, NamePart, RecordGenerator,
    TypeBody, TypeGenerator, TypeName, TypeWalker,
};

struct Example;

impl TypeName for Example {
    fn get_type_parts() -> Vec<NamePart> {
        vec![NamePart::named_type("Example")]
    }
}

impl TypeBody for Example {
    fn get_type_body() -> TypeGenerator {
        TypeGenerator::Record(RecordGenerator::new("Example"))
    }
}

struct Color;

impl TypeName for Color {
    fn get_type_parts() -> Vec<NamePart> {
        vec![NamePart::named_type("Color")]
    }
}

impl TypeBody for Color {
    fn get_type_body() -> TypeGenerator {
        let mut e = EnumGenerator::new("Color");
        e.variants.push(String::from("red"));
        e.variants.push(String::from("green"));
        TypeGenerator::Enum(e)
    }
}

struct Exports;

impl ExportInstances for Exports {
    type Error = String;

    fn add_instances(collector: &mut InstanceWalker) -> Result<(), String> {
        collector.add_instance(String::from("origin"), vec![NamePart::named_type("Point")], true);
        collector.add_instance(String::from("count"), vec![NamePart::symbol("integer")], false);
        Ok(())
    }
}

struct Broken;

impl ExportInstances for Broken {
    type Error = String;

    fn add_instances(collector: &mut InstanceWalker) -> Result<(), String> {
        collector.add_instance(String::from("half"), vec![NamePart::symbol("integer")], false);
        Err(String::from("no instances today"))
    }
}

fn point() -> TypeGenerator {
    let mut r = RecordGenerator::new("Point");
    r.fields.push(Field { name: String::from("x"), type_ref: vec![NamePart::symbol("number")] });
    r.fields.push(Field { name: String::from("y"), type_ref: vec![NamePart::symbol("number")] });
    r.methods.push(Method {
        name: String::from("length"),
        params: vec![vec![NamePart::named_type("Point")]],
        returns: vec![vec![NamePart::symbol("number")]],
    });
    TypeGenerator::Record(r)
}

const POINT_BLOCK: &str =
    "\trecord Point\n\t\tuserdata\n\t\tx: number\n\t\ty: number\n\t\tlength: function(Point): (number)\nend";
const POINT_BODY: &str =
    "\t\tuserdata\n\t\tx: number\n\t\ty: number\n\t\tlength: function(Point): (number)";
const COLOR_BLOCK: &str = "\tenum Color\n\t\t\"red\"\n\t\t\"green\"\nend";

#[test]
fn new_walker_is_empty() {
    let w = TypeWalker::new();
    assert!(w.given_types.is_empty());
    assert!(w.global_instances_off.is_empty());
    assert_eq!(w.iter().count(), 0);
    let d = TypeWalker::default();
    assert!(d.given_types.is_empty());
    assert!(d.global_instances_off.is_empty());
}

#[test]
fn empty_walker_generates_empty_module() {
    assert_eq!(
        TypeWalker::new().generate("Foo", true),
        Ok(String::from("global record Foo\n\nend\nreturn Foo"))
    );
}

#[test]
fn single_record_is_nested_as_child() {
    let generated = TypeWalker::new().process_type::<Example>().generate("Examples", true);
    assert_eq!(
        generated,
        Ok(String::from(
            "global record Examples\n\trecord Example\n\t\tuserdata\n\n\nend\nend\nreturn Examples"
        ))
    );
}

#[test]
fn generate_global_is_generate_with_global_scope() {
    let generated = TypeWalker::new().process_type::<Example>().generate_global("Examples");
    assert_eq!(
        generated,
        Ok(String::from(
            "global record Examples\n\trecord Example\n\t\tuserdata\n\n\nend\nend\nreturn Examples"
        ))
    );
}

#[test]
fn generate_local_is_generate_with_local_scope() {
    let generated = TypeWalker::new().process_type::<Example>().generate_local("Examples");
    assert_eq!(
        generated,
        Ok(String::from(
            "local record Examples\n\trecord Example\n\t\tuserdata\n\n\nend\nend\nreturn Examples"
        ))
    );
}

#[test]
fn scope_changes_only_the_leading_keyword() {
    let w = TypeWalker::new()
        .add_type(point())
        .process_type::<Color>()
        .document_global_instance::<Exports>()
        .unwrap();
    let global = w.clone().generate("geo", true).unwrap();
    let local = w.generate("geo", false).unwrap();
    assert!(global.starts_with("global record geo\n"));
    assert!(local.starts_with("local record geo\n"));
    assert_eq!(&global["global".len()..], &local["local".len()..]);
}

#[test]
fn types_are_declared_in_registration_order() {
    let w = TypeWalker::new().add_type(point()).process_type::<Color>().process_type::<Example>();
    let names: Vec<&str> = w.iter().map(|t| t.name()).collect();
    assert_eq!(names, vec!["Point", "Color", "Example"]);
    let text = w.generate("geo", true).unwrap();
    assert_eq!(
        text,
        format!(
            "global record geo\n{}\n{}\n{}\nend\nreturn geo",
            POINT_BLOCK, COLOR_BLOCK, "\trecord Example\n\t\tuserdata\n\n\nend"
        )
    );
    let headers: Vec<&str> = text
        .lines()
        .filter(|l| l.starts_with("\trecord ") || l.starts_with("\tenum "))
        .map(|l| l.split(' ').nth(1).unwrap())
        .collect();
    assert_eq!(headers, vec!["Point", "Color", "Example"]);
}

#[test]
fn registration_order_decides_declaration_order() {
    let a = TypeWalker::new().add_type(point()).process_type::<Color>().generate("m", false);
    let b = TypeWalker::new().process_type::<Color>().add_type(point()).generate("m", false);
    assert_eq!(a, Ok(format!("local record m\n{}\n{}\nend\nreturn m", POINT_BLOCK, COLOR_BLOCK)));
    assert_eq!(b, Ok(format!("local record m\n{}\n{}\nend\nreturn m", COLOR_BLOCK, POINT_BLOCK)));
}

#[test]
fn duplicate_names_are_rendered_as_they_are() {
    let text = TypeWalker::new()
        .process_type::<Color>()
        .process_type::<Color>()
        .generate("m", true);
    assert_eq!(text, Ok(format!("global record m\n{}\n{}\nend\nreturn m", COLOR_BLOCK, COLOR_BLOCK)));
}

#[test]
fn generating_twice_gives_the_same_text() {
    let w = TypeWalker::new()
        .add_type(point())
        .process_type::<Color>()
        .document_global_instance::<Exports>()
        .unwrap();
    let first = w.clone().generate("geo", true);
    let second = w.generate("geo", true);
    assert_eq!(first, second);
}

#[test]
fn instances_follow_the_module_end() {
    let text = TypeWalker::new()
        .add_type(point())
        .document_global_instance::<Exports>()
        .unwrap()
        .generate("geo", true);
    assert_eq!(
        text,
        Ok(format!(
            "global record geo\n{}\nend\nglobal origin: geo.Point\nglobal count: integer\nreturn geo",
            POINT_BLOCK
        ))
    );
}

#[test]
fn external_instance_under_module_name() {
    let mut c = InstanceWalker::new();
    c.add_instance(String::from("a"), vec![NamePart::named_type("Bar")], true);
    c.add_instance(String::from("b"), vec![NamePart::named_type("Bar")], false);
    let text = TypeWalker::new().add_instances(c).generate("Mod", false);
    assert_eq!(
        text,
        Ok(String::from("local record Mod\n\nend\nglobal a: Mod.Bar\nglobal b: Bar\nreturn Mod"))
    );
}

#[test]
fn collected_instances_are_appended_in_order() {
    let w = TypeWalker::new()
        .document_global_instance::<Exports>()
        .unwrap()
        .document_global_instance::<Exports>()
        .unwrap();
    let names: Vec<&str> = w.global_instances_off.iter().map(|i| i.0.as_str()).collect();
    assert_eq!(names, vec!["origin", "count", "origin", "count"]);
    assert!(w.global_instances_off[0].2);
    assert!(!w.global_instances_off[1].2);
    assert!(w.given_types.is_empty());
}

#[test]
fn provider_failure_is_handed_on() {
    let r = TypeWalker::new().add_type(point()).document_global_instance::<Broken>();
    assert_eq!(r.err(), Some(String::from("no instances today")));
}

#[test]
fn absorb_decides_by_the_outcome() {
    let mut c = InstanceWalker::new();
    c.add_instance(String::from("a"), vec![NamePart::named_type("Bar")], true);
    let ok = TypeWalker::new().absorb_instances::<String>(c.clone(), Ok(())).unwrap();
    assert_eq!(ok.global_instances_off.len(), 1);
    let err = TypeWalker::new().absorb_instances(c, Err(String::from("bad")));
    assert_eq!(err.err(), Some(String::from("bad")));
}

#[test]
fn inline_registration_sets_the_flag() {
    let normal = TypeWalker::new().process_type::<Example>();
    let inline = TypeWalker::new().process_type_inline::<Example>();
    assert!(!normal.given_types[0].is_inlined());
    assert!(inline.given_types[0].is_inlined());
    assert_eq!(normal.given_types[0].generate(), inline.given_types[0].generate());
}

#[test]
fn inline_registration_leaves_enums_alone() {
    let inline = TypeWalker::new().process_type_inline::<Color>();
    assert!(!inline.given_types[0].is_inlined());
    assert_eq!(
        inline.generate("m", true),
        Ok(format!("global record m\n{}\nend\nreturn m", COLOR_BLOCK))
    );
}

#[test]
fn inlined_record_body_goes_directly_into_the_module() {
    let nested = TypeWalker::new().add_type(point()).process_type::<Color>().generate("geo", true);
    let inline =
        TypeWalker::new().add_type_inline(point()).process_type::<Color>().generate("geo", true);
    assert_eq!(
        nested,
        Ok(format!("global record geo\n{}\n{}\nend\nreturn geo", POINT_BLOCK, COLOR_BLOCK))
    );
    assert_eq!(
        inline,
        Ok(format!("global record geo\n{}\n{}\nend\nreturn geo", POINT_BODY, COLOR_BLOCK))
    );
}

#[test]
fn iter_walks_the_registered_types() {
    let w = TypeWalker::new().process_type::<Example>().process_type::<Color>();
    let mut it = w.iter();
    assert_eq!(it.next().map(|t| t.name()), Some("Example"));
    assert_eq!(it.next().map(|t| t.name()), Some("Color"));
    assert!(it.next().is_none());
}

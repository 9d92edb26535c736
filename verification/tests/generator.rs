use derive_builder::descriptor::get_fields_from_derive_input;
use derive_builder::descriptor::FieldDescriptor;
use derive_builder::descriptor::TypeDescriptor;
use derive_builder::descriptor::TypeShape;
use derive_builder::expand::do_expand;

fn field(name: &str, ty: &str) -> FieldDescriptor {
    FieldDescriptor { name: name.to_owned(), declared_type: ty.to_owned() }
}

fn record(name: &str, fields: Vec<FieldDescriptor>) -> TypeDescriptor {
    TypeDescriptor { name: name.to_owned(), shape: TypeShape::RecordWithNamedFields(fields) }
}

#[test]
fn point_scenario() {
    let st = record("Point", vec![field("x", "Integer"), field("y", "Integer")]);
    let unit = do_expand(&st).unwrap();
    assert_eq!(
        unit.builder_type_def,
        "pub struct PointBuilder { \
         x: std::option::Option<Integer>, \
         y: std::option::Option<Integer>, }"
    );
    assert_eq!(
        unit.entry_point_def,
        "impl Point { pub fn builder() -> PointBuilder { PointBuilder { \
         x: std::option::Option::None, \
         y: std::option::Option::None, } } }"
    );
    assert_eq!(
        unit.builder_impl_block,
        "impl PointBuilder { \
         pub fn x(mut self, x: Integer) -> Self { self.x = std::option::Option::Some(x); self } \
         pub fn y(mut self, y: Integer) -> Self { self.y = std::option::Option::Some(y); self } \
         pub fn build(self) -> Point { Point { x: self.x.unwrap(), y: self.y.unwrap(), } } }"
    );
}

// The code below this point is, verbatim in meaning, what the generator
// emits for `Point { x: i64, y: i64 }`: the builder it would add next to
// such a type. `generated_point_round_trip` checks the emitted text against
// it and then runs the chained calls themselves.
#[derive(PartialEq, Debug)]
pub struct Point {
    x: i64,
    y: i64,
}

pub struct PointBuilder {
    x: std::option::Option<i64>,
    y: std::option::Option<i64>,
}

impl Point {
    pub fn builder() -> PointBuilder {
        PointBuilder { x: std::option::Option::None, y: std::option::Option::None }
    }
}

impl PointBuilder {
    pub fn x(mut self, x: i64) -> Self {
        self.x = std::option::Option::Some(x);
        self
    }
    pub fn y(mut self, y: i64) -> Self {
        self.y = std::option::Option::Some(y);
        self
    }
    pub fn build(self) -> Point {
        Point { x: self.x.unwrap(), y: self.y.unwrap() }
    }
}

#[test]
fn generated_point_round_trip() {
    let st = record("Point", vec![field("x", "i64"), field("y", "i64")]);
    let unit = do_expand(&st).unwrap();
    assert!(unit.builder_impl_block.contains("pub fn x(mut self, x: i64) -> Self"));
    assert!(unit.builder_impl_block.contains("pub fn build(self) -> Point"));

    assert_eq!(Point::builder().x(3).y(4).build(), Point { x: 3, y: 4 });
    // Setters may be chained in any order; the result depends only on the
    // value each field's setter received.
    assert_eq!(Point::builder().y(4).x(3).build(), Point { x: 3, y: 4 });
}

#[test]
fn zero_field_record() {
    let st = record("Unit", vec![]);
    let unit = do_expand(&st).unwrap();
    assert_eq!(unit.builder_type_def, "pub struct UnitBuilder { }");
    assert_eq!(
        unit.entry_point_def,
        "impl Unit { pub fn builder() -> UnitBuilder { UnitBuilder { } } }"
    );
    assert_eq!(
        unit.builder_impl_block,
        "impl UnitBuilder { pub fn build(self) -> Unit { Unit { } } }"
    );
    // No setters at all: `build` is the single operation in the impl block.
    assert_eq!(unit.builder_impl_block.matches("pub fn ").count(), 1);
}

#[test]
fn sum_type_rejected() {
    let st = TypeDescriptor { name: "Choice".to_owned(), shape: TypeShape::SumType };
    let err = do_expand(&st).unwrap_err();
    assert_eq!(err.message, "Only structs are supported");
    assert_eq!(err.input_name, "Choice");
}

#[test]
fn fieldless_type_rejected() {
    let st = TypeDescriptor { name: "Marker".to_owned(), shape: TypeShape::FieldlessType };
    let err = do_expand(&st).unwrap_err();
    assert_eq!(err.message, "Only structs are supported");
    assert_eq!(err.input_name, "Marker");
}

#[test]
fn positional_fields_rejected() {
    let st = TypeDescriptor { name: "Pair".to_owned(), shape: TypeShape::PositionalFields };
    let err = do_expand(&st).unwrap_err();
    assert_eq!(err.message, "Only structs are supported");
    assert_eq!(err.input_name, "Pair");
}

#[test]
fn union_rejected() {
    let st = TypeDescriptor { name: "Raw".to_owned(), shape: TypeShape::UnionType };
    let err = do_expand(&st).unwrap_err();
    assert_eq!(err.message, "Only structs are supported");
    assert_eq!(err.input_name, "Raw");
}

#[test]
fn extractor_keeps_field_order() {
    let st = record("Conf", vec![field("host", "String"), field("port", "u16"), field("tls", "bool")]);
    let fields = get_fields_from_derive_input(&st).unwrap();
    let names: Vec<&str> = fields.iter().map(|f| f.name.as_str()).collect();
    assert_eq!(names, ["host", "port", "tls"]);
    let types: Vec<&str> = fields.iter().map(|f| f.declared_type.as_str()).collect();
    assert_eq!(types, ["String", "u16", "bool"]);
}

#[test]
fn extractor_rejects_non_records() {
    let st = TypeDescriptor { name: "Choice".to_owned(), shape: TypeShape::SumType };
    let err = get_fields_from_derive_input(&st).unwrap_err();
    assert_eq!(err.message, "Only structs are supported");
    assert_eq!(err.input_name, "Choice");
}

#[test]
fn field_count_preserved() {
    let st = record("Conf", vec![field("a", "u8"), field("b", "u16"), field("c", "u32")]);
    let unit = do_expand(&st).unwrap();
    // Three builder fields, three setters, and exactly one build operation.
    assert_eq!(unit.builder_type_def.matches(": std::option::Option<").count(), 3);
    assert_eq!(unit.builder_impl_block.matches("pub fn ").count(), 4);
    assert_eq!(unit.builder_impl_block.matches("pub fn build(").count(), 1);
}

#[test]
fn declared_order_preserved() {
    let st = record("Conf", vec![field("a", "u8"), field("b", "u16"), field("c", "u32")]);
    let unit = do_expand(&st).unwrap();

    let ty = &unit.builder_type_def;
    assert!(ty.find("a:").unwrap() < ty.find("b:").unwrap());
    assert!(ty.find("b:").unwrap() < ty.find("c:").unwrap());

    let im = &unit.builder_impl_block;
    assert!(im.find("pub fn a(").unwrap() < im.find("pub fn b(").unwrap());
    assert!(im.find("pub fn b(").unwrap() < im.find("pub fn c(").unwrap());

    let build_at = im.find("pub fn build(").unwrap();
    let tail = &im[build_at..];
    assert!(tail.find("a: self.a").unwrap() < tail.find("b: self.b").unwrap());
    assert!(tail.find("b: self.b").unwrap() < tail.find("c: self.c").unwrap());
}

#[test]
fn builder_name_is_deterministic() {
    let st = record("Foo", vec![field("bar", "u8")]);
    let unit = do_expand(&st).unwrap();
    assert!(unit.builder_type_def.starts_with("pub struct FooBuilder {"));
    // The entry point is attached to the original type, not to the builder.
    assert!(unit.entry_point_def.starts_with("impl Foo {"));
    assert!(unit.entry_point_def.contains("pub fn builder() -> FooBuilder"));

    let again = do_expand(&record("Foo", vec![field("bar", "u8")])).unwrap();
    assert_eq!(unit.builder_type_def, again.builder_type_def);
    assert_eq!(unit.entry_point_def, again.entry_point_def);
    assert_eq!(unit.builder_impl_block, again.builder_impl_block);
}

use typed_vertex_buffer_any::{tag_of, IncorrectTypeError};

#[derive(Copy, Clone)]
#[allow(dead_code)]
struct Vertex {
    position: [f32; 3],
    color: [f32; 4],
}

#[derive(Copy, Clone)]
#[allow(dead_code)]
struct Narrow {
    x: f32,
}

#[derive(Copy, Clone)]
#[allow(dead_code)]
struct Meters(f32);

#[derive(Copy, Clone)]
#[allow(dead_code)]
struct Seconds(f32);

#[test]
fn tag_is_the_same_on_every_call() {
    assert_eq!(tag_of::<Vertex>(), tag_of::<Vertex>());
    assert_eq!(tag_of::<u32>(), tag_of::<u32>());
}

#[test]
fn tags_of_distinct_types_differ() {
    assert_ne!(tag_of::<Vertex>(), tag_of::<Narrow>());
    assert_ne!(tag_of::<u32>(), tag_of::<i32>());
}

#[test]
fn tags_of_same_layout_types_differ() {
    assert_eq!(std::mem::size_of::<Meters>(), std::mem::size_of::<Seconds>());
    assert_ne!(tag_of::<Meters>(), tag_of::<Seconds>());
    assert_ne!(tag_of::<Meters>(), tag_of::<f32>());
}

#[test]
fn tag_of_matches_std_type_id() {
    assert_eq!(tag_of::<Vertex>(), std::any::TypeId::of::<Vertex>());
}

#[test]
fn error_description() {
    assert_eq!(IncorrectTypeError.description(), "incorrect buffer type");
}

#[test]
fn error_to_string() {
    assert_eq!(IncorrectTypeError.to_string(), "incorrect buffer type");
}

#[test]
fn error_is_plain_value() {
    let e = IncorrectTypeError;
    let copy = e;
    assert_eq!(e, copy);
    assert_eq!(format!("{:?}", e), "IncorrectTypeError");
}

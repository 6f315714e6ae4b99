use rkyv::typename::TypeName;

fn type_name_string<T: TypeName>() -> String {
    let mut result = String::new();
    T::build_type_name(&mut result);
    result
}

#[test]
fn builtin_types() {
    assert_eq!(type_name_string::<i32>(), "i32");
    assert_eq!(type_name_string::<(i32,)>(), "(i32,)");
    assert_eq!(type_name_string::<(i32, i32)>(), "(i32, i32)");
    assert_eq!(type_name_string::<[[u8; 4]; 8]>(), "[[u8; 4]; 8]");
    assert_eq!(type_name_string::<Option<[String; 1]>>(), "Option<[String; 1]>");
    assert_eq!(type_name_string::<Option<[Option<u8>; 4]>>(), "Option<[Option<u8>; 4]>");
}

#[test]
fn empty_array_and_multi_digit_lengths() {
    assert_eq!(type_name_string::<[u8; 0]>(), "[u8; 0]");
    assert_eq!(type_name_string::<[u32; 10]>(), "[u32; 10]");
    assert_eq!(type_name_string::<[i32; 1234]>(), "[i32; 1234]");
}

#[test]
fn nested_composites() {
    assert_eq!(
        type_name_string::<Option<Option<String>>>(),
        "Option<Option<String>>"
    );
    assert_eq!(
        type_name_string::<(u8, Option<(u32,)>)>(),
        "(u8, Option<(u32,)>)"
    );
}

use gdext_creator::naming::convert_to_camel_case;

#[test]
fn camel_case_snake_name() {
    assert_eq!(convert_to_camel_case("my_cool_mod"), "MyCoolMod");
}

#[test]
fn camel_case_empty() {
    assert_eq!(convert_to_camel_case(""), "");
}

#[test]
fn camel_case_single_segment() {
    assert_eq!(convert_to_camel_case("already"), "Already");
}

#[test]
fn camel_case_leading_trailing_doubled_underscores() {
    assert_eq!(convert_to_camel_case("_my__cool_mod_"), "MyCoolMod");
}

#[test]
fn camel_case_digit_start_passes_through() {
    assert_eq!(convert_to_camel_case("9lives_cat"), "9livesCat");
}

#[test]
fn camel_case_underscores_only() {
    assert_eq!(convert_to_camel_case("___"), "");
}

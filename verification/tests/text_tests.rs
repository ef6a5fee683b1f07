use sly::text::{chars_of, string_of, trim};

#[test]
fn trim_drops_outer_white_space() {
    let t = trim(&chars_of("  a b \n"));
    assert_eq!(string_of(&t), "a b");
}

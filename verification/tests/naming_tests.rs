use rustpix::naming::derive_output_path;
use rustpix::naming::dir_prefix_end;
use rustpix::naming::usize_to_string;
use rustpix::naming::with_file_name;

#[test]
fn decimal_rendering() {
    assert_eq!(usize_to_string(0), "0");
    assert_eq!(usize_to_string(7), "7");
    assert_eq!(usize_to_string(10), "10");
    assert_eq!(usize_to_string(305), "305");
    assert_eq!(usize_to_string(1000), "1000");
}

#[test]
fn dir_prefix_of_plain_name_is_empty() {
    assert_eq!(dir_prefix_end("photo.png"), 0);
}

#[test]
fn dir_prefix_ends_after_last_slash() {
    assert_eq!(dir_prefix_end("a/b/photo.png"), 4);
    assert_eq!(dir_prefix_end("/photo.png"), 1);
    assert_eq!(dir_prefix_end("a/b/"), 4);
}

#[test]
fn with_file_name_replaces_the_last_component() {
    assert_eq!(with_file_name("a/b/photo.png", "x.webp"), "a/b/x.webp");
    assert_eq!(with_file_name("photo.png", "x.webp"), "x.webp");
    assert_eq!(with_file_name("/photo.png", "x.webp"), "/x.webp");
}

#[test]
fn no_base_name_uses_the_token() {
    let r = derive_output_path("dir/photo.png", &None, 0, 1, "abc-def");
    assert_eq!(r, "dir/abc-def.webp");
}

#[test]
fn base_name_alone_for_a_batch_of_one() {
    let r = derive_output_path("dir/photo.png", &Some("img".to_string()), 0, 1, "unused");
    assert_eq!(r, "dir/img.webp");
}

#[test]
fn base_name_is_numbered_in_a_larger_batch() {
    let base = Some("img".to_string());
    assert_eq!(derive_output_path("a.png", &base, 0, 3, "t"), "img1.webp");
    assert_eq!(derive_output_path("b.png", &base, 1, 3, "t"), "img2.webp");
    assert_eq!(derive_output_path("c.png", &base, 2, 3, "t"), "img3.webp");
}

#[test]
fn numbering_follows_the_index_not_the_token() {
    let base = Some("out".to_string());
    let a = derive_output_path("d/x.png", &base, 9, 12, "tok-one");
    let b = derive_output_path("d/x.png", &base, 9, 12, "tok-two");
    assert_eq!(a, "d/out10.webp");
    assert_eq!(a, b);
}

use chat_hub::uploads::{
    add_chunk, file_extension, is_allowed_extension, stored_filename, upload_url, MAX_UPLOAD_BYTES,
};

#[test]
fn extension_follows_the_last_dot() {
    assert_eq!(file_extension("photo.png"), "png");
    assert_eq!(file_extension("archive.tar.GZ"), "gz");
    assert_eq!(file_extension("Photo.JPeG"), "jpeg");
    assert_eq!(file_extension("trailing."), "");
    assert_eq!(file_extension(".hidden"), "hidden");
    assert_eq!(file_extension("a.b.c.webp"), "webp");
}

#[test]
fn name_without_a_dot_is_its_own_extension() {
    assert_eq!(file_extension("file"), "file");
    assert_eq!(file_extension("PNG"), "png");
    assert_eq!(file_extension(""), "");
}

#[test]
fn only_image_extensions_are_taken() {
    for taken in ["png", "jpg", "jpeg", "gif", "webp", "bmp"] {
        assert!(is_allowed_extension(taken));
    }
    for refused in ["svg", "exe", "", "PNG", "png ", "file", "tiff"] {
        assert!(!is_allowed_extension(refused));
    }
}

#[test]
fn upload_may_grow_to_eight_mebibytes() {
    assert_eq!(MAX_UPLOAD_BYTES, 8 * 1024 * 1024);
    assert_eq!(add_chunk(0, 0), Some(0));
    assert_eq!(add_chunk(10, 5), Some(15));
    assert_eq!(add_chunk(MAX_UPLOAD_BYTES - 1, 1), Some(MAX_UPLOAD_BYTES));
    assert_eq!(add_chunk(0, MAX_UPLOAD_BYTES), Some(MAX_UPLOAD_BYTES));
    assert_eq!(add_chunk(MAX_UPLOAD_BYTES, 1), None);
    assert_eq!(add_chunk(1, MAX_UPLOAD_BYTES), None);
    assert_eq!(add_chunk(usize::MAX, 1), None);
    assert_eq!(add_chunk(1, usize::MAX), None);
    assert_eq!(add_chunk(usize::MAX, usize::MAX), None);
}

#[test]
fn kept_file_is_named_after_its_uploader() {
    assert_eq!(stored_filename("u1", "abc-def", "png"), "u1_abc-def.png");
    assert_eq!(stored_filename("", "", ""), "_.");
    assert_eq!(upload_url("u1_abc-def.png"), "/uploads/u1_abc-def.png");
}

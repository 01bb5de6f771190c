use mmv3_car_physics::image::EncodedImage;

#[test]
fn image_is_encoded_as_base64_text() {
    let image = EncodedImage::from_bytes(b"hello world", "png");
    assert_eq!(image.get_html_src_string(), "data:image/png;base64,aGVsbG8gd29ybGQ=");
}

#[test]
fn image_text_is_what_the_base64_crate_gives() {
    let bytes: Vec<u8> = (0..=255u8).collect();
    let image = EncodedImage::from_bytes(&bytes, "gif");
    assert_eq!(
        image.get_html_src_string(),
        format!("data:image/gif;base64,{}", base64::encode(&bytes))
    );
}

#[test]
fn image_text_is_padded() {
    assert_eq!(EncodedImage::from_bytes(b"", "png").get_html_src_string(), "data:image/png;base64,");
    assert_eq!(
        EncodedImage::from_bytes(b"a", "png").get_html_src_string(),
        "data:image/png;base64,YQ=="
    );
    assert_eq!(
        EncodedImage::from_bytes(b"ab", "png").get_html_src_string(),
        "data:image/png;base64,YWI="
    );
    assert_eq!(
        EncodedImage::from_bytes(b"abc", "png").get_html_src_string(),
        "data:image/png;base64,YWJj"
    );
}

#[test]
fn image_text_uses_the_standard_alphabet() {
    assert_eq!(
        EncodedImage::from_bytes(&[0xFB, 0xFF, 0xBF], "png").get_html_src_string(),
        "data:image/png;base64,+/+/"
    );
}

#[test]
fn html_src_names_the_extension() {
    assert_eq!(
        EncodedImage::from_bytes(&[0, 1, 2], "jpeg").get_html_src_string(),
        "data:image/jpeg;base64,AAEC"
    );
    assert_eq!(EncodedImage::from_bytes(&[], "").get_html_src_string(), "data:image/;base64,");
}

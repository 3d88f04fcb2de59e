use screen_shield::base64::base64_encode;
use screen_shield::icon::{bgra_to_rgba, fix_missing_alpha, icon_b64_from_rgba, pick_icon_handle};

fn reference_png(w: u32, h: u32, rgba: Vec<u8>) -> Vec<u8> {
    let img: image::RgbaImage = image::ImageBuffer::from_raw(w, h, rgba).unwrap();
    let mut buf = std::io::Cursor::new(Vec::new());
    img.write_to(&mut buf, image::ImageFormat::Png).unwrap();
    buf.into_inner()
}

#[test]
fn icon_data_url_of_pixels() {
    let rgba = vec![255, 0, 0, 255, 0, 255, 0, 128, 0, 0, 255, 0, 9, 9, 9, 1];
    let url = icon_b64_from_rgba(2, 2, rgba.clone()).unwrap();
    let expected = format!("data:image/png;base64,{}", base64_encode(&reference_png(2, 2, rgba)));
    assert_eq!(url, expected);
    assert!(url.starts_with("data:image/png;base64,iVBORw0KGgo"));
}

#[test]
fn icon_without_alpha_becomes_opaque() {
    let rgba = vec![1, 2, 3, 0, 4, 5, 6, 0];
    let url = icon_b64_from_rgba(2, 1, rgba).unwrap();
    let expected = format!(
        "data:image/png;base64,{}",
        base64_encode(&reference_png(2, 1, vec![1, 2, 3, 255, 4, 5, 6, 255]))
    );
    assert_eq!(url, expected);
}

#[test]
fn icon_buffer_too_small() {
    assert_eq!(icon_b64_from_rgba(2, 2, vec![0; 15]), None);
    assert_eq!(icon_b64_from_rgba(1, 1, vec![]), None);
}

#[test]
fn alpha_fix_rules() {
    let mut v = vec![1, 2, 3, 0, 4, 5, 6, 0, 7];
    fix_missing_alpha(&mut v);
    assert_eq!(v, vec![1, 2, 3, 255, 4, 5, 6, 255, 7]);
    let mut v = vec![1, 2, 3, 0, 4, 5, 6, 7];
    fix_missing_alpha(&mut v);
    assert_eq!(v, vec![1, 2, 3, 0, 4, 5, 6, 7]);
    let mut v: Vec<u8> = vec![];
    fix_missing_alpha(&mut v);
    assert!(v.is_empty());
}

#[test]
fn bgra_reorder_and_back() {
    let orig = vec![10, 20, 30, 40, 50, 60, 70, 80];
    let mut v = orig.clone();
    bgra_to_rgba(&mut v);
    assert_eq!(v, vec![30, 20, 10, 40, 70, 60, 50, 80]);
    bgra_to_rgba(&mut v);
    assert_eq!(v, orig);
}

#[test]
fn icon_handle_choice() {
    assert_eq!(pick_icon_handle([0, 0, 5, 6]), Some(5));
    assert_eq!(pick_icon_handle([7, 0, 5, 6]), Some(7));
    assert_eq!(pick_icon_handle([0, 0, 0, -3]), Some(-3));
    assert_eq!(pick_icon_handle([0, 0, 0, 0]), None);
}

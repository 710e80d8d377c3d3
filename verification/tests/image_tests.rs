use base64::Engine;
use deskshortcut::icon_image::{
    drawing_size, icon_buffer_len, icon_dimensions, icon_png_data_url, plan_extracted_icon,
    png_data_url, prepare_icon_pixels, shell_icon_outcome,
};

#[test]
fn pixels_swap_blue_and_red() {
    let mut px = vec![1, 2, 3, 4, 5, 6, 7, 0, 9, 9];
    prepare_icon_pixels(&mut px);
    assert_eq!(px, vec![3, 2, 1, 4, 7, 6, 5, 0, 9, 9]);
}

#[test]
fn pixels_get_alpha_when_none_has_any() {
    let mut px = vec![0, 0, 0, 0, 10, 0, 0, 0, 0, 0, 5, 0];
    prepare_icon_pixels(&mut px);
    assert_eq!(px, vec![0, 0, 0, 0, 0, 0, 10, 255, 5, 0, 0, 255]);
    let mut dark = vec![0u8; 8];
    prepare_icon_pixels(&mut dark);
    assert_eq!(dark, vec![0u8; 8]);
}

#[test]
fn data_url_base64_of_bytes() {
    assert_eq!(png_data_url(b"hello"), "data:image/png;base64,aGVsbG8=");
    assert_eq!(png_data_url(b""), "data:image/png;base64,");
    assert_eq!(png_data_url(b"Ma"), "data:image/png;base64,TWE=");
    assert_eq!(png_data_url(&[0xfb, 0xff, 0xbf]), "data:image/png;base64,+/+/");
}

#[test]
fn icon_png_data_url_encodes_png() {
    let px = vec![0, 0, 255, 255, 0, 255, 0, 128, 255, 0, 0, 0, 9, 9, 9, 9];
    let url = icon_png_data_url(px, 2, 2).unwrap();
    let b64 = url.strip_prefix("data:image/png;base64,").unwrap();
    let png = base64::engine::general_purpose::STANDARD.decode(b64).unwrap();
    assert_eq!(&png[..8], &[0x89, b'P', b'N', b'G', 0x0D, 0x0A, 0x1A, 0x0A]);
}

#[test]
fn dimensions_from_bitmap() {
    assert_eq!(icon_dimensions(0, 32, 32, true), None);
    assert_eq!(icon_dimensions(24, 0, 32, true), None);
    assert_eq!(icon_dimensions(24, 48, -1, true), None);
    assert_eq!(icon_dimensions(24, 48, 48, true), Some((48, 48)));
    assert_eq!(icon_dimensions(24, 32, 64, false), Some((32, 32)));
    assert_eq!(icon_dimensions(24, 8, 1000, true), Some((16, 256)));
    assert_eq!(icon_dimensions(24, 20, 1, false), Some((20, 16)));
    assert_eq!(drawing_size(None), (32, 32));
    assert_eq!(drawing_size(Some((20, 40))), (20, 40));
    assert_eq!(icon_buffer_len(16, 32), 2048);
}

#[test]
fn extracted_icon_choice() {
    let p = plan_extracted_icon(0, true, true);
    assert!(!p.destroy_other);
    assert_eq!(p.outcome, Err("图标资源不存在".to_string()));
    let p = plan_extracted_icon(1, true, true);
    assert!(p.keep_large && p.destroy_other && p.outcome.is_ok());
    let p = plan_extracted_icon(1, false, true);
    assert!(!p.keep_large && !p.destroy_other && p.outcome.is_ok());
    let p = plan_extracted_icon(1, false, false);
    assert_eq!(p.outcome, Err("图标资源为空".to_string()));
    assert_eq!(shell_icon_outcome(0, true), Err("Shell 未返回文件图标".to_string()));
    assert_eq!(shell_icon_outcome(1, false), Err("Shell 未返回文件图标".to_string()));
    assert_eq!(shell_icon_outcome(1, true), Ok(()));
}

use maps_backend::config::{parse_port, parse_u16, Config, EnvValues};
use maps_backend::media::{compress_image, image_to_store, needs_resize};

fn empty_env() -> EnvValues {
    EnvValues {
        database_url: None,
        redis_url: None,
        jwt_secret: None,
        port: None,
        upload_dir: None,
        nrel_api_key: None,
        ocm_api_key: None,
        tankerkoenig_api_key: None,
        gemini_api_key: None,
        gemini_model: None,
        kilo_model: None,
    }
}

#[test]
fn ports_parse_like_u16_from_str() {
    assert_eq!(parse_u16("8080"), Some(8080));
    assert_eq!(parse_u16("+80"), Some(80));
    assert_eq!(parse_u16("0065535"), Some(65535));
    assert_eq!(parse_u16("65536"), None);
    assert_eq!(parse_u16("999999999999"), None);
    assert_eq!(parse_u16("-1"), None);
    assert_eq!(parse_u16("+"), None);
    assert_eq!(parse_u16(""), None);
    assert_eq!(parse_u16(" 80"), None);
    for s in ["1", "+7", "65535", "00", "-0", "++1", "12a"] {
        assert_eq!(parse_u16(s), s.parse::<u16>().ok());
    }
    assert_eq!(parse_port(&Some("abc".to_string())), 3001);
    assert_eq!(parse_port(&None), 3001);
}

#[test]
fn settings_defaults() {
    let c = Config::from_values(empty_env());
    assert_eq!(c.database_url, "postgres://localhost/maps");
    assert_eq!(c.redis_url, "redis://127.0.0.1:6379");
    assert_eq!(c.jwt_secret, "dev-secret-change-in-production-32bytes!!");
    assert_eq!(c.port, 3001);
    assert_eq!(c.upload_dir, "./uploads");
    let mut e = empty_env();
    e.port = Some("9000".to_string());
    e.upload_dir = Some("/srv/up".to_string());
    e.gemini_api_key = Some("g".to_string());
    let c = Config::from_values(e);
    assert_eq!(c.port, 9000);
    assert_eq!(c.upload_dir, "/srv/up");
    assert_eq!(c.gemini_api_key.as_deref(), Some("g"));
}

#[test]
fn images_are_shrunk_to_jpeg() {
    assert!(needs_resize(1921, 10));
    assert!(!needs_resize(1920, 1920));
    let err = compress_image(b"not an image").unwrap_err();
    assert!(err.starts_with("Invalid image: "));
    let mut png = Vec::new();
    let img = image::RgbImage::from_pixel(2500, 40, image::Rgb([200, 10, 10]));
    image::DynamicImage::ImageRgb8(img)
        .write_to(&mut std::io::Cursor::new(&mut png), image::ImageFormat::Png)
        .unwrap();
    let jpeg = compress_image(&png).unwrap();
    let back = image::load_from_memory(&jpeg).unwrap();
    assert_eq!(image::guess_format(&jpeg).unwrap(), image::ImageFormat::Jpeg);
    // the longer side becomes 1920 and the other keeps the ratio: 40 * 1920 / 2500 = 30.72
    assert_eq!((back.width(), back.height()), (1920, 31));
    assert_eq!(image_to_store(vec![1], None), vec![1]);
    assert_eq!(image_to_store(vec![1], Some(vec![2])), vec![2]);
}

#[test]
fn small_images_keep_their_size() {
    let mut png = Vec::new();
    let img = image::RgbImage::from_pixel(30, 20, image::Rgb([10, 200, 10]));
    image::DynamicImage::ImageRgb8(img.clone())
        .write_to(&mut std::io::Cursor::new(&mut png), image::ImageFormat::Png)
        .unwrap();
    let jpeg = compress_image(&png).unwrap();
    let back = image::load_from_memory(&jpeg).unwrap();
    assert_eq!((back.width(), back.height()), (30, 20));
    // the same bytes as the encoder writes at quality 88
    let mut expected = Vec::new();
    image::codecs::jpeg::JpegEncoder::new_with_quality(&mut expected, 88)
        .encode(img.as_raw(), 30, 20, image::ExtendedColorType::Rgb8)
        .unwrap();
    assert_eq!(jpeg, expected);
}

use framy::color::{parse_color, Color};
use framy::config::{build_config, normalize_outdir, parse_format, OutputFormat};
use framy::error::FrameError;
use framy::paths::{output_name, output_path, split_paths};

#[test]
fn parse_color_valid_hex() {
    assert_eq!(parse_color("ffcc00"), (Color { r: 255, g: 204, b: 0 }, true));
    assert_eq!(parse_color("000000"), (Color { r: 0, g: 0, b: 0 }, true));
    assert_eq!(parse_color("0A1b2C"), (Color { r: 10, g: 27, b: 44 }, true));
}

#[test]
fn parse_color_malformed_falls_back_to_white() {
    let white = Color { r: 255, g: 255, b: 255 };
    assert_eq!(parse_color("fff"), (white, false));
    assert_eq!(parse_color("ffcc0g"), (white, false));
    assert_eq!(parse_color(""), (white, false));
    assert_eq!(parse_color("ffcc000"), (white, false));
}

#[test]
fn parse_format_case_insensitive() {
    assert_eq!(parse_format("png"), (OutputFormat::Png, true));
    assert_eq!(parse_format("PNG"), (OutputFormat::Png, true));
    assert_eq!(parse_format("JpEg"), (OutputFormat::Jpeg, true));
    assert_eq!(parse_format("jpg"), (OutputFormat::Jpg, true));
    assert_eq!(parse_format("gif"), (OutputFormat::Gif, true));
    assert_eq!(parse_format("WEBP"), (OutputFormat::Webp, true));
    assert_eq!(parse_format("tiff"), (OutputFormat::Tiff, true));
}

#[test]
fn parse_format_unknown_falls_back_to_jpg() {
    assert_eq!(parse_format("bmp"), (OutputFormat::Jpg, false));
    assert_eq!(parse_format(""), (OutputFormat::Jpg, false));
    assert_eq!(parse_format("tif"), (OutputFormat::Jpg, false));
}

#[test]
fn outdir_gains_trailing_separator() {
    assert_eq!(normalize_outdir("out"), "out/");
    assert_eq!(normalize_outdir("out/"), "out/");
    assert_eq!(normalize_outdir("."), "./");
    assert_eq!(normalize_outdir(""), "/");
}

#[test]
fn build_config_combines_fields() {
    let (cfg, fmt_ok, col_ok) = build_config(32, 1920, "photos", "WEBP", "102030");
    assert_eq!(cfg.padding, 32);
    assert_eq!(cfg.size, 1920);
    assert_eq!(cfg.outdir, "photos/");
    assert_eq!(cfg.format, OutputFormat::Webp);
    assert_eq!(cfg.color, Color { r: 16, g: 32, b: 48 });
    assert!(fmt_ok);
    assert!(col_ok);
}

#[test]
fn build_config_falls_back_on_cosmetic_fields() {
    let (cfg, fmt_ok, col_ok) = build_config(0, 10, "./", "bogus", "zzz");
    assert_eq!(cfg.format, OutputFormat::Jpg);
    assert_eq!(cfg.color, Color { r: 255, g: 255, b: 255 });
    assert!(!fmt_ok);
    assert!(!col_ok);
}

#[test]
fn output_name_strips_directory_and_last_extension() {
    assert_eq!(output_name("shots/roll1/photo.old.jpg", OutputFormat::Png), "photo.old_framed.png");
    assert_eq!(output_name("a/b.tar.gz", OutputFormat::Png), "b.tar_framed.png");
    assert_eq!(output_name("photo.jpg", OutputFormat::Jpeg), "photo_framed.jpeg");
    assert_eq!(output_name("photo", OutputFormat::Gif), "photo_framed.gif");
    assert_eq!(output_name(".bashrc", OutputFormat::Png), "_framed.png");
    assert_eq!(output_name("dir/", OutputFormat::Tiff), "_framed.tiff");
}

#[test]
fn output_path_prepends_directory() {
    let (cfg, _, _) = build_config(32, 1920, "out", "png", "ffffff");
    assert_eq!(output_path(&cfg, "in/cat.jpg"), "out/cat_framed.png");
}

#[test]
fn split_paths_on_whitespace() {
    let r = split_paths(" a.png\nb.jpg\t\r c d.png  ");
    assert_eq!(r, vec!["a.png", "b.jpg", "c", "d.png"]);
    assert_eq!(split_paths(""), Vec::<String>::new());
    assert_eq!(split_paths("  \n \t"), Vec::<String>::new());
    assert_eq!(split_paths("one"), vec!["one"]);
}

#[test]
fn error_descriptions() {
    assert_eq!(FrameError::DecodeError.describe(), "cannot decode input image");
    assert_eq!(FrameError::InvalidConfiguration.describe(), "size must exceed twice the padding");
    assert_eq!(FrameError::EncodeError.describe(), "cannot encode output image");
}

use atem_converter::error::ConvertError;
use atem_converter::paths::{
    cli_default_name, file_name_part, file_stem_ext, format_input_in, has_root, join_path,
    parent_dir, resolve_cli_output, resolve_gui_dir, FileInfo, OutFile,
};

#[test]
fn file_name_and_stem() {
    assert_eq!(file_name_part("/videos/clip.mp4"), "clip.mp4");
    assert_eq!(file_name_part("clip.mp4"), "clip.mp4");
    let (stem, ext) = file_stem_ext("/videos/clip.mp4").unwrap();
    assert_eq!(stem, "clip");
    assert_eq!(ext, "mp4");
    let (stem, ext) = file_stem_ext("archive.tar.gz").unwrap();
    assert_eq!(stem, "archive.tar");
    assert_eq!(ext, "gz");
    let (stem, ext) = file_stem_ext("plain").unwrap();
    assert_eq!(stem, "plain");
    assert_eq!(ext, "");
    let (stem, ext) = file_stem_ext(".hidden").unwrap();
    assert_eq!(stem, ".hidden");
    assert_eq!(ext, "");
}

#[test]
fn no_file_stem() {
    assert!(file_stem_ext("").is_none());
    assert!(file_stem_ext("/videos/").is_none());
    assert_eq!(cli_default_name("").unwrap_err(), ConvertError::NoFileStem);
    assert_eq!(
        resolve_cli_output(None, "/work", "dir/").unwrap_err(),
        ConvertError::NoFileStem
    );
    assert_eq!(
        format_input_in("", "/videos").unwrap_err(),
        ConvertError::NoFileStem
    );
}

#[test]
fn parent_and_root() {
    assert_eq!(parent_dir("/videos/clip.mp4").unwrap(), "/videos");
    assert_eq!(parent_dir("clip.mp4").unwrap(), "");
    assert_eq!(parent_dir("/clip.mp4").unwrap(), "/");
    assert!(parent_dir("/").is_none());
    assert!(parent_dir("").is_none());
    assert!(has_root("/videos/clip.mp4"));
    assert!(!has_root("clip.mp4"));
}

#[test]
fn join_path_cases() {
    assert_eq!(join_path("/videos", "clip.mp4"), "/videos/clip.mp4");
    assert_eq!(join_path("/videos/", "clip.mp4"), "/videos/clip.mp4");
    assert_eq!(join_path("", "clip.mp4"), "clip.mp4");
    assert_eq!(join_path(".", "clip.mp4"), "./clip.mp4");
}

#[test]
fn cli_convention_resolution() {
    // No explicit output: <stem>_out.<ext> against the working directory.
    assert_eq!(
        resolve_cli_output(None, "/videos", "clip.mp4").unwrap(),
        "/videos/clip_out.mp4"
    );
    // Explicit rooted output: taken verbatim.
    assert_eq!(
        resolve_cli_output(Some("/tmp/out.mp4"), "/videos", "clip.mp4").unwrap(),
        "/tmp/out.mp4"
    );
    // Explicit relative output: against the working directory.
    assert_eq!(
        resolve_cli_output(Some("out.mp4"), "/videos", "clip.mp4").unwrap(),
        "/videos/out.mp4"
    );
}

#[test]
fn gui_convention_resolution() {
    // In a known videos directory: <stem>-8m.mp4 inside it.
    let info = format_input_in("clip.mp4", "/videos").unwrap();
    assert_eq!(info.file_path, "/videos/clip-8m.mp4");
    assert_eq!(info.output_dir, "/videos");
}

#[test]
fn gui_dir_fallbacks() {
    // The videos directory wins when known.
    assert_eq!(
        resolve_gui_dir(Some("/videos".to_string()), "/media/clip.mp4"),
        "/videos"
    );
    // Else the input's parent directory.
    assert_eq!(resolve_gui_dir(None, "/media/clip.mp4"), "/media");
    // Else the current directory.
    assert_eq!(resolve_gui_dir(None, "clip.mp4"), "");
    assert_eq!(resolve_gui_dir(None, ""), ".");
}

#[test]
fn out_file_and_file_info() {
    let o = OutFile::new("/videos/clip-8m.mp4".to_string(), "/videos".to_string());
    assert_eq!(o.full_path, "/videos/clip-8m.mp4");
    assert_eq!(o.explorer_dir, "/videos");
    let o = OutFile::empty();
    assert_eq!(o.full_path, "");
    assert_eq!(o.explorer_dir, "");
    let f = FileInfo::new("/videos/clip-8m.mp4".to_string(), "/videos".to_string());
    assert_eq!(f.file_path, "/videos/clip-8m.mp4");
    assert_eq!(f.output_dir, "/videos");
    let f = FileInfo::empty();
    assert_eq!(f.file_path, "");
    assert_eq!(f.output_dir, "");
}

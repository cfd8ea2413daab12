// Tests for composing the downloader invocation.

use toolboot::download::{
    download_args, ext_for, output_template, selector_for, Quality, VideoFormat,
};

#[test]
fn selectors_match_each_quality_choice() {
    assert_eq!(selector_for(Quality::Full1080), "bv*[height=1080]+ba/b");
    assert_eq!(selector_for(Quality::Quad1440), "bv*[height=1440]+ba/b");
    assert_eq!(selector_for(Quality::Ultra2160), "bv*[height=2160]+ba/b");
    assert_eq!(selector_for(Quality::UpTo720), "bv*[height<=720]+ba/b");
    assert_eq!(selector_for(Quality::UpTo480), "bv*[height<=480]+ba/b");
}

#[test]
fn extensions_match_each_format_choice() {
    assert_eq!(ext_for(VideoFormat::Mp4), "mp4");
    assert_eq!(ext_for(VideoFormat::Webm), "webm");
}

#[test]
fn output_template_combines_folder_title_and_extension() {
    assert_eq!(
        output_template("D:\\videos", VideoFormat::Mp4),
        "D:\\videos/%(title)s.mp4"
    );
    assert_eq!(output_template("x", VideoFormat::Webm), "x/%(title)s.webm");
}

#[test]
fn download_args_are_ordered_for_the_downloader() {
    let args = download_args(
        Quality::UpTo720,
        VideoFormat::Mp4,
        "D:\\videos",
        "https://youtu.be/abc",
    );
    assert_eq!(
        args,
        vec![
            "-f".to_string(),
            "bv*[height<=720]+ba/b".to_string(),
            "--merge-output-format".to_string(),
            "mp4".to_string(),
            "-o".to_string(),
            "D:\\videos/%(title)s.mp4".to_string(),
            "https://youtu.be/abc".to_string(),
        ]
    );
}

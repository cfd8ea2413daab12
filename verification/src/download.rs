//! Composing the downloader invocation. The interactive flow picks a
//! quality, a container format, a save folder and a URL; this module turns
//! those choices into the exact argument list the downloader child process
//! is spawned with. Prompting and spawning stay with the surrounding
//! program.

use vstd::prelude::*;

verus! {

/// Video quality choices offered by the interactive flow.
#[derive(Clone, Copy, Debug, PartialEq, Eq, Structural)]
pub enum Quality {
    /// 1080p.
    Full1080,
    /// 1440p.
    Quad1440,
    /// 2160p.
    Ultra2160,
    /// At most 720p.
    UpTo720,
    /// At most 480p.
    UpTo480,
}

/// Container format choices offered by the interactive flow.
#[derive(Clone, Copy, Debug, PartialEq, Eq, Structural)]
pub enum VideoFormat {
    Mp4,
    Webm,
}

/// The downloader's format-selector expression for each quality choice.
pub open spec fn selector_spec(q: Quality) -> Seq<char> {
    match q {
        Quality::Full1080 => "bv*[height=1080]+ba/b"@,
        Quality::Quad1440 => "bv*[height=1440]+ba/b"@,
        Quality::Ultra2160 => "bv*[height=2160]+ba/b"@,
        Quality::UpTo720 => "bv*[height<=720]+ba/b"@,
        Quality::UpTo480 => "bv*[height<=480]+ba/b"@,
    }
}

/// Computes the selector described by [`selector_spec`].
pub fn selector_for(q: Quality) -> (r: String)
    ensures
        r@ == selector_spec(q),
{
    match q {
        Quality::Full1080 => String::from_str("bv*[height=1080]+ba/b"),
        Quality::Quad1440 => String::from_str("bv*[height=1440]+ba/b"),
        Quality::Ultra2160 => String::from_str("bv*[height=2160]+ba/b"),
        Quality::UpTo720 => String::from_str("bv*[height<=720]+ba/b"),
        Quality::UpTo480 => String::from_str("bv*[height<=480]+ba/b"),
    }
}

/// File-name extension of each container format.
pub open spec fn ext_spec(f: VideoFormat) -> Seq<char> {
    match f {
        VideoFormat::Mp4 => "mp4"@,
        VideoFormat::Webm => "webm"@,
    }
}

/// Computes the extension described by [`ext_spec`].
pub fn ext_for(f: VideoFormat) -> (r: String)
    ensures
        r@ == ext_spec(f),
{
    match f {
        VideoFormat::Mp4 => String::from_str("mp4"),
        VideoFormat::Webm => String::from_str("webm"),
    }
}

/// Output template handed to the downloader: the save folder, the title
/// placeholder, and the chosen extension.
pub open spec fn output_template_spec(save_path: Seq<char>, f: VideoFormat) -> Seq<char> {
    save_path + "/%(title)s."@ + ext_spec(f)
}

/// Computes the template described by [`output_template_spec`].
pub fn output_template(save_path: &str, f: VideoFormat) -> (r: String)
    ensures
        r@ == output_template_spec(save_path@, f),
{
    let ext = ext_for(f);
    let r = String::from_str(save_path).concat("/%(title)s.").concat(ext.as_str());
    proof {
        assert(r@ =~= output_template_spec(save_path@, f));
    }
    r
}

/// The full argument list of the downloader invocation: format selector,
/// merge format, output template, and the URL to download.
pub fn download_args(q: Quality, f: VideoFormat, save_path: &str, url: &str) -> (args: Vec<
    String,
>)
    ensures
        args@.len() == 7,
        args@[0]@ == "-f"@,
        args@[1]@ == selector_spec(q),
        args@[2]@ == "--merge-output-format"@,
        args@[3]@ == ext_spec(f),
        args@[4]@ == "-o"@,
        args@[5]@ == output_template_spec(save_path@, f),
        args@[6]@ == url@,
{
    let mut args: Vec<String> = Vec::new();
    args.push(String::from_str("-f"));
    args.push(selector_for(q));
    args.push(String::from_str("--merge-output-format"));
    args.push(ext_for(f));
    args.push(String::from_str("-o"));
    args.push(output_template(save_path, f));
    args.push(String::from_str(url));
    args
}

} // verus!

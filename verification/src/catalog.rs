//! The catalog of installable tools. A `ToolSpec` describes one external tool:
//! how to probe for it, where to fetch it from, what kind of artifact the
//! remote source serves, and where it must end up on disk. Entries are built
//! once per run and never mutated.

use vstd::prelude::*;
use crate::paths::{join_spec, join_path, sep_char};

verus! {

/// The shape of the remote artifact, which decides the placement strategy.
#[derive(Debug)]
pub enum ArtifactKind {
    /// A bare executable, fetched straight to its target file.
    Executable,
    /// A compressed archive whose executable sits below `bin_subdir`
    /// inside the extraction directory. `flatten` strips the archive's
    /// top-level directory during extraction.
    Archive { flatten: bool, bin_subdir: String },
    /// A self-installing executable, run with an unattended flag.
    SilentInstaller { flag: String },
}

/// One installable dependency: probe command, fallback locations, remote
/// source, artifact kind, and target install directory.
pub struct ToolSpec {
    /// Logical name of the tool, a bare word.
    pub name: String,
    /// Program invoked to probe for availability.
    pub probe_program: String,
    /// Argument handed to the probe invocation.
    pub probe_arg: String,
    /// Well-known locations checked when the probe spawn fails.
    pub fallback_paths: Vec<String>,
    /// Remote source of the artifact.
    pub url: String,
    /// What the remote source serves.
    pub kind: ArtifactKind,
    /// Directory the tool is installed under.
    pub install_dir: String,
    /// File name of the tool's executable.
    pub exe_name: String,
}

impl ToolSpec {
    /// A well-formed catalog entry: the logical name is a non-empty bare
    /// word, never a path.
    pub open spec fn wf(self) -> bool {
        0 < self.name@.len() && !self.name@.contains(sep_char())
    }

    /// The directory that must be on the search path for the installed tool
    /// to be found: the install directory itself, or its binary subdirectory
    /// for archives that nest their executable.
    pub open spec fn resolved_dir_spec(self) -> Seq<char> {
        match self.kind {
            ArtifactKind::Archive { flatten: _, bin_subdir } => join_spec(
                self.install_dir@,
                bin_subdir@,
            ),
            _ => self.install_dir@,
        }
    }

    /// The final on-disk location of the tool's executable; its existence is
    /// what marks the tool as installed.
    pub open spec fn target_path_spec(self) -> Seq<char> {
        join_spec(self.resolved_dir_spec(), self.exe_name@)
    }

    /// Computes the directory described by [`Self::resolved_dir_spec`].
    pub fn resolved_dir(&self) -> (r: String)
        ensures
            r@ == self.resolved_dir_spec(),
    {
        match &self.kind {
            ArtifactKind::Archive { flatten: _, bin_subdir } => join_path(
                self.install_dir.as_str(),
                bin_subdir.as_str(),
            ),
            _ => self.install_dir.clone(),
        }
    }

    /// Computes the path described by [`Self::target_path_spec`].
    pub fn target_path(&self) -> (r: String)
        ensures
            r@ == self.target_path_spec(),
    {
        let dir = self.resolved_dir();
        join_path(dir.as_str(), self.exe_name.as_str())
    }
}

/// Catalog entry for the video downloader tool, a bare executable fetched
/// into the per-user application-data directory `app_data`.
pub fn downloader_entry(app_data: &str) -> (r: ToolSpec)
    ensures
        r.name@ == "yt-dlp"@,
        r.probe_program@ == "yt-dlp"@,
        r.probe_arg@ == "--version"@,
        r.fallback_paths@.len() == 0,
        r.url@ == "https://github.com/yt-dlp/yt-dlp/releases/latest/download/yt-dlp.exe"@,
        r.kind is Executable,
        r.install_dir@ == app_data@,
        r.exe_name@ == "yt-dlp.exe"@,
        r.wf(),
{
    proof {
        reveal_strlit("yt-dlp");
    }
    ToolSpec {
        name: String::from_str("yt-dlp"),
        probe_program: String::from_str("yt-dlp"),
        probe_arg: String::from_str("--version"),
        fallback_paths: Vec::new(),
        url: String::from_str(
            "https://github.com/yt-dlp/yt-dlp/releases/latest/download/yt-dlp.exe",
        ),
        kind: ArtifactKind::Executable,
        install_dir: String::from_str(app_data),
        exe_name: String::from_str("yt-dlp.exe"),
    }
}

/// Catalog entry for the transcoder tool, an archive extracted below the
/// per-user application-data directory `app_data`, with its executable in the
/// archive's `bin` subdirectory.
pub fn transcoder_entry(app_data: &str) -> (r: ToolSpec)
    ensures
        r.name@ == "ffmpeg"@,
        r.probe_program@ == "ffmpeg"@,
        r.probe_arg@ == "-version"@,
        r.fallback_paths@.len() == 0,
        r.url@ == "https://www.gyan.dev/ffmpeg/builds/ffmpeg-release-essentials.zip"@,
        (r.kind matches ArtifactKind::Archive { flatten, bin_subdir } && flatten == true
            && bin_subdir@ == "bin"@),
        r.install_dir@ == join_spec(app_data@, "ffmpeg"@),
        r.exe_name@ == "ffmpeg.exe"@,
        r.wf(),
{
    proof {
        reveal_strlit("ffmpeg");
    }
    ToolSpec {
        name: String::from_str("ffmpeg"),
        probe_program: String::from_str("ffmpeg"),
        probe_arg: String::from_str("-version"),
        fallback_paths: Vec::new(),
        url: String::from_str("https://www.gyan.dev/ffmpeg/builds/ffmpeg-release-essentials.zip"),
        kind: ArtifactKind::Archive { flatten: true, bin_subdir: String::from_str("bin") },
        install_dir: join_path(app_data, "ffmpeg"),
        exe_name: String::from_str("ffmpeg.exe"),
    }
}

/// Catalog entry for the media player tool, a self-installing executable run
/// with its silent flag, landing in the player's fixed program directory.
pub fn player_entry() -> (r: ToolSpec)
    ensures
        r.name@ == "vlc"@,
        r.probe_program@ == "vlc"@,
        r.probe_arg@ == "--version"@,
        r.fallback_paths@.len() == 2,
        r.fallback_paths@[0]@ == "C:\\Program Files\\VideoLAN\\VLC\\vlc.exe"@,
        r.fallback_paths@[1]@ == "C:\\Program Files (x86)\\VideoLAN\\VLC\\vlc.exe"@,
        r.url@ == "https://download.videolan.org/vlc/last/win64/vlc-3.0.18-win64.exe"@,
        (r.kind matches ArtifactKind::SilentInstaller { flag } && flag@ == "/S"@),
        r.install_dir@ == "C:\\Program Files\\VideoLAN\\VLC"@,
        r.exe_name@ == "vlc.exe"@,
        r.wf(),
{
    proof {
        reveal_strlit("vlc");
    }
    let mut fallback_paths: Vec<String> = Vec::new();
    fallback_paths.push(String::from_str("C:\\Program Files\\VideoLAN\\VLC\\vlc.exe"));
    fallback_paths.push(String::from_str("C:\\Program Files (x86)\\VideoLAN\\VLC\\vlc.exe"));
    ToolSpec {
        name: String::from_str("vlc"),
        probe_program: String::from_str("vlc"),
        probe_arg: String::from_str("--version"),
        fallback_paths,
        url: String::from_str("https://download.videolan.org/vlc/last/win64/vlc-3.0.18-win64.exe"),
        kind: ArtifactKind::SilentInstaller { flag: String::from_str("/S") },
        install_dir: String::from_str("C:\\Program Files\\VideoLAN\\VLC"),
        exe_name: String::from_str("vlc.exe"),
    }
}

} // verus!

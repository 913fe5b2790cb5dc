//! Where the bundled tools are downloaded from, for each platform.

use vstd::prelude::*;
use vstd::string::StringExecFns;

use crate::text::str_eq;

verus! {

/// The message for a platform for which a tool is not offered.
pub open spec fn unsupported_platform(os: Seq<char>, arch: Seq<char>) -> Seq<char> {
    "Unsupported platform: "@ + os + " "@ + arch
}

/// The address of the latest release of yt-dlp for a platform, if there is
/// one for it.
pub open spec fn yt_dlp_url(os: Seq<char>, arch: Seq<char>) -> Option<Seq<char>> {
    if os == "windows"@ && arch == "x86_64"@ {
        Some("https://github.com/yt-dlp/yt-dlp/releases/latest/download/yt-dlp.exe"@)
    } else if os == "windows"@ && arch == "aarch64"@ {
        Some("https://github.com/yt-dlp/yt-dlp/releases/latest/download/yt-dlp_arm64.exe"@)
    } else if os == "windows"@ && arch == "x86"@ {
        Some("https://github.com/yt-dlp/yt-dlp/releases/latest/download/yt-dlp_x86.exe"@)
    } else if os == "linux"@ && arch == "x86_64"@ {
        Some("https://github.com/yt-dlp/yt-dlp/releases/latest/download/yt-dlp_linux"@)
    } else if os == "linux"@ && arch == "aarch64"@ {
        Some("https://github.com/yt-dlp/yt-dlp/releases/latest/download/yt-dlp_linux_aarch64"@)
    } else if os == "linux"@ && arch == "arm"@ {
        Some("https://github.com/yt-dlp/yt-dlp/releases/latest/download/yt-dlp_linux_armv7l"@)
    } else if os == "macos"@ && (arch == "x86_64"@ || arch == "aarch64"@) {
        Some("https://github.com/yt-dlp/yt-dlp/releases/latest/download/yt-dlp_macos"@)
    } else {
        None
    }
}

/// The address of the latest build of ffmpeg for a platform, if there is
/// one for it.
pub open spec fn ffmpeg_url(os: Seq<char>, arch: Seq<char>) -> Option<Seq<char>> {
    if os == "windows"@ && arch == "x86_64"@ {
        Some(
            "https://github.com/BtbN/FFmpeg-Builds/releases/download/latest/ffmpeg-master-latest-win64-gpl.zip"@,
        )
    } else if os == "windows"@ && arch == "aarch64"@ {
        Some(
            "https://github.com/BtbN/FFmpeg-Builds/releases/download/latest/ffmpeg-master-latest-winarm64-gpl.zip"@,
        )
    } else if os == "linux"@ && arch == "x86_64"@ {
        Some(
            "https://github.com/BtbN/FFmpeg-Builds/releases/download/latest/ffmpeg-master-latest-linux64-gpl.tar.xz"@,
        )
    } else if os == "linux"@ && arch == "aarch64"@ {
        Some(
            "https://github.com/BtbN/FFmpeg-Builds/releases/download/latest/ffmpeg-master-latest-linuxarm64-gpl.tar.xz"@,
        )
    } else if os == "macos"@ && arch == "x86_64"@ {
        Some(
            "https://github.com/BtbN/FFmpeg-Builds/releases/download/latest/ffmpeg-master-latest-macos64-gpl.tar.xz"@,
        )
    } else if os == "macos"@ && arch == "aarch64"@ {
        Some(
            "https://github.com/BtbN/FFmpeg-Builds/releases/download/latest/ffmpeg-master-latest-macosarm64-gpl.tar.xz"@,
        )
    } else {
        None
    }
}

/// The address of a tool, or the message that there is none for the
/// platform.
pub open spec fn url_or_message(url: Option<Seq<char>>, os: Seq<char>, arch: Seq<char>) -> Result<
    Seq<char>,
    Seq<char>,
> {
    match url {
        Some(address) => Ok(address),
        None => Err(unsupported_platform(os, arch)),
    }
}

/// The texts of a result.
pub open spec fn texts(r: Result<String, String>) -> Result<Seq<char>, Seq<char>> {
    match r {
        Ok(text) => Ok(text@),
        Err(text) => Err(text@),
    }
}

fn unsupported(os: &str, arch: &str) -> (message: String)
    ensures
        message@ == unsupported_platform(os@, arch@),
{
    let mut message = String::from_str("Unsupported platform: ");
    message.append(os);
    message.append(" ");
    message.append(arch);
    message
}

/// The address of the latest release of yt-dlp for the operating system
/// `os` on the processor `arch`.
pub fn get_yt_dlp_download_url(os: &str, arch: &str) -> (r: Result<String, String>)
    ensures
        texts(r) == url_or_message(yt_dlp_url(os@, arch@), os@, arch@),
{
    let windows = str_eq(os, "windows");
    let linux = str_eq(os, "linux");
    let macos = str_eq(os, "macos");
    let x86_64 = str_eq(arch, "x86_64");
    let aarch64 = str_eq(arch, "aarch64");
    let url = if windows && x86_64 {
        "https://github.com/yt-dlp/yt-dlp/releases/latest/download/yt-dlp.exe"
    } else if windows && aarch64 {
        "https://github.com/yt-dlp/yt-dlp/releases/latest/download/yt-dlp_arm64.exe"
    } else if windows && str_eq(arch, "x86") {
        "https://github.com/yt-dlp/yt-dlp/releases/latest/download/yt-dlp_x86.exe"
    } else if linux && x86_64 {
        "https://github.com/yt-dlp/yt-dlp/releases/latest/download/yt-dlp_linux"
    } else if linux && aarch64 {
        "https://github.com/yt-dlp/yt-dlp/releases/latest/download/yt-dlp_linux_aarch64"
    } else if linux && str_eq(arch, "arm") {
        "https://github.com/yt-dlp/yt-dlp/releases/latest/download/yt-dlp_linux_armv7l"
    } else if macos && (x86_64 || aarch64) {
        "https://github.com/yt-dlp/yt-dlp/releases/latest/download/yt-dlp_macos"
    } else {
        return Err(unsupported(os, arch));
    };
    Ok(String::from_str(url))
}

/// The address of the latest build of ffmpeg for the operating system `os`
/// on the processor `arch`.
pub fn get_ffmpeg_download_url(os: &str, arch: &str) -> (r: Result<String, String>)
    ensures
        texts(r) == url_or_message(ffmpeg_url(os@, arch@), os@, arch@),
{
    let windows = str_eq(os, "windows");
    let linux = str_eq(os, "linux");
    let macos = str_eq(os, "macos");
    let x86_64 = str_eq(arch, "x86_64");
    let aarch64 = str_eq(arch, "aarch64");
    let url = if windows && x86_64 {
        "https://github.com/BtbN/FFmpeg-Builds/releases/download/latest/ffmpeg-master-latest-win64-gpl.zip"
    } else if windows && aarch64 {
        "https://github.com/BtbN/FFmpeg-Builds/releases/download/latest/ffmpeg-master-latest-winarm64-gpl.zip"
    } else if linux && x86_64 {
        "https://github.com/BtbN/FFmpeg-Builds/releases/download/latest/ffmpeg-master-latest-linux64-gpl.tar.xz"
    } else if linux && aarch64 {
        "https://github.com/BtbN/FFmpeg-Builds/releases/download/latest/ffmpeg-master-latest-linuxarm64-gpl.tar.xz"
    } else if macos && x86_64 {
        "https://github.com/BtbN/FFmpeg-Builds/releases/download/latest/ffmpeg-master-latest-macos64-gpl.tar.xz"
    } else if macos && aarch64 {
        "https://github.com/BtbN/FFmpeg-Builds/releases/download/latest/ffmpeg-master-latest-macosarm64-gpl.tar.xz"
    } else {
        return Err(unsupported(os, arch));
    };
    Ok(String::from_str(url))
}

/// How an archive is packed.
#[derive(Clone, Copy, Debug, PartialEq, Eq, Structural)]
pub enum ArchiveKind {
    Zip,
    TarXz,
}

/// The name under which yt-dlp is stored beside the program.
pub open spec fn yt_dlp_file(os: Seq<char>) -> Seq<char> {
    if os == "windows"@ {
        "yt-dlp.exe"@
    } else {
        "yt-dlp"@
    }
}

/// The name under which the archive of ffmpeg is stored until it is
/// unpacked. A system that is neither Windows nor macOS counts as Linux,
/// and a processor that is not `aarch64` as the 64 bit one.
pub open spec fn ffmpeg_archive(os: Seq<char>, arch: Seq<char>) -> Seq<char> {
    if os == "windows"@ {
        if arch == "aarch64"@ {
            "ffmpeg-master-latest-winarm64-gpl.zip"@
        } else {
            "ffmpeg-master-latest-win64-gpl.zip"@
        }
    } else if os == "macos"@ {
        if arch == "aarch64"@ {
            "ffmpeg-master-latest-macosarm64-gpl.tar.xz"@
        } else {
            "ffmpeg-master-latest-macos64-gpl.tar.xz"@
        }
    } else if arch == "aarch64"@ {
        "ffmpeg-master-latest-linuxarm64-gpl.tar.xz"@
    } else {
        "ffmpeg-master-latest-linux64-gpl.tar.xz"@
    }
}

/// How the archive of ffmpeg is packed: as a zip file for Windows, as a
/// compressed tar file for every other system.
pub open spec fn ffmpeg_archive_kind(os: Seq<char>) -> ArchiveKind {
    if os == "windows"@ {
        ArchiveKind::Zip
    } else {
        ArchiveKind::TarXz
    }
}

/// One file to download.
#[derive(Debug)]
pub struct Download {
    /// Where it comes from.
    pub url: String,
    /// The name under which it is stored beside the program.
    pub file_name: String,
}

/// The download of ffmpeg.
#[derive(Debug)]
pub struct ArchiveDownload {
    pub download: Download,
    /// How to unpack what was downloaded.
    pub kind: ArchiveKind,
}

/// What setting up the bundled tools takes, in the order in which it is
/// done.
#[derive(Debug)]
pub struct DownloadPlan {
    pub yt_dlp: Download,
    /// The download of ffmpeg, or the message that the platform has none.
    /// It comes up only after yt-dlp has been downloaded.
    pub ffmpeg: Result<ArchiveDownload, String>,
}

/// The name under which yt-dlp is stored beside the program.
pub fn yt_dlp_file_name(os: &str) -> (name: &'static str)
    ensures
        name@ == yt_dlp_file(os@),
{
    if str_eq(os, "windows") {
        "yt-dlp.exe"
    } else {
        "yt-dlp"
    }
}

/// The name under which the archive of ffmpeg is stored.
pub fn ffmpeg_archive_name(os: &str, arch: &str) -> (name: &'static str)
    ensures
        name@ == ffmpeg_archive(os@, arch@),
{
    let arm = str_eq(arch, "aarch64");
    if str_eq(os, "windows") {
        if arm {
            "ffmpeg-master-latest-winarm64-gpl.zip"
        } else {
            "ffmpeg-master-latest-win64-gpl.zip"
        }
    } else if str_eq(os, "macos") {
        if arm {
            "ffmpeg-master-latest-macosarm64-gpl.tar.xz"
        } else {
            "ffmpeg-master-latest-macos64-gpl.tar.xz"
        }
    } else if arm {
        "ffmpeg-master-latest-linuxarm64-gpl.tar.xz"
    } else {
        "ffmpeg-master-latest-linux64-gpl.tar.xz"
    }
}

/// The message that ends a setup that went well.
pub open spec fn setup_done() -> Seq<char> {
    "All tools downloaded successfully"@
}

/// The message that ends a setup that went well.
pub fn setup_done_message() -> (message: &'static str)
    ensures
        message@ == setup_done(),
{
    "All tools downloaded successfully"
}

/// Plans the setup of the bundled tools for the operating system `os` on
/// the processor `arch`.
///
/// Without a yt-dlp for the platform there is nothing to do but to report
/// that. Without an ffmpeg for it, yt-dlp is downloaded all the same, and
/// the report comes after that.
pub fn download_bundle_tools(os: &str, arch: &str) -> (r: Result<DownloadPlan, String>)
    ensures
        match yt_dlp_url(os@, arch@) {
            None => r is Err && r->Err_0@ == unsupported_platform(os@, arch@),
            Some(address) => {
                &&& r is Ok
                &&& r->Ok_0.yt_dlp.url@ == address
                &&& r->Ok_0.yt_dlp.file_name@ == yt_dlp_file(os@)
                &&& match ffmpeg_url(os@, arch@) {
                    None => r->Ok_0.ffmpeg is Err && r->Ok_0.ffmpeg->Err_0@ == unsupported_platform(
                        os@,
                        arch@,
                    ),
                    Some(archive) => {
                        &&& r->Ok_0.ffmpeg is Ok
                        &&& r->Ok_0.ffmpeg->Ok_0.download.url@ == archive
                        &&& r->Ok_0.ffmpeg->Ok_0.download.file_name@ == ffmpeg_archive(os@, arch@)
                        &&& r->Ok_0.ffmpeg->Ok_0.kind == ffmpeg_archive_kind(os@)
                    },
                }
            },
        },
{
    let yt_dlp = match get_yt_dlp_download_url(os, arch) {
        Ok(url) => Download { url, file_name: String::from_str(yt_dlp_file_name(os)) },
        Err(message) => {
            return Err(message);
        },
    };
    let ffmpeg = match get_ffmpeg_download_url(os, arch) {
        Ok(url) => {
            let kind = if str_eq(os, "windows") {
                ArchiveKind::Zip
            } else {
                ArchiveKind::TarXz
            };
            Ok(
                ArchiveDownload {
                    download: Download {
                        url,
                        file_name: String::from_str(ffmpeg_archive_name(os, arch)),
                    },
                    kind,
                },
            )
        },
        Err(message) => Err(message),
    };
    Ok(DownloadPlan { yt_dlp, ffmpeg })
}

} // verus!

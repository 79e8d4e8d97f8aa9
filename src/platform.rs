use vstd::prelude::*;
use vstd::utf8::encode_utf8;

use crate::error::ProvisionError;

verus! {

/// Which build of the native library an archive carries.
#[derive(Debug, Clone, Copy, PartialEq, Eq, Structural, Hash, PartialOrd, Ord)]
pub enum OptLevel {
    Debug,
    Release,
}

/// The operating system an archive is built for.
#[derive(Debug, Clone, Copy, PartialEq, Eq, Structural, Hash, PartialOrd, Ord)]
pub enum Platform {
    Windows,
    Linux,
    MacOS,
}

/// Where the distribution archives are served from.
pub const ARCHIVE_BASE_URL: &'static str = "http://opensource.spotify.com/cefbuilds/";

impl Platform {
    /// The token that names this platform in an archive file name.
    pub open spec fn token(self) -> Seq<char> {
        match self {
            Platform::Windows => "windows"@,
            Platform::Linux => "linux"@,
            Platform::MacOS => "macosx"@,
        }
    }

    pub fn str(self) -> (r: &'static str)
        ensures
            r@ == self.token(),
    {
        match self {
            Platform::Windows => "windows",
            Platform::Linux => "linux",
            Platform::MacOS => "macosx",
        }
    }
}

impl OptLevel {
    /// The directory of the archive that holds this build's binaries.
    pub open spec fn dir(self) -> Seq<char> {
        match self {
            OptLevel::Debug => "Debug"@,
            OptLevel::Release => "Release"@,
        }
    }

    pub fn dir_name(self) -> (r: &'static str)
        ensures
            r@ == self.dir(),
    {
        match self {
            OptLevel::Debug => "Debug",
            OptLevel::Release => "Release",
        }
    }
}

/// The operating-system names a build target reports, and the platform each stands for.
pub open spec fn platform_of_target(os: Seq<char>) -> Option<Platform> {
    if os == "windows"@ {
        Some(Platform::Windows)
    } else if os == "linux"@ {
        Some(Platform::Linux)
    } else if os == "macos"@ {
        Some(Platform::MacOS)
    } else {
        None
    }
}

/// Maps a build target's operating-system name to its platform, before any I/O.
pub fn platform_for_target(os: &str) -> (r: Result<Platform, ProvisionError>)
    ensures
        platform_of_target(os@) matches Some(p) ==> r == Ok::<Platform, ProvisionError>(p),
        platform_of_target(os@) is None ==> (r matches Err(ProvisionError::PlatformUnsupported { token }) && token@ == os@),
{
    let given = String::from_str(os);
    if given == String::from_str("windows") {
        Ok(Platform::Windows)
    } else if given == String::from_str("linux") {
        Ok(Platform::Linux)
    } else if given == String::from_str("macos") {
        Ok(Platform::MacOS)
    } else {
        Err(ProvisionError::PlatformUnsupported { token: given })
    }
}

/// The file name of the archive for `version` on `platform`.
pub open spec fn archive_name(version: Seq<char>, platform: Platform) -> Seq<char> {
    "cef_binary_"@ + version + "_"@ + platform.token() + "64.tar.bz2"@
}

pub fn archive_file_name(version: &str, platform: Platform) -> (r: String)
    ensures
        r@ == archive_name(version@, platform),
{
    let mut name = String::from_str("cef_binary_");
    name.append(version);
    name.append("_");
    name.append(platform.str());
    name.append("64.tar.bz2");
    name
}

/// Bytes that percent-encoding leaves as they are.
pub open spec fn is_unreserved(b: u8) -> bool {
    (48 <= b <= 57) || (65 <= b <= 90) || (97 <= b <= 122) || b == 45 || b == 46 || b == 95
        || b == 126
}

/// The upper-case hex digit for a value below 16.
pub open spec fn hex_digit(d: u8) -> char {
    if d < 10 {
        (d + 48) as u8 as char
    } else {
        (d + 55) as u8 as char
    }
}

/// Percent-encoding of a byte string.
pub open spec fn percent_encoded(bytes: Seq<u8>) -> Seq<char>
    decreases bytes.len(),
{
    if bytes.len() == 0 {
        seq![]
    } else {
        let b = bytes[0];
        (if is_unreserved(b) {
            seq![b as char]
        } else {
            seq!['%', hex_digit(b >> 4), hex_digit(b & 15)]
        }) + percent_encoded(bytes.drop_first())
    }
}

/// Relies on urlencoding::encode: each byte of the UTF-8 form of `s` is kept
/// when it is an ASCII letter or digit or one of `-._~`, and is written as `%`
/// followed by two upper-case hex digits otherwise.
#[verifier::external_body]
fn url_encode(s: &str) -> (r: String)
    ensures
        r@ == percent_encoded(encode_utf8(s@)),
{
    urlencoding::encode(s).into_owned()
}

/// Where the archive named `file_name` is fetched from.
pub open spec fn locator(file_name: Seq<char>) -> Seq<char> {
    ARCHIVE_BASE_URL@ + percent_encoded(encode_utf8(file_name))
}

pub fn archive_url(file_name: &str) -> (r: String)
    ensures
        r@ == locator(file_name@),
{
    let mut url = String::from_str(ARCHIVE_BASE_URL);
    let encoded = url_encode(file_name);
    url.append(encoded.as_str());
    url
}

/// Whether an answer of the archive server with `status` delivers the archive.
pub fn check_response_status(status: u16) -> (r: Result<(), ProvisionError>)
    ensures
        status == 200 ==> r is Ok,
        status != 200 ==> r == Err::<(), ProvisionError>(ProvisionError::Transport { status }),
{
    if status == 200 {
        Ok(())
    } else {
        Err(ProvisionError::Transport { status })
    }
}

} // verus!

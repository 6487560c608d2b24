//! Image-name hygiene: platform names, docker-compatible name sanitizing,
//! and devcontainer image naming.

use vstd::prelude::*;
use vstd::string::StrSliceExecFns;
use vstd::string::StringExecFns;
use vstd::string::StringSliceAdditionalSpecFns;

verus! {

/// ASCII code points used by the sanitizer.
pub const UPPER_A: u8 = 65;

pub const UPPER_Z: u8 = 90;

pub const LOWER_A: u8 = 97;

pub const LOWER_Z: u8 = 122;

pub const DIGIT_0: u8 = 48;

pub const DIGIT_9: u8 = 57;

pub const DOT: u8 = 46;

pub const UNDERSCORE: u8 = 95;

pub const HYPHEN: u8 = 45;

/// One byte of a name made docker-compatible: ASCII upper case folds to
/// lower case, lower-case letters, digits, dots, underscores and hyphens
/// pass through, and every other byte becomes a hyphen.
pub open spec fn spec_sanitize_byte(b: u8) -> u8 {
    if UPPER_A <= b <= UPPER_Z {
        (b + 32) as u8
    } else if LOWER_A <= b <= LOWER_Z || DIGIT_0 <= b <= DIGIT_9 || b == DOT || b == UNDERSCORE
        || b == HYPHEN {
        b
    } else {
        HYPHEN
    }
}

/// A whole name sanitized, one output character per input byte.
pub open spec fn spec_sanitized_name(bytes: Seq<u8>) -> Seq<char> {
    Seq::new(bytes.len(), |i: int| spec_sanitize_byte(bytes[i]) as char)
}

/// The image name built for a devcontainer: the sanitized base name,
/// `-devcontainer:`, and the configured version (or `latest`).
pub open spec fn spec_image_name(base: Seq<u8>, version: Option<Seq<char>>) -> Seq<char> {
    spec_sanitized_name(base) + "-devcontainer:"@ + (match version {
        Some(v) => v,
        None => "latest"@,
    })
}

/// Relies on String::from_utf8: a buffer of ASCII bytes (all below 128)
/// decodes to a string of exactly one char per byte, with the same code
/// points.
#[verifier::external_body]
fn ascii_string(bytes: Vec<u8>) -> (s: String)
    requires
        forall|i: int| 0 <= i < bytes@.len() ==> bytes@[i] < 128,
    ensures
        s@.len() == bytes@.len(),
        forall|i: int| 0 <= i < bytes@.len() ==> #[trigger] s@[i] == bytes@[i] as char,
{
    String::from_utf8(bytes).unwrap_or_default()
}

fn sanitize_byte(b: u8) -> (r: u8)
    ensures
        r == spec_sanitize_byte(b),
        r < 128,
{
    if UPPER_A <= b && b <= UPPER_Z {
        b + 32
    } else if (LOWER_A <= b && b <= LOWER_Z) || (DIGIT_0 <= b && b <= DIGIT_9) || b == DOT || b
        == UNDERSCORE || b == HYPHEN {
        b
    } else {
        HYPHEN
    }
}

/// Make a name docker-compatible: lower case, with anything outside
/// lower-case letters, digits, dots, underscores and hyphens replaced by a
/// hyphen. The folding is byte-wise, so each byte of a multi-byte character
/// becomes one hyphen.
pub fn sanitize_docker_name(name: &str) -> (sanitized: String)
    ensures
        sanitized@ == spec_sanitized_name(name.spec_bytes()),
{
    let bytes = name.as_bytes_vec();
    let mut out: Vec<u8> = Vec::new();
    let mut i: usize = 0;
    while i < bytes.len()
        invariant
            bytes@ == name.spec_bytes(),
            i <= bytes@.len(),
            out@.len() == i,
            forall|j: int|
                0 <= j < i ==> #[trigger] out@[j] == spec_sanitize_byte(bytes@[j]) && out@[j]
                    < 128,
        decreases bytes@.len() - i,
    {
        let b = bytes[i];
        out.push(sanitize_byte(b));
        i = i + 1;
    }
    let sanitized = ascii_string(out);
    proof {
        assert(sanitized@ =~= spec_sanitized_name(name.spec_bytes()));
    }
    sanitized
}

/// Image name for a devcontainer build: the configured name when there is
/// one (the directory name otherwise), sanitized, then `-devcontainer:` and
/// the configured version (or `latest`).
pub fn generate_image_name(config_name: Option<&str>, dir_name: &str, version: Option<&str>) -> (image:
    String)
    ensures
        image@ == spec_image_name(
            match config_name {
                Some(n) => n.spec_bytes(),
                None => dir_name.spec_bytes(),
            },
            match version {
                Some(v) => Some(v@),
                None => None,
            },
        ),
{
    let base = match config_name {
        Some(n) => n,
        None => dir_name,
    };
    let mut image = sanitize_docker_name(base);
    image.append("-devcontainer:");
    match version {
        Some(v) => image.append(v),
        None => image.append("latest"),
    }
    image
}

fn bytes_eq(a: &Vec<u8>, b: &Vec<u8>) -> (eq: bool)
    ensures
        eq == (a@ == b@),
{
    if a.len() != b.len() {
        return false;
    }
    let mut i: usize = 0;
    while i < a.len()
        invariant
            a@.len() == b@.len(),
            i <= a@.len(),
            forall|j: int| 0 <= j < i ==> a@[j] == b@[j],
        decreases a@.len() - i,
    {
        if a[i] != b[i] {
            return false;
        }
        i = i + 1;
    }
    proof {
        assert(a@ =~= b@);
    }
    true
}

/// The platform label for a target operating system name: `windows` stays
/// `windows`, `macos` maps to `darwin`, and anything else is taken as
/// `linux`.
pub fn get_platform(target_os: &str) -> (platform: String)
    ensures
        target_os.spec_bytes() == "windows".spec_bytes() ==> platform@ == "windows"@,
        target_os.spec_bytes() != "windows".spec_bytes() && target_os.spec_bytes()
            == "macos".spec_bytes() ==> platform@ == "darwin"@,
        target_os.spec_bytes() != "windows".spec_bytes() && target_os.spec_bytes()
            != "macos".spec_bytes() ==> platform@ == "linux"@,
{
    let os_bytes = target_os.as_bytes_vec();
    if bytes_eq(&os_bytes, &"windows".as_bytes_vec()) {
        "windows".to_owned()
    } else if bytes_eq(&os_bytes, &"macos".as_bytes_vec()) {
        "darwin".to_owned()
    } else {
        "linux".to_owned()
    }
}

} // verus!

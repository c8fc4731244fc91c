//! The frame configuration: canvas size, padding, output directory, output
//! format and border color, with the lenient two-phase parsing of the
//! cosmetic fields (bad values fall back to a default, reported to the
//! caller so it can warn).

use vstd::prelude::*;

use crate::color::{parse_color, spec_color_of, spec_color_valid, spec_white, Color};

verus! {

/// The encoding the output file is written in. `Jpg` and `Jpeg` name the
/// same encoding and differ only in the file extension they produce.
#[derive(Clone, Copy, Debug, PartialEq, Eq, Structural)]
pub enum OutputFormat {
    Png,
    Jpg,
    Jpeg,
    Gif,
    Webp,
    Tiff,
}

/// The immutable per-run configuration.
#[derive(Clone, Debug)]
pub struct Config {
    /// Margin in pixels on the long axis of the placed image.
    pub padding: u32,
    /// Edge length of the square output canvas; must exceed `2 * padding`
    /// for a run to be accepted.
    pub size: u32,
    /// Output directory, normalized to end with a path separator.
    pub outdir: String,
    /// Encoding of the output file.
    pub format: OutputFormat,
    /// Border color filling the canvas around the image.
    pub color: Color,
}

/// ASCII lowercase of one character; other characters are unchanged.
pub open spec fn spec_lower_char(c: char) -> char {
    if 'A' <= c && c <= 'Z' {
        (((c as u32) + 32) as u8) as char
    } else {
        c
    }
}

/// ASCII lowercase of a character sequence.
pub open spec fn spec_lower(s: Seq<char>) -> Seq<char> {
    s.map_values(|c: char| spec_lower_char(c))
}

/// The format named by a string, compared case-insensitively; `None` for a
/// string outside the recognized set.
pub open spec fn spec_format_of(s: Seq<char>) -> Option<OutputFormat> {
    if spec_lower(s) == "png"@ {
        Some(OutputFormat::Png)
    } else if spec_lower(s) == "jpg"@ {
        Some(OutputFormat::Jpg)
    } else if spec_lower(s) == "jpeg"@ {
        Some(OutputFormat::Jpeg)
    } else if spec_lower(s) == "gif"@ {
        Some(OutputFormat::Gif)
    } else if spec_lower(s) == "webp"@ {
        Some(OutputFormat::Webp)
    } else if spec_lower(s) == "tiff"@ {
        Some(OutputFormat::Tiff)
    } else {
        None
    }
}

/// The file extension written for each format.
pub open spec fn spec_ext(f: OutputFormat) -> Seq<char> {
    match f {
        OutputFormat::Png => "png"@,
        OutputFormat::Jpg => "jpg"@,
        OutputFormat::Jpeg => "jpeg"@,
        OutputFormat::Gif => "gif"@,
        OutputFormat::Webp => "webp"@,
        OutputFormat::Tiff => "tiff"@,
    }
}

/// A directory string with a trailing separator: unchanged if it already
/// ends with `/`, otherwise with `/` appended.
pub open spec fn spec_normalized_outdir(s: Seq<char>) -> Seq<char> {
    if s.len() > 0 && s[s.len() - 1] == '/' {
        s
    } else {
        s.push('/')
    }
}

impl OutputFormat {
    /// The file extension this format writes.
    pub fn ext(self) -> (r: &'static str)
        ensures
            r@ == spec_ext(self),
    {
        match self {
            OutputFormat::Png => "png",
            OutputFormat::Jpg => "jpg",
            OutputFormat::Jpeg => "jpeg",
            OutputFormat::Gif => "gif",
            OutputFormat::Webp => "webp",
            OutputFormat::Tiff => "tiff",
        }
    }
}

/// ASCII lowercase of one character.
fn lower_char(c: char) -> (r: char)
    ensures
        r == spec_lower_char(c),
{
    if 'A' <= c && c <= 'Z' {
        (((c as u32) + 32) as u8) as char
    } else {
        c
    }
}

/// Whether the ASCII lowercase of `s` equals `lit`.
fn eq_lower(s: &str, lit: &str) -> (b: bool)
    ensures
        b == (spec_lower(s@) == lit@),
{
    let n = s.unicode_len();
    if n != lit.unicode_len() {
        assert(spec_lower(s@).len() == s@.len());
        return false;
    }
    let mut i: usize = 0;
    while i < n
        invariant
            n == s@.len(),
            n == lit@.len(),
            i <= n,
            forall|j: int| 0 <= j < i ==> spec_lower(s@)[j] == lit@[j],
        decreases n - i,
    {
        if lower_char(s.get_char(i)) != lit.get_char(i) {
            assert(spec_lower(s@)[i as int] != lit@[i as int]);
            return false;
        }
        i += 1;
    }
    proof {
        assert(spec_lower(s@) =~= lit@);
    }
    true
}

/// Parse an output format name, case-insensitively.
///
/// An unrecognized name is not an error: the result falls back to `Jpg`,
/// and the second component reports whether the name was recognized.
pub fn parse_format(s: &str) -> (res: (OutputFormat, bool))
    ensures
        res.1 == (spec_format_of(s@) is Some),
        res.1 ==> Some(res.0) == spec_format_of(s@),
        !res.1 ==> res.0 == OutputFormat::Jpg,
{
    if eq_lower(s, "png") {
        (OutputFormat::Png, true)
    } else if eq_lower(s, "jpg") {
        (OutputFormat::Jpg, true)
    } else if eq_lower(s, "jpeg") {
        (OutputFormat::Jpeg, true)
    } else if eq_lower(s, "gif") {
        (OutputFormat::Gif, true)
    } else if eq_lower(s, "webp") {
        (OutputFormat::Webp, true)
    } else if eq_lower(s, "tiff") {
        (OutputFormat::Tiff, true)
    } else {
        (OutputFormat::Jpg, false)
    }
}

/// Append a trailing path separator to a directory string that lacks one.
pub fn normalize_outdir(s: &str) -> (r: String)
    ensures
        r@ == spec_normalized_outdir(s@),
{
    let n = s.unicode_len();
    if n > 0 && s.get_char(n - 1) == '/' {
        s.to_owned()
    } else {
        let mut r = s.to_owned();
        r.append("/");
        proof {
            reveal_strlit("/");
            assert(r@ =~= s@.push('/'));
        }
        r
    }
}

/// Build the configuration from the raw option values: the cosmetic fields
/// (format, color) never fail, they fall back to their defaults instead.
/// The two flags report whether the format and the color were well formed,
/// so the caller can warn about a fallback.
pub fn build_config(padding: u32, size: u32, outdir: &str, format: &str, color: &str) -> (r: (
    Config,
    bool,
    bool,
))
    ensures
        r.0.padding == padding,
        r.0.size == size,
        r.0.outdir@ == spec_normalized_outdir(outdir@),
        r.1 == (spec_format_of(format@) is Some),
        r.1 ==> Some(r.0.format) == spec_format_of(format@),
        !r.1 ==> r.0.format == OutputFormat::Jpg,
        r.2 == spec_color_valid(color@),
        r.2 ==> r.0.color == spec_color_of(color@),
        !r.2 ==> r.0.color == spec_white(),
{
    let (fmt, fmt_ok) = parse_format(format);
    let (col, col_ok) = parse_color(color);
    let cfg = Config {
        padding,
        size,
        outdir: normalize_outdir(outdir),
        format: fmt,
        color: col,
    };
    (cfg, fmt_ok, col_ok)
}

} // verus!

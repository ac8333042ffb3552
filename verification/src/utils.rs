//! Default output locations and generated file names.

use vstd::prelude::*;

use crate::model::{extension_of, ImageFormat};
use crate::paths::{answered, path_join, path_join_of};
use crate::text::{concat3, push_zero_padded, zero_padded};

verus! {

/// The `Pictures` directory under a home directory.
pub open spec fn pictures_dir_of(home: Seq<char>) -> Seq<char> {
    path_join_of(home, "Pictures"@)
}

/// Chooses the preferred screenshot directory: `$HOME/Pictures` when it is a
/// directory, else `$HOME`; without a home directory, the current directory,
/// or `.` when that is unknown.
pub fn default_output_dir<F: Fn(&str) -> bool>(
    home: Option<String>,
    is_dir: &F,
    current_dir: Option<String>,
) -> (r: String)
    requires
        forall|s: &str| call_requires(*is_dir, (s,)),
    ensures
        match home {
            Some(h) => {
                ||| r@ == pictures_dir_of(h@) && answered(*is_dir, pictures_dir_of(h@), true)
                ||| r@ == h@ && answered(*is_dir, pictures_dir_of(h@), false)
            },
            None => r@ == match current_dir {
                Some(c) => c@,
                None => "."@,
            },
        },
{
    match home {
        Some(home) => {
            let pictures = path_join(home.as_str(), "Pictures");
            proof {
                reveal_strlit("Pictures");
            }
            if is_dir(pictures.as_str()) {
                return pictures;
            }
            home
        },
        None => match current_dir {
            Some(dir) => dir,
            None => String::from_str("."),
        },
    }
}

/// A year as written in a timestamp: four digits with leading zeros, after a
/// minus sign for years before year zero.
pub open spec fn year_text(year: i32) -> Seq<char> {
    if year < 0 {
        "-"@ + zero_padded((-year) as nat, 4)
    } else {
        zero_padded(year as nat, 4)
    }
}

/// The `YYYYMMDD-HHMMSS` text of a date and time, each field with leading
/// zeros (two digits for all but the year).
pub open spec fn timestamp_spec(year: i32, month: u8, day: u8, hour: u8, minute: u8, second: u8) -> Seq<
    char,
> {
    year_text(year) + zero_padded(month as nat, 2) + zero_padded(day as nat, 2) + "-"@ + zero_padded(
        hour as nat,
        2,
    ) + zero_padded(minute as nat, 2) + zero_padded(second as nat, 2)
}

/// Writes a date and time as `YYYYMMDD-HHMMSS`, the timestamp of generated
/// file names.
pub fn timestamp_text(year: i32, month: u8, day: u8, hour: u8, minute: u8, second: u8) -> (r: String)
    ensures
        r@ == timestamp_spec(year, month, day, hour, minute, second),
{
    let mut s = String::new();
    if year < 0 {
        s.append("-");
        let magnitude: u64 = (0i64 - year as i64) as u64;
        push_zero_padded(&mut s, magnitude, 4);
    } else {
        push_zero_padded(&mut s, year as u64, 4);
    }
    push_zero_padded(&mut s, month as u64, 2);
    push_zero_padded(&mut s, day as u64, 2);
    s.append("-");
    push_zero_padded(&mut s, hour as u64, 2);
    push_zero_padded(&mut s, minute as u64, 2);
    push_zero_padded(&mut s, second as u64, 2);
    proof {
        reveal_strlit("-");
        assert(s@ =~= timestamp_spec(year, month, day, hour, minute, second));
    }
    s
}

/// The timestamp text used in a generated file name, or `unknown-time`.
pub open spec fn timestamp_or_unknown(timestamp: Option<String>) -> Seq<char> {
    match timestamp {
        Some(t) => t@,
        None => "unknown-time"@,
    }
}

/// The generated file name `screencap-{timestamp}.{extension}`.
pub open spec fn default_filename_of(format: ImageFormat, timestamp: Option<String>) -> Seq<char> {
    "screencap-"@ + timestamp_or_unknown(timestamp) + "."@ + extension_of(format)
}

/// Returns the timestamped default file name for an encoded image format;
/// a timestamp that could not be produced is written `unknown-time`.
pub fn default_filename(format: ImageFormat, timestamp: Option<String>) -> (r: String)
    ensures
        r@ == default_filename_of(format, timestamp),
{
    let stamp = match &timestamp {
        Some(t) => t.as_str(),
        None => "unknown-time",
    };
    let mut name = concat3("screencap-", stamp, ".");
    name.append(format.file_extension());
    name
}

/// The output path: the one given, or the fallback name inside `output_dir`.
pub open spec fn output_path_of(output: Option<String>, output_dir: Seq<char>, fallback_name: Seq<char>) -> Seq<
    char,
> {
    match output {
        Some(path) => path@,
        None => path_join_of(output_dir, fallback_name),
    }
}

/// Builds an output path from an optional user-provided path or a generated
/// file name inside the preferred directory.
pub fn build_output_path(output: Option<String>, output_dir: &str, fallback_name: String) -> (r:
    String)
    ensures
        r@ == output_path_of(output, output_dir@, fallback_name@),
{
    match output {
        Some(path) => path,
        None => path_join(output_dir, fallback_name.as_str()),
    }
}

/// Builds the default PNG output path inside the preferred directory.
pub fn default_output_path(output_dir: &str, timestamp: Option<String>) -> (r: String)
    ensures
        r@ == path_join_of(output_dir@, default_filename_of(ImageFormat::Png, timestamp)),
{
    build_output_path(None, output_dir, default_filename(ImageFormat::Png, timestamp))
}

} // verus!

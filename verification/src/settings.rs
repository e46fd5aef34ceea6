//! The persisted settings and the request that saves a screenshot.

use vstd::prelude::*;
use vstd::string::StringExecFns;
use crate::style::{output_format_of, parse_output_format, OutputFormat, TimestampOptions};

verus! {

/// What the save dialog sends: the file name without extension, the
/// timestamp style and the format name.
#[derive(Clone, Debug)]
pub struct SaveData {
    pub filename: String,
    pub timestamp_options: TimestampOptions,
    pub image_format: String,
}

/// All settings of the application.
#[derive(Clone, Debug)]
pub struct AllSettings {
    pub save_path: String,
    pub auto_start: bool,
    pub image_format: String,
    pub windows_prtscr_disabled: bool,
    pub timestamp_options: TimestampOptions,
}

/// The file extension of a format name: `png` for `png`, `jpg` otherwise.
pub open spec fn extension_of(image_format: Seq<char>) -> Seq<char> {
    if output_format_of(image_format) == OutputFormat::Png {
        "png"@
    } else {
        "jpg"@
    }
}

/// The file extension of a format name.
pub fn file_extension(image_format: &str) -> (r: &'static str)
    ensures
        r@ == extension_of(image_format@),
{
    match parse_output_format(image_format) {
        OutputFormat::Png => "png",
        OutputFormat::Jpeg => "jpg",
    }
}

impl SaveData {
    /// The name of the file to write: the given name, a dot and the
    /// extension of the format.
    pub open spec fn file_name_spec(&self) -> Seq<char> {
        self.filename@ + "."@ + extension_of(self.image_format@)
    }

    /// The name of the file to write.
    pub fn file_name(&self) -> (r: String)
        ensures
            r@ == self.file_name_spec(),
    {
        let mut name = self.filename.clone();
        name.append(".");
        name.append(file_extension(self.image_format.as_str()));
        name
    }
}

/// Puts the settings together from what the store holds, with the default
/// for each value that it lacks: the default folder, no autostart, JPEG,
/// the print-screen key left to the system, and the default style.
pub fn resolve_settings(
    stored_path: Option<String>,
    default_path: String,
    auto_start: Option<bool>,
    stored_format: Option<String>,
    prtscr_disabled: Option<bool>,
    stored_options: Option<TimestampOptions>,
    default_options: TimestampOptions,
) -> (r: AllSettings)
    ensures
        r.save_path == (match stored_path {
            Some(path) => path,
            None => default_path,
        }),
        r.auto_start == (match auto_start {
            Some(enabled) => enabled,
            None => false,
        }),
        match stored_format {
            Some(format) => r.image_format == format,
            None => r.image_format@ == "jpg"@,
        },
        r.windows_prtscr_disabled == (match prtscr_disabled {
            Some(disabled) => disabled,
            None => false,
        }),
        r.timestamp_options == (match stored_options {
            Some(options) => options,
            None => default_options,
        }),
{
    AllSettings {
        save_path: match stored_path {
            Some(path) => path,
            None => default_path,
        },
        auto_start: match auto_start {
            Some(enabled) => enabled,
            None => false,
        },
        image_format: match stored_format {
            Some(format) => format,
            None => "jpg".to_owned(),
        },
        windows_prtscr_disabled: match prtscr_disabled {
            Some(disabled) => disabled,
            None => false,
        },
        timestamp_options: match stored_options {
            Some(options) => options,
            None => default_options,
        },
    }
}

} // verus!

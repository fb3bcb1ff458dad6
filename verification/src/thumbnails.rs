//! Thumbnails that go along with an upload.

use vstd::prelude::*;

use crate::errors::{refusal, FailureText, UploadedImageError};
use crate::local_files::{no_file_name, require_file_name, LocalPath};
use crate::mimetypes::{
    family_problem, media_type, of_family, parse_image_mimetype, read_from, MediaType,
};
use crate::numbers::{countable, uint_problem, validate_positive_uint};
use crate::uploaded::{
    bad_number_is_named, bad_type_is_named, either, refused_as, UploadedThumbnailInfo,
};

verus! {

/// What a client says of a thumbnail.
#[derive(Debug)]
pub struct ThumbnailInput {
    pub file: Option<LocalPath>,
    pub mimetype: Option<String>,
    pub size: Option<u64>,
    pub width: Option<u64>,
    pub height: Option<u64>,
}

/// A thumbnail that is described well enough to be read.
#[derive(Debug)]
pub struct ThumbnailPlan {
    pub path: String,
    /// The media type as the client wrote it.
    pub mimetype_text: String,
    pub mimetype: MediaType,
    pub size: u64,
    pub width: u64,
    pub height: u64,
}

/// A thumbnail that was read.
#[derive(Debug)]
pub struct LocalThumbnail {
    pub data: Vec<u8>,
    /// The media type as the client wrote it.
    pub mimetype_text: String,
    pub mimetype: MediaType,
    pub size: u64,
    pub width: u64,
    pub height: u64,
}

/// What is wrong with the description of a thumbnail that has a file.
pub open spec fn description_problem(input: ThumbnailInput, file: LocalPath) -> Option<FailureText> {
    match (input.mimetype, input.size, input.width, input.height) {
        (None, _, _, _) => Some(
            refusal("thumbnail_mimetype is required with thumbnail_file_path"@),
        ),
        (_, None, _, _) => Some(refusal("thumbnail_size is required with thumbnail_file_path"@)),
        (_, _, None, _) => Some(refusal("thumbnail_width is required with thumbnail_file_path"@)),
        (_, _, _, None) => Some(refusal("thumbnail_height is required with thumbnail_file_path"@)),
        (Some(mimetype), Some(size), Some(width), Some(height)) => either(
            family_problem(mimetype@, "thumbnail_mimetype"@, "image"@),
            either(
                uint_problem(size, "thumbnail_size"@),
                either(
                    uint_problem(width, "thumbnail_width"@),
                    either(
                        uint_problem(height, "thumbnail_height"@),
                        if file.file_name is None {
                            Some(no_file_name("thumbnail_file_path"@))
                        } else {
                            None
                        },
                    ),
                ),
            ),
        ),
    }
}

/// What is wrong with what a client says of a thumbnail: it must say all of it, or nothing.
pub open spec fn thumbnail_input_problem(input: ThumbnailInput) -> Option<FailureText> {
    match input.file {
        None => if input.mimetype is Some || input.size is Some || input.width is Some
            || input.height is Some {
            Some(refusal("thumbnail metadata was provided without thumbnail_file_path"@))
        } else {
            None
        },
        Some(file) => description_problem(input, file),
    }
}

impl ThumbnailPlan {
    /// The plan says what the client said.
    pub open spec fn follows(self, input: ThumbnailInput) -> bool {
        &&& input.file matches Some(file) && file.path == self.path
        &&& input.mimetype == Some(self.mimetype_text)
        &&& input.size == Some(self.size)
        &&& input.width == Some(self.width)
        &&& input.height == Some(self.height)
        &&& self.sound()
    }

    /// The media type is that of an image, and the numbers fit the protocol.
    pub open spec fn sound(self) -> bool {
        sound_thumbnail(self.mimetype_text, self.mimetype, self.size, self.width, self.height)
    }

    /// The thumbnail, once its bytes are there.
    pub open spec fn with_data(self, data: Vec<u8>) -> LocalThumbnail {
        LocalThumbnail {
            data,
            mimetype_text: self.mimetype_text,
            mimetype: self.mimetype,
            size: self.size,
            width: self.width,
            height: self.height,
        }
    }

    /// Adds the bytes.
    pub fn fill(self, data: Vec<u8>) -> (r: LocalThumbnail)
        ensures
            r == self.with_data(data),
    {
        LocalThumbnail {
            data,
            mimetype_text: self.mimetype_text,
            mimetype: self.mimetype,
            size: self.size,
            width: self.width,
            height: self.height,
        }
    }
}

/// A described thumbnail whose media type is that of an image and whose numbers fit the protocol.
pub open spec fn sound_thumbnail(
    mimetype_text: String,
    mimetype: MediaType,
    size: u64,
    width: u64,
    height: u64,
) -> bool {
    &&& read_from(mimetype, mimetype_text@)
    &&& mimetype.family@ == "image"@
    &&& uint_problem(size, "thumbnail_size"@) is None
    &&& uint_problem(width, "thumbnail_width"@) is None
    &&& uint_problem(height, "thumbnail_height"@) is None
}

impl LocalThumbnail {
    /// The media type is that of an image, and the numbers fit the protocol.
    pub open spec fn sound(self) -> bool {
        sound_thumbnail(self.mimetype_text, self.mimetype, self.size, self.width, self.height)
    }

    /// How the record of the upload describes the thumbnail.
    pub open spec fn described(self) -> UploadedThumbnailInfo {
        UploadedThumbnailInfo {
            mimetype: self.mimetype.essence,
            size: self.size,
            width: self.width,
            height: self.height,
        }
    }
}

fn missing(msg: &str) -> (r: UploadedImageError)
    ensures
        r@ == refusal(msg@),
{
    UploadedImageError::validation(msg.to_owned(), None)
}

/// Decides whether there is a thumbnail to read, and checks what the client says of it.
pub fn plan_thumbnail(input: ThumbnailInput) -> (r: Result<
    Option<ThumbnailPlan>,
    UploadedImageError,
>)
    ensures
        match r {
            Ok(plan) => {
                &&& thumbnail_input_problem(input) is None
                &&& match plan {
                    Some(plan) => plan.follows(input),
                    None => input.file is None,
                }
            },
            Err(error) => thumbnail_input_problem(input) == Some(error@),
        },
{
    let file = match input.file {
        Some(file) => file,
        None => {
            if input.mimetype.is_some() || input.size.is_some() || input.width.is_some()
                || input.height.is_some() {
                return Err(missing("thumbnail metadata was provided without thumbnail_file_path"));
            }
            return Ok(None);
        },
    };
    let mimetype_text = match input.mimetype {
        Some(mimetype) => mimetype,
        None => return Err(missing("thumbnail_mimetype is required with thumbnail_file_path")),
    };
    let size: u64 = match input.size {
        Some(size) => size,
        None => return Err(missing("thumbnail_size is required with thumbnail_file_path")),
    };
    let width: u64 = match input.width {
        Some(width) => width,
        None => return Err(missing("thumbnail_width is required with thumbnail_file_path")),
    };
    let height: u64 = match input.height {
        Some(height) => height,
        None => return Err(missing("thumbnail_height is required with thumbnail_file_path")),
    };
    let mimetype = parse_image_mimetype(mimetype_text.as_str(), "thumbnail_mimetype")?;
    validate_positive_uint(size, "thumbnail_size")?;
    validate_positive_uint(width, "thumbnail_width")?;
    validate_positive_uint(height, "thumbnail_height")?;
    require_file_name(file.file_name, "thumbnail_file_path")?;
    Ok(Some(ThumbnailPlan { path: file.path, mimetype_text, mimetype, size, width, height }))
}

/// A client says all of a thumbnail or nothing: there is none exactly if nothing is said of it, and
/// one to read exactly if its file has a name, its media type is that of an image, and its size and
/// its measures are numbers that the protocol carries. What is planned is what was said.
pub proof fn law_thumbnail_is_described_wholly_or_not_at_all(
    input: ThumbnailInput,
    planned: Result<Option<ThumbnailPlan>, UploadedImageError>,
)
    requires
        call_ensures(plan_thumbnail, (input,), planned),
    ensures
        planned matches Ok(None) <==> {
            &&& input.file is None
            &&& input.mimetype is None
            &&& input.size is None
            &&& input.width is None
            &&& input.height is None
        },
        planned matches Ok(Some(_)) <==> {
            &&& input.file matches Some(file) && file.file_name is Some
            &&& input.mimetype matches Some(mimetype) && media_type(mimetype@) matches Ok(parsed)
                && parsed.family == "image"@
            &&& input.size matches Some(size) && 1 <= size <= 0x1F_FFFF_FFFF_FFFF
            &&& input.width matches Some(width) && 1 <= width <= 0x1F_FFFF_FFFF_FFFF
            &&& input.height matches Some(height) && 1 <= height <= 0x1F_FFFF_FFFF_FFFF
        },
        planned matches Ok(Some(plan)) ==> {
            &&& input.file matches Some(file) && plan.path == file.path
            &&& input.mimetype == Some(plan.mimetype_text)
            &&& input.size == Some(plan.size)
            &&& input.width == Some(plan.width)
            &&& input.height == Some(plan.height)
        },
{
}

/// Of a thumbnail whose file is named, the first thing that is missing is named.
pub proof fn law_missing_thumbnail_metadata_is_named(
    input: ThumbnailInput,
    planned: Result<Option<ThumbnailPlan>, UploadedImageError>,
)
    requires
        call_ensures(plan_thumbnail, (input,), planned),
        input.file is None ==> input.mimetype is Some || input.size is Some || input.width is Some
            || input.height is Some,
        input.file is Some ==> input.mimetype is None || input.size is None || input.width is None
            || input.height is None,
    ensures
        planned matches Err(error) && error@ == (FailureText::Validation {
            msg: if input.file is None {
                "thumbnail metadata was provided without thumbnail_file_path"@
            } else if input.mimetype is None {
                "thumbnail_mimetype is required with thumbnail_file_path"@
            } else if input.size is None {
                "thumbnail_size is required with thumbnail_file_path"@
            } else if input.width is None {
                "thumbnail_width is required with thumbnail_file_path"@
            } else {
                "thumbnail_height is required with thumbnail_file_path"@
            },
            details: None,
        }),
{
}

/// Of a thumbnail that is described wholly, the first thing that is at fault is named: its media type,
/// its size, its width, its height, or that its path has no file name.
pub proof fn law_bad_thumbnail_metadata_is_named(
    file: LocalPath,
    mimetype: String,
    size: u64,
    width: u64,
    height: u64,
    planned: Result<Option<ThumbnailPlan>, UploadedImageError>,
)
    requires
        call_ensures(
            plan_thumbnail,
            (ThumbnailInput {
                file: Some(file),
                mimetype: Some(mimetype),
                size: Some(size),
                width: Some(width),
                height: Some(height),
            },),
            planned,
        ),
    ensures
        ({
            let error = match planned {
                Ok(_) => None,
                Err(error) => Some(error@),
            };
            &&& bad_type_is_named(error, "thumbnail_mimetype"@, mimetype@, "image"@)
            &&& of_family(mimetype@, "image"@) ==> {
                &&& bad_number_is_named(error, "thumbnail_size"@, size)
                &&& countable(size) ==> {
                    &&& bad_number_is_named(error, "thumbnail_width"@, width)
                    &&& countable(width) ==> {
                        &&& bad_number_is_named(error, "thumbnail_height"@, height)
                        &&& countable(height) && file.file_name is None ==> refused_as(
                            error,
                            "thumbnail_file_path"@ + " must contain a valid UTF-8 file name"@,
                        )
                    }
                }
            }
        }),
{
}

} // verus!

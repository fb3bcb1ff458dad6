//! The picture of a room.

use vstd::prelude::*;

use crate::errors::{foreign_client_error, ClientError, ClientText, MediaInfoError, RoomError};
use crate::media::{ImageInfo, MediaSource, ThumbnailInfo};
use crate::mimetypes::{media_type, read_from, request_mimetype, MediaType};
use crate::numbers::{capped, u64_to_uint};
use crate::room::Room;

verus! {

/// The description of a room's picture.
#[derive(Debug)]
pub struct AvatarImageInfo {
    pub height: Option<u64>,
    pub width: Option<u64>,
    pub mimetype: Option<String>,
    pub size: Option<u64>,
    pub thumbnail_info: Option<ThumbnailInfo>,
    pub thumbnail_url: Option<String>,
    pub blurhash: Option<String>,
}

/// A number that may be missing, cut down to what the protocol can carry.
pub open spec fn optional_capped(value: Option<u64>) -> Option<u64> {
    match value {
        Some(value) => Some(capped(value)),
        None => None,
    }
}

fn optional_uint(value: Option<u64>) -> (r: Option<u64>)
    ensures
        r == optional_capped(value),
{
    match value {
        Some(value) => Some(u64_to_uint(value)),
        None => None,
    }
}

/// The description of an image, as that of a room's picture. The thumbnail must not be encrypted.
pub open spec fn avatar_info(value: ImageInfo) -> Result<AvatarImageInfo, MediaInfoError> {
    match value.thumbnail_source {
        Some(MediaSource::Encrypted { .. }) => Err(MediaInfoError::InvalidField),
        source => Ok(
            AvatarImageInfo {
                height: optional_capped(value.height),
                width: optional_capped(value.width),
                mimetype: value.mimetype,
                size: optional_capped(value.size),
                thumbnail_info: value.thumbnail_info,
                thumbnail_url: match source {
                    Some(MediaSource::Plain { url }) => Some(url),
                    _ => None,
                },
                blurhash: value.blurhash,
            },
        ),
    }
}

impl TryFrom<ImageInfo> for AvatarImageInfo {
    type Error = MediaInfoError;

    fn try_from(value: ImageInfo) -> (r: Result<Self, MediaInfoError>) {
        let thumbnail_url = match value.thumbnail_source {
            Some(MediaSource::Plain { url }) => Some(url),
            Some(MediaSource::Encrypted { file: _ }) => return Err(MediaInfoError::InvalidField),
            None => None,
        };
        Ok(
            AvatarImageInfo {
                height: optional_uint(value.height),
                width: optional_uint(value.width),
                mimetype: value.mimetype,
                size: optional_uint(value.size),
                thumbnail_info: value.thumbnail_info,
                thumbnail_url,
                blurhash: value.blurhash,
            },
        )
    }
}

impl vstd::std_specs::convert::TryFromSpecImpl<ImageInfo> for AvatarImageInfo {
    open spec fn obeys_try_from_spec() -> bool {
        true
    }

    open spec fn try_from_spec(value: ImageInfo) -> Result<Self, MediaInfoError> {
        avatar_info(value)
    }
}

/// A picture to upload for a room.
#[derive(Debug)]
pub struct AvatarUpload {
    pub mimetype: MediaType,
    pub data: Vec<u8>,
    pub info: Option<AvatarImageInfo>,
}

/// What is wrong with a picture and its description.
pub open spec fn avatar_problem(mime_type: Seq<char>, info: Option<ImageInfo>) -> Option<
    ClientText,
> {
    match media_type(mime_type) {
        Err(problem) => Some(foreign_client_error(problem)),
        Ok(_) => match info {
            Some(info) => if avatar_info(info) is Err {
                Some(ClientText::Room(RoomError::InvalidMediaInfo))
            } else {
                None
            },
            None => None,
        },
    }
}

impl Room {
    /// Gives the room a picture.
    pub fn upload_avatar(
        &self,
        mime_type: String,
        data: Vec<u8>,
        media_info: Option<ImageInfo>,
    ) -> (r: Result<AvatarUpload, ClientError>)
        ensures
            match r {
                Ok(upload) => {
                    &&& avatar_problem(mime_type@, media_info) is None
                    &&& read_from(upload.mimetype, mime_type@)
                    &&& upload.data == data
                    &&& match media_info {
                        Some(info) => upload.info matches Some(kept) && avatar_info(info) == Ok::<
                            AvatarImageInfo,
                            MediaInfoError,
                        >(kept),
                        None => upload.info is None,
                    }
                },
                Err(error) => avatar_problem(mime_type@, media_info) == Some(error@),
            },
    {
        let mimetype = request_mimetype(mime_type.as_str())?;
        let info = match media_info {
            Some(info) => match AvatarImageInfo::try_from(info) {
                Ok(info) => Some(info),
                Err(_) => return Err(ClientError::Room(RoomError::InvalidMediaInfo)),
            },
            None => None,
        };
        Ok(AvatarUpload { mimetype, data, info })
    }
}

/// The picture that a room is given is the one that the client gave, under the media type that the
/// client's text says. Its description is the client's, with numbers that are too large for the
/// protocol cut down. A thumbnail that is encrypted cannot be described, and is an error.
pub proof fn law_picture_is_uploaded_as_given(
    room: Room,
    mime_type: String,
    data: Vec<u8>,
    media_info: Option<ImageInfo>,
    r: Result<AvatarUpload, ClientError>,
)
    requires
        call_ensures(Room::upload_avatar, (&room, mime_type, data, media_info), r),
    ensures
        r is Ok <==> media_type(mime_type@) is Ok && !(media_info matches Some(info)
            && info.thumbnail_source matches Some(MediaSource::Encrypted { .. })),
        r matches Ok(upload) ==> {
            &&& upload.data == data
            &&& media_type(mime_type@) matches Ok(parsed) && upload.mimetype@ == parsed
            &&& match (media_info, upload.info) {
                (None, None) => true,
                (Some(info), Some(kept)) => {
                    &&& kept.mimetype == info.mimetype
                    &&& kept.thumbnail_info == info.thumbnail_info
                    &&& kept.blurhash == info.blurhash
                    &&& match info.thumbnail_source {
                        Some(MediaSource::Plain { url }) => kept.thumbnail_url == Some(url),
                        _ => kept.thumbnail_url is None,
                    }
                    &&& kept.width is Some <==> info.width is Some
                    &&& info.width matches Some(number) ==> kept.width == Some(
                        if number <= 0x1F_FFFF_FFFF_FFFF {
                            number
                        } else {
                            0x1F_FFFF_FFFF_FFFF
                        },
                    )
                    &&& kept.height is Some <==> info.height is Some
                    &&& info.height matches Some(number) ==> kept.height == Some(
                        if number <= 0x1F_FFFF_FFFF_FFFF {
                            number
                        } else {
                            0x1F_FFFF_FFFF_FFFF
                        },
                    )
                    &&& kept.size is Some <==> info.size is Some
                    &&& info.size matches Some(number) ==> kept.size == Some(
                        if number <= 0x1F_FFFF_FFFF_FFFF {
                            number
                        } else {
                            0x1F_FFFF_FFFF_FFFF
                        },
                    )
                },
                _ => false,
            }
        },
        r matches Err(error) ==> match media_type(mime_type@) {
            Err(problem) => error@ == (ClientText::Generic {
                msg: problem.message,
                details: Some(problem.debug),
            }),
            Ok(_) => error@ == ClientText::Room(RoomError::InvalidMediaInfo),
        },
{
}

} // verus!

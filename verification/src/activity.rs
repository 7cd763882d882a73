//! The activity feed: how a page of it is read, which activities carry a
//! photo or a video, and what is fetched for them.

use crate::brightwheel::{text_field, text_of, Response, ResponseView};
use crate::fault::{Fault, Part};
use crate::json::{values_of, Json, JsonValue};
use crate::naming::{instant_of, Instant};
use vstd::prelude::*;

verus! {

/// The two kinds of media that are synchronised.
#[derive(Clone, Copy, Debug, PartialEq, Eq, Structural)]
pub enum MediaKind {
    Photo,
    Video,
}

impl MediaKind {
    /// The extension of the files of this kind.
    pub open spec fn extension_text(self) -> Seq<char> {
        match self {
            MediaKind::Photo => "jpg"@,
            MediaKind::Video => "mp4"@,
        }
    }

    /// The member of an activity that describes media of this kind.
    pub open spec fn descriptor_key(self) -> Seq<char> {
        match self {
            MediaKind::Photo => "media"@,
            MediaKind::Video => "video_info"@,
        }
    }

    /// The member of the descriptor that holds the address of the file.
    pub open spec fn url_key(self) -> Seq<char> {
        match self {
            MediaKind::Photo => "image_url"@,
            MediaKind::Video => "downloadable_url"@,
        }
    }

    /// The part that a fault about the descriptor names.
    pub open spec fn descriptor_part(self) -> Part {
        match self {
            MediaKind::Photo => Part::Media,
            MediaKind::Video => Part::VideoInfo,
        }
    }

    /// The part that a fault about the address names.
    pub open spec fn url_part(self) -> Part {
        match self {
            MediaKind::Photo => Part::ImageUrl,
            MediaKind::Video => Part::DownloadableUrl,
        }
    }

    /// The extension of the files of this kind.
    pub fn extension(self) -> (extension: &'static str)
        ensures
            extension@ == self.extension_text(),
    {
        match self {
            MediaKind::Photo => "jpg",
            MediaKind::Video => "mp4",
        }
    }
}

/// Whether `text` parses as a URL.
pub uninterp spec fn url_parses(text: Seq<char>) -> bool;

/// Calls `reqwest::Url::parse` and says whether it gave a URL. Trusted: the
/// answer is the one that `url_parses` names, so it depends on the text alone.
#[verifier::external_body]
fn parse_url(text: &str) -> (accepted: bool)
    ensures
        accepted == url_parses(text@),
{
    reqwest::Url::parse(text).is_ok()
}

/// What is fetched for one activity.
#[derive(Clone, Debug, PartialEq, Eq)]
pub struct Attachment {
    pub kind: MediaKind,
    pub created_at: Instant,
    pub object_id: String,
    pub url: String,
}

/// The mathematical value of an [`Attachment`].
pub ghost struct AttachmentView {
    pub kind: MediaKind,
    pub created_at: Instant,
    pub object_id: Seq<char>,
    pub url: Seq<char>,
}

impl View for Attachment {
    type V = AttachmentView;

    open spec fn view(&self) -> AttachmentView {
        AttachmentView {
            kind: self.kind,
            created_at: self.created_at,
            object_id: self.object_id@,
            url: self.url@,
        }
    }
}

/// Whether an activity carries media of `kind`: whether its member for
/// that kind is there and is an object.
pub open spec fn carries(activity: JsonValue, kind: MediaKind) -> bool {
    match activity.field(kind.descriptor_key()) {
        Some(descriptor) => descriptor.is_object(),
        None => false,
    }
}

/// Where an activity is routed: to the photo procedure where it carries a
/// photo, else to the video procedure where it carries a video, else
/// nowhere. Both descriptors are optional: one that is absent, `null` or
/// anything but an object is none.
pub open spec fn route_of(activity: JsonValue) -> Result<Option<MediaKind>, Fault> {
    if !activity.is_object() {
        Err(Fault::Shape(Part::Activity))
    } else if carries(activity, MediaKind::Photo) {
        Ok(Some(MediaKind::Photo))
    } else if carries(activity, MediaKind::Video) {
        Ok(Some(MediaKind::Video))
    } else {
        Ok(None)
    }
}

/// The instant at which an activity was created: its member `created_at`,
/// a string that stands for an instant.
pub open spec fn created_at_of(activity: JsonValue) -> Result<Instant, Fault> {
    match text_field(activity, "created_at"@) {
        None => Err(Fault::Shape(Part::CreatedAt)),
        Some(text) => match instant_of(text) {
            None => Err(Fault::Shape(Part::CreatedAt)),
            Some(instant) => Ok(instant),
        },
    }
}

/// The identifier of an activity: its member `object_id`, a string.
pub open spec fn object_id_of(activity: JsonValue) -> Result<Seq<char>, Fault> {
    match text_field(activity, "object_id"@) {
        None => Err(Fault::Shape(Part::ObjectId)),
        Some(id) => Ok(id),
    }
}

/// The address of the file of an activity that carries media of `kind`: a
/// string in the descriptor that parses as a URL.
pub open spec fn url_of(activity: JsonValue, kind: MediaKind) -> Result<Seq<char>, Fault> {
    match activity.field(kind.descriptor_key()) {
        None => Err(Fault::Shape(kind.descriptor_part())),
        Some(descriptor) => match text_field(descriptor, kind.url_key()) {
            None => Err(Fault::Shape(kind.url_part())),
            Some(url) => if url_parses(url) {
                Ok(url)
            } else {
                Err(Fault::Shape(kind.url_part()))
            },
        },
    }
}

/// What is fetched for an activity, if anything. The instant, the
/// identifier and the address are read in this order, and only of an
/// activity that is routed somewhere.
pub open spec fn attachment_of(activity: JsonValue) -> Result<Option<AttachmentView>, Fault> {
    match route_of(activity) {
        Err(fault) => Err(fault),
        Ok(None) => Ok(None),
        Ok(Some(kind)) => match created_at_of(activity) {
            Err(fault) => Err(fault),
            Ok(created_at) => match object_id_of(activity) {
                Err(fault) => Err(fault),
                Ok(object_id) => match url_of(activity, kind) {
                    Err(fault) => Err(fault),
                    Ok(url) => Ok(Some(AttachmentView { kind, created_at, object_id, url })),
                },
            },
        },
    }
}

/// Says whether an activity carries media of `kind`.
pub fn has_media(activity: &Json, kind: MediaKind) -> (found: bool)
    ensures
        found == carries(activity@, kind),
{
    let descriptor = match kind {
        MediaKind::Photo => activity.get("media"),
        MediaKind::Video => activity.get("video_info"),
    };
    match descriptor {
        Some(descriptor) => descriptor.is_object(),
        None => false,
    }
}

/// Routes an activity.
pub fn route(activity: &Json) -> (kind: Result<Option<MediaKind>, Fault>)
    ensures
        kind == route_of(activity@),
{
    if !activity.is_object() {
        Err(Fault::Shape(Part::Activity))
    } else if has_media(activity, MediaKind::Photo) {
        Ok(Some(MediaKind::Photo))
    } else if has_media(activity, MediaKind::Video) {
        Ok(Some(MediaKind::Video))
    } else {
        Ok(None)
    }
}

/// Reads the instant at which an activity was created.
pub fn get_created_at(activity: &Json) -> (created_at: Result<Instant, Fault>)
    ensures
        created_at == created_at_of(activity@),
{
    match text_of(activity, "created_at") {
        None => Err(Fault::Shape(Part::CreatedAt)),
        Some(text) => match Instant::parse(text) {
            None => Err(Fault::Shape(Part::CreatedAt)),
            Some(instant) => Ok(instant),
        },
    }
}

/// Reads the identifier of an activity.
pub fn get_object_id(activity: &Json) -> (object_id: Result<String, Fault>)
    ensures
        match object_id {
            Ok(id) => object_id_of(activity@) == Ok::<Seq<char>, Fault>(id@),
            Err(fault) => object_id_of(activity@) == Err::<Seq<char>, Fault>(fault),
        },
{
    match text_of(activity, "object_id") {
        None => Err(Fault::Shape(Part::ObjectId)),
        Some(id) => Ok(String::from_str(id)),
    }
}

/// Reads the address of the file of an activity that carries media of `kind`.
pub fn get_url(activity: &Json, kind: MediaKind) -> (url: Result<String, Fault>)
    ensures
        match url {
            Ok(text) => url_of(activity@, kind) == Ok::<Seq<char>, Fault>(text@),
            Err(fault) => url_of(activity@, kind) == Err::<Seq<char>, Fault>(fault),
        },
{
    let descriptor = match kind {
        MediaKind::Photo => activity.get("media"),
        MediaKind::Video => activity.get("video_info"),
    };
    let descriptor = match descriptor {
        Some(descriptor) => descriptor,
        None => {
            return Err(
                Fault::Shape(
                    match kind {
                        MediaKind::Photo => Part::Media,
                        MediaKind::Video => Part::VideoInfo,
                    },
                ),
            );
        },
    };
    let text = match kind {
        MediaKind::Photo => text_of(descriptor, "image_url"),
        MediaKind::Video => text_of(descriptor, "downloadable_url"),
    };
    let part = match kind {
        MediaKind::Photo => Part::ImageUrl,
        MediaKind::Video => Part::DownloadableUrl,
    };
    match text {
        None => Err(Fault::Shape(part)),
        Some(text) => if parse_url(text) {
            Ok(String::from_str(text))
        } else {
            Err(Fault::Shape(part))
        },
    }
}

/// Reads what is fetched for an activity, if anything.
pub fn attachment(activity: &Json) -> (found: Result<Option<Attachment>, Fault>)
    ensures
        match found {
            Ok(Some(a)) => attachment_of(activity@) == Ok::<Option<AttachmentView>, Fault>(
                Some(a@),
            ),
            Ok(None) => attachment_of(activity@) == Ok::<Option<AttachmentView>, Fault>(None),
            Err(fault) => attachment_of(activity@) == Err::<Option<AttachmentView>, Fault>(fault),
        },
{
    let kind = match route(activity) {
        Err(fault) => { return Err(fault); },
        Ok(None) => { return Ok(None); },
        Ok(Some(kind)) => kind,
    };
    let created_at = match get_created_at(activity) {
        Err(fault) => { return Err(fault); },
        Ok(created_at) => created_at,
    };
    let object_id = match get_object_id(activity) {
        Err(fault) => { return Err(fault); },
        Ok(object_id) => object_id,
    };
    let url = match get_url(activity, kind) {
        Err(fault) => { return Err(fault); },
        Ok(url) => url,
    };
    Ok(Some(Attachment { kind, created_at, object_id, url }))
}

/// One page of an activity feed.
#[derive(Debug, PartialEq, Eq)]
pub struct Page {
    /// The index of the page, as the service gives it.
    pub page: u64,
    /// The size of a page, as the service gives it.
    pub page_size: u64,
    pub activities: Vec<Json>,
}

/// The mathematical value of a [`Page`].
pub ghost struct PageView {
    pub page: u64,
    pub page_size: u64,
    pub activities: Seq<JsonValue>,
}

impl View for Page {
    type V = PageView;

    open spec fn view(&self) -> PageView {
        PageView {
            page: self.page,
            page_size: self.page_size,
            activities: values_of(self.activities@),
        }
    }
}

/// The `u64` in the member `key` of `object`.
pub open spec fn count_field(object: JsonValue, key: Seq<char>) -> Option<u64> {
    match object.field(key) {
        Some(value) => value.as_u64(),
        None => None,
    }
}

/// The page in the document of a reply to the call for a page of a feed.
pub open spec fn page_of(document: JsonValue) -> Result<PageView, Fault> {
    if !document.is_object() {
        Err(Fault::Shape(Part::Document))
    } else {
        match count_field(document, "page"@) {
            None => Err(Fault::Shape(Part::Page)),
            Some(page) => match count_field(document, "page_size"@) {
                None => Err(Fault::Shape(Part::PageSize)),
                Some(page_size) => match document.field("activities"@) {
                    None => Err(Fault::Shape(Part::Activities)),
                    Some(list) => match list.as_array() {
                        None => Err(Fault::Shape(Part::Activities)),
                        Some(activities) => Ok(PageView { page, page_size, activities }),
                    },
                },
            },
        }
    }
}

impl ResponseView {
    /// The page that a reply to the call for a page of a feed carries.
    pub open spec fn page(self) -> Result<PageView, Fault> {
        match self.document() {
            Ok(document) => page_of(document),
            Err(fault) => Err(fault),
        }
    }
}

fn count_of(object: &Json, key: &str) -> (count: Option<u64>)
    ensures
        count == count_field(object@, key@),
{
    match object.get(key) {
        Some(value) => value.as_u64(),
        None => None,
    }
}

/// Reads the page out of a reply to the call for a page of a feed.
pub fn read_page(response: Response) -> (page: Result<Page, Fault>)
    ensures
        match page {
            Ok(p) => response@.page() == Ok::<PageView, Fault>(p@),
            Err(fault) => response@.page() == Err::<PageView, Fault>(fault),
        },
{
    let document = match response {
        Response::Unreachable => { return Err(Fault::Unreachable); },
        Response::Reply { status, body } => {
            if status < 200 || status > 299 {
                return Err(Fault::Status(status));
            }
            match body {
                Some(document) => document,
                None => { return Err(Fault::NotJson); },
            }
        },
    };
    if !document.is_object() {
        return Err(Fault::Shape(Part::Document));
    }
    let page = match count_of(&document, "page") {
        Some(page) => page,
        None => { return Err(Fault::Shape(Part::Page)); },
    };
    let page_size = match count_of(&document, "page_size") {
        Some(page_size) => page_size,
        None => { return Err(Fault::Shape(Part::PageSize)); },
    };
    let list = match document.take("activities") {
        Some(list) => list,
        None => { return Err(Fault::Shape(Part::Activities)); },
    };
    match list.into_array() {
        Some(activities) => Ok(Page { page, page_size, activities }),
        None => Err(Fault::Shape(Part::Activities)),
    }
}

} // verus!

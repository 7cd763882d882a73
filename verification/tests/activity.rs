use shinydisc::activity::{
    attachment, get_created_at, get_object_id, get_url, has_media, read_page, route, Attachment,
    MediaKind, Page,
};
use shinydisc::brightwheel::Response;
use shinydisc::fault::{Fault, Part};
use shinydisc::json::{Json, JsonNumber, Member};
use shinydisc::naming::{destination, Destination, Instant};

/// 2024-03-15T10:00:00Z in nanoseconds since the Unix epoch.
const MARCH_15: i128 = 1_710_496_800_000_000_000;

fn object(members: Vec<(&str, Json)>) -> Json {
    Json::Object(
        members
            .into_iter()
            .map(|(key, value)| Member { key: key.to_string(), value })
            .collect(),
    )
}

fn text(s: &str) -> Json {
    Json::Text(s.to_string())
}

fn number(n: u64) -> Json {
    Json::Number(JsonNumber::Unsigned(n))
}

fn photo(created_at: &str, object_id: &str, url: &str) -> Json {
    object(vec![
        ("object_id", text(object_id)),
        ("created_at", text(created_at)),
        ("media", object(vec![("image_url", text(url))])),
        ("video_info", Json::Null),
    ])
}

fn video(created_at: &str, object_id: &str, url: &str) -> Json {
    object(vec![
        ("object_id", text(object_id)),
        ("created_at", text(created_at)),
        ("media", Json::Null),
        ("video_info", object(vec![("downloadable_url", text(url))])),
    ])
}

fn ok(body: Json) -> Response {
    Response::Reply { status: 200, body: Some(body) }
}

#[test]
fn extension_is_jpg_for_photos_and_mp4_for_videos() {
    assert_eq!(MediaKind::Photo.extension(), "jpg");
    assert_eq!(MediaKind::Video.extension(), "mp4");
}

#[test]
fn route_sends_media_to_the_photo_procedure() {
    let activity = photo("2024-03-15T10:00:00Z", "abc123", "https://cdn.example/p.jpg");
    assert_eq!(route(&activity), Ok(Some(MediaKind::Photo)));
}

#[test]
fn route_sends_video_info_to_the_video_procedure() {
    let activity = video("2024-03-15T10:00:00Z", "abc123", "https://cdn.example/v.mp4");
    assert_eq!(route(&activity), Ok(Some(MediaKind::Video)));
}

#[test]
fn route_skips_an_activity_with_neither() {
    let activity = object(vec![("media", Json::Null), ("video_info", Json::Null)]);
    assert_eq!(route(&activity), Ok(None));
    let odd = object(vec![("media", text("x")), ("video_info", Json::Array(vec![]))]);
    assert_eq!(route(&odd), Ok(None));
}

#[test]
fn route_never_takes_both() {
    let activity = object(vec![
        ("media", object(vec![("image_url", text("https://cdn.example/p.jpg"))])),
        ("video_info", object(vec![("downloadable_url", text("https://cdn.example/v.mp4"))])),
    ]);
    assert_eq!(route(&activity), Ok(Some(MediaKind::Photo)));
}

#[test]
fn route_does_not_look_at_video_info_of_a_photo() {
    let activity = object(vec![("media", object(vec![]))]);
    assert_eq!(route(&activity), Ok(Some(MediaKind::Photo)));
}

#[test]
fn route_skips_an_activity_without_the_members() {
    assert_eq!(route(&object(vec![])), Ok(None));
    assert_eq!(route(&object(vec![("object_id", text("a1"))])), Ok(None));
    assert_eq!(route(&object(vec![("media", Json::Null)])), Ok(None));
    assert_eq!(route(&object(vec![("video_info", Json::Null)])), Ok(None));
}

#[test]
fn route_takes_a_video_without_a_media_member() {
    assert_eq!(
        route(&object(vec![("video_info", object(vec![]))])),
        Ok(Some(MediaKind::Video))
    );
}

#[test]
fn route_rejects_an_activity_that_is_no_object() {
    assert_eq!(route(&text("x")), Err(Fault::Shape(Part::Activity)));
    assert_eq!(route(&Json::Null), Err(Fault::Shape(Part::Activity)));
    assert_eq!(route(&Json::Array(vec![])), Err(Fault::Shape(Part::Activity)));
}

#[test]
fn has_media_wants_an_object_under_the_key_of_the_kind() {
    let p = photo("2024-03-15T10:00:00Z", "a", "https://cdn.example/p.jpg");
    assert!(has_media(&p, MediaKind::Photo));
    assert!(!has_media(&p, MediaKind::Video));
    let v = video("2024-03-15T10:00:00Z", "a", "https://cdn.example/v.mp4");
    assert!(has_media(&v, MediaKind::Video));
    assert!(!has_media(&v, MediaKind::Photo));
    assert!(!has_media(&object(vec![]), MediaKind::Photo));
    assert!(!has_media(&object(vec![("media", text("x"))]), MediaKind::Photo));
    assert!(!has_media(&text("x"), MediaKind::Video));
}

#[test]
fn get_created_at_reads_an_rfc_3339_timestamp() {
    let activity = object(vec![("created_at", text("2024-03-15T10:00:00Z"))]);
    assert_eq!(get_created_at(&activity), Ok(Instant { nanosecond: MARCH_15 }));
}

#[test]
fn get_created_at_applies_the_offset() {
    let activity = object(vec![("created_at", text("2024-03-15T05:00:00-05:00"))]);
    assert_eq!(get_created_at(&activity), Ok(Instant { nanosecond: MARCH_15 }));
}

#[test]
fn get_created_at_keeps_the_fraction() {
    let activity = object(vec![("created_at", text("2024-03-15T10:00:00.25Z"))]);
    assert_eq!(get_created_at(&activity), Ok(Instant { nanosecond: MARCH_15 + 250_000_000 }));
}

#[test]
fn get_created_at_rejects_what_is_no_timestamp() {
    let fault = Err(Fault::Shape(Part::CreatedAt));
    assert_eq!(get_created_at(&object(vec![])), fault);
    assert_eq!(get_created_at(&object(vec![("created_at", number(1710496800))])), fault);
    assert_eq!(get_created_at(&object(vec![("created_at", text("yesterday"))])), fault);
    assert_eq!(get_created_at(&object(vec![("created_at", text("2024-03-15T10:00:00"))])), fault);
    assert_eq!(get_created_at(&object(vec![("created_at", text(""))])), fault);
}

#[test]
fn get_created_at_rejects_a_year_before_0() {
    let fault = Err(Fault::Shape(Part::CreatedAt));
    assert_eq!(
        get_created_at(&object(vec![("created_at", text("-009999-01-02T01:59:58.5Z"))])),
        fault
    );
    assert_eq!(
        get_created_at(&object(vec![("created_at", text("-000100-06-01T00:00:00Z"))])),
        fault
    );
    let activity = photo("-009999-01-02T01:59:58.5Z", "a", "https://cdn.example/p.jpg");
    assert_eq!(attachment(&activity), Err(Fault::Shape(Part::CreatedAt)));
}

#[test]
fn get_object_id_reads_a_string() {
    assert_eq!(
        get_object_id(&object(vec![("object_id", text("abc123"))])),
        Ok("abc123".to_string())
    );
    assert_eq!(get_object_id(&object(vec![])), Err(Fault::Shape(Part::ObjectId)));
    assert_eq!(
        get_object_id(&object(vec![("object_id", number(5))])),
        Err(Fault::Shape(Part::ObjectId))
    );
}

#[test]
fn get_url_reads_the_address_of_each_kind() {
    let p = photo("2024-03-15T10:00:00Z", "a", "https://cdn.example/p.jpg?sig=1");
    assert_eq!(get_url(&p, MediaKind::Photo), Ok("https://cdn.example/p.jpg?sig=1".to_string()));
    let v = video("2024-03-15T10:00:00Z", "a", "https://cdn.example/v.mp4");
    assert_eq!(get_url(&v, MediaKind::Video), Ok("https://cdn.example/v.mp4".to_string()));
}

#[test]
fn get_url_rejects_what_is_no_url() {
    let p = photo("2024-03-15T10:00:00Z", "a", "not a url");
    assert_eq!(get_url(&p, MediaKind::Photo), Err(Fault::Shape(Part::ImageUrl)));
    let v = video("2024-03-15T10:00:00Z", "a", "/relative/path.mp4");
    assert_eq!(get_url(&v, MediaKind::Video), Err(Fault::Shape(Part::DownloadableUrl)));
    let empty = photo("2024-03-15T10:00:00Z", "a", "");
    assert_eq!(get_url(&empty, MediaKind::Photo), Err(Fault::Shape(Part::ImageUrl)));
}

#[test]
fn get_url_rejects_a_descriptor_without_the_address() {
    let no_url = object(vec![("media", object(vec![]))]);
    assert_eq!(get_url(&no_url, MediaKind::Photo), Err(Fault::Shape(Part::ImageUrl)));
    let wrong = object(vec![("video_info", object(vec![("downloadable_url", Json::Null)]))]);
    assert_eq!(get_url(&wrong, MediaKind::Video), Err(Fault::Shape(Part::DownloadableUrl)));
    assert_eq!(get_url(&object(vec![]), MediaKind::Photo), Err(Fault::Shape(Part::Media)));
    assert_eq!(get_url(&object(vec![]), MediaKind::Video), Err(Fault::Shape(Part::VideoInfo)));
}

#[test]
fn attachment_of_a_photo() {
    let activity = photo("2024-03-15T10:00:00Z", "abc123", "https://cdn.example/p.jpg");
    assert_eq!(
        attachment(&activity),
        Ok(Some(Attachment {
            kind: MediaKind::Photo,
            created_at: Instant { nanosecond: MARCH_15 },
            object_id: "abc123".to_string(),
            url: "https://cdn.example/p.jpg".to_string(),
        }))
    );
}

#[test]
fn a_photo_of_march_15_goes_to_the_march_directory() {
    let activity = photo("2024-03-15T10:00:00Z", "abc123", "https://cdn.example/p.jpg");
    let found = attachment(&activity).expect("readable").expect("a photo");
    let place = destination(
        "Ada Lovelace",
        found.created_at,
        &found.object_id,
        found.kind.extension(),
    );
    assert_eq!(
        place,
        Some(Destination {
            directory: "Ada Lovelace".to_string(),
            month: "2024-03".to_string(),
            file_name: "2024-03-15-100000-abc123.jpg".to_string(),
        })
    );
}

#[test]
fn attachment_of_a_video() {
    let activity = video("2024-03-15T10:00:00Z", "v9", "https://cdn.example/v.mp4");
    assert_eq!(
        attachment(&activity),
        Ok(Some(Attachment {
            kind: MediaKind::Video,
            created_at: Instant { nanosecond: MARCH_15 },
            object_id: "v9".to_string(),
            url: "https://cdn.example/v.mp4".to_string(),
        }))
    );
}

#[test]
fn attachment_reads_nothing_of_a_skipped_activity() {
    let activity = object(vec![("media", Json::Null), ("video_info", Json::Null)]);
    assert_eq!(attachment(&activity), Ok(None));
    assert_eq!(attachment(&object(vec![])), Ok(None));
    assert_eq!(attachment(&object(vec![("created_at", text("never"))])), Ok(None));
}

#[test]
fn attachment_reads_instant_then_identifier_then_address() {
    let all_bad = object(vec![("media", object(vec![])), ("video_info", Json::Null)]);
    assert_eq!(attachment(&all_bad), Err(Fault::Shape(Part::CreatedAt)));
    let no_id = object(vec![
        ("created_at", text("2024-03-15T10:00:00Z")),
        ("media", object(vec![])),
    ]);
    assert_eq!(attachment(&no_id), Err(Fault::Shape(Part::ObjectId)));
    let no_url = object(vec![
        ("created_at", text("2024-03-15T10:00:00Z")),
        ("object_id", text("a")),
        ("media", object(vec![])),
    ]);
    assert_eq!(attachment(&no_url), Err(Fault::Shape(Part::ImageUrl)));
}

#[test]
fn read_page_takes_the_activities_out() {
    let reply = ok(object(vec![
        ("page", number(3)),
        ("page_size", number(2)),
        ("activities", Json::Array(vec![Json::Null, text("x")])),
    ]));
    assert_eq!(
        read_page(reply),
        Ok(Page { page: 3, page_size: 2, activities: vec![Json::Null, text("x")] })
    );
}

#[test]
fn read_page_rejects_a_reply_that_cannot_be_used() {
    assert_eq!(read_page(Response::Unreachable), Err(Fault::Unreachable));
    assert_eq!(
        read_page(Response::Reply { status: 404, body: Some(object(vec![])) }),
        Err(Fault::Status(404))
    );
    assert_eq!(read_page(Response::Reply { status: 200, body: None }), Err(Fault::NotJson));
    assert_eq!(read_page(ok(Json::Array(vec![]))), Err(Fault::Shape(Part::Document)));
}

#[test]
fn read_page_names_the_missing_member() {
    assert_eq!(read_page(ok(object(vec![]))), Err(Fault::Shape(Part::Page)));
    assert_eq!(
        read_page(ok(object(vec![("page", text("0"))]))),
        Err(Fault::Shape(Part::Page))
    );
    assert_eq!(
        read_page(ok(object(vec![("page", number(0))]))),
        Err(Fault::Shape(Part::PageSize))
    );
    assert_eq!(
        read_page(ok(object(vec![
            ("page", number(0)),
            ("page_size", Json::Number(JsonNumber::Negative(-1))),
        ]))),
        Err(Fault::Shape(Part::PageSize))
    );
    assert_eq!(
        read_page(ok(object(vec![("page", number(0)), ("page_size", number(10))]))),
        Err(Fault::Shape(Part::Activities))
    );
    assert_eq!(
        read_page(ok(object(vec![
            ("page", number(0)),
            ("page_size", number(10)),
            ("activities", object(vec![])),
        ]))),
        Err(Fault::Shape(Part::Activities))
    );
}
